use ynab_agent::cli::{
    build_import_export_payload, build_transaction_list_options, build_transaction_search_options,
    build_update_category_payload, confirm_step, confirmation_result, input_path, normalize_month_arg,
    parse_callback_request, raw_scalar_output, render_codex_project_config, skill_install_notes,
    skill_install_plan_for, stdin_token, toml_basic_string, transform_json,
    wrap_transactions_request, CallbackConfig, CategoryUpdateArgs, ConfirmStep, SkillTargetArg,
    TransactionApiTypeArg, TransactionFilterArgs, TransactionSearchArgs, has_written_port,
    render_json, render_jsonl, RenderOptions,
};
use ynab_agent::config::OutputFormat;
use ynab_agent::error::YnabError;
use ynab_agent::json::{Json, JsonMap, JsonNumber};
use ynab_agent::models::TransactionClearedFilter;

fn obj(pairs: Vec<(&str, Json)>) -> Json {
    let mut m = JsonMap::new();
    for (k, v) in pairs {
        m.insert(k.to_string(), v);
    }
    Json::Object(m)
}

fn s(v: &str) -> Json {
    Json::String(v.to_string())
}

fn n(v: i64) -> Json {
    Json::from_i64(v)
}

fn empty_filters() -> TransactionFilterArgs {
    TransactionFilterArgs {
        plan: None,
        last_knowledge_of_server: None,
        since_date: None,
        transaction_type: None,
        startdate: None,
        enddate: None,
        cleared_only: false,
        uncleared_only: false,
    }
}

fn config_message(e: YnabError) -> String {
    match e {
        YnabError::Config(m) => m,
        other => panic!("unexpected error {other:?}"),
    }
}

#[test]
fn parses_loopback_redirect_uri() {
    let config = CallbackConfig::from_redirect_uri("http://127.0.0.1:8765/callback").unwrap();
    assert_eq!(config.bind_host, "127.0.0.1");
    assert_eq!(config.port, 8765);
    assert_eq!(config.path, "/callback");
}

#[test]
fn rejects_non_loopback_redirect_uri() {
    let error = CallbackConfig::from_redirect_uri("https://example.com/callback").unwrap_err();
    assert!(error.message().contains("interactive login requires"));
}

#[test]
fn parses_success_callback_request() {
    let config = CallbackConfig::from_redirect_uri("http://127.0.0.1:8765/callback").unwrap();
    let callback = parse_callback_request(
        "GET /callback?code=test-code&state=test-state HTTP/1.1\r\nHost: 127.0.0.1:8765\r\n\r\n",
        &config,
    )
    .unwrap();
    assert_eq!(callback.code, "test-code");
    assert_eq!(callback.state.as_deref(), Some("test-state"));
}

#[test]
fn callback_errors_are_reported() {
    let config = CallbackConfig::from_redirect_uri("http://localhost:9000").unwrap();
    assert_eq!(config.path, "/");
    assert_eq!(config.bind_addr(), "localhost:9000");
    assert_eq!(config.bind_display(), "localhost:9000/");
    let e = parse_callback_request("POST / HTTP/1.1\r\n\r\n", &config).unwrap_err();
    assert_eq!(config_message(e), "unexpected HTTP method for OAuth callback");
    let e = parse_callback_request("GET /?error=access_denied&error_description=nope HTTP/1.1\r\n", &config)
        .unwrap_err();
    assert_eq!(config_message(e), "OAuth authorization failed: access_denied: nope");
    let e = parse_callback_request("GET /other?code=x HTTP/1.1\r\n", &config).unwrap_err();
    assert_eq!(config_message(e), "received OAuth callback on unexpected path");
    let e = parse_callback_request("GET /?state=s HTTP/1.1\r\n", &config).unwrap_err();
    assert_eq!(config_message(e), "OAuth callback did not include an authorization code");
    let e = parse_callback_request("", &config).unwrap_err();
    assert_eq!(config_message(e), "malformed OAuth callback request");
    let e = CallbackConfig::from_redirect_uri("http://127.0.0.1/callback").unwrap_err();
    assert_eq!(config_message(e), "interactive login requires an explicit redirect URI port");
}

#[test]
fn transaction_search_options_preserve_filters() {
    let args = TransactionSearchArgs {
        filters: TransactionFilterArgs {
            plan: None,
            last_knowledge_of_server: None,
            since_date: None,
            transaction_type: None,
            startdate: None,
            enddate: None,
            cleared_only: false,
            uncleared_only: false,
        },
        month: None,
        query: Some("restock".to_string()),
        payee: Some("amazon".to_string()),
        memo: None,
        account: Some("check".to_string()),
        category: Some("shop".to_string()),
    };

    let options = build_transaction_search_options(&args);
    assert_eq!(options.query.as_deref(), Some("restock"));
    assert_eq!(options.payee.as_deref(), Some("amazon"));
    assert_eq!(options.account.as_deref(), Some("check"));
    assert_eq!(options.category.as_deref(), Some("shop"));
}

#[test]
fn export_payload_is_compatible_with_transactions_import() {
    let input = obj(vec![
        ("id", s("transaction-1")),
        ("account_id", s("account-1")),
        ("date", s("2026-04-18")),
        ("amount", n(-1250)),
        ("payee_id", s("payee-1")),
        ("memo", s("coffee")),
        ("approved", Json::Bool(true)),
        ("deleted", Json::Bool(false)),
        (
            "subtransactions",
            Json::Array(vec![
                obj(vec![("amount", n(-1000)), ("category_id", s("cat-1")), ("memo", s("beans"))]),
                obj(vec![("amount", n(-250)), ("deleted", Json::Bool(true))]),
            ]),
        ),
    ]);
    let payload = build_import_export_payload(&vec![input]).unwrap();

    let expected = obj(vec![(
        "transactions",
        Json::Array(vec![obj(vec![
            ("account_id", s("account-1")),
            ("date", s("2026-04-18")),
            ("amount", n(-1250)),
            ("payee_id", s("payee-1")),
            ("memo", s("coffee")),
            ("approved", Json::Bool(true)),
            (
                "subtransactions",
                Json::Array(vec![obj(vec![
                    ("amount", n(-1000)),
                    ("category_id", s("cat-1")),
                    ("memo", s("beans")),
                ])]),
            ),
        ])]),
    )]);
    assert_eq!(payload, expected);
    let wrapped = wrap_transactions_request(payload, true).unwrap();
    assert_eq!(wrapped, expected);
}

#[test]
fn export_payload_skips_deleted_transactions() {
    let payload = build_import_export_payload(&vec![obj(vec![
        ("account_id", s("account-1")),
        ("date", s("2026-04-18")),
        ("amount", n(1000)),
        ("deleted", Json::Bool(true)),
    ])])
    .unwrap();

    assert_eq!(payload, obj(vec![("transactions", Json::Array(vec![]))]));
}

#[test]
fn export_reports_missing_fields_by_index() {
    let e = build_import_export_payload(&vec![
        obj(vec![("account_id", s("a")), ("date", s("2026-04-18")), ("amount", n(1))]),
        obj(vec![("date", s("2026-04-18")), ("amount", n(1))]),
    ])
    .unwrap_err();
    assert_eq!(
        config_message(e),
        "unable to export transaction at index 1: missing required string `account_id`"
    );
    let e = build_import_export_payload(&vec![s("x")]).unwrap_err();
    assert_eq!(config_message(e), "unable to export transaction at index 0: expected an object");
    let e = build_import_export_payload(&vec![obj(vec![
        ("account_id", s("a")),
        ("date", s("2026-04-18")),
        ("amount", n(1)),
        ("subtransactions", Json::Array(vec![obj(vec![("memo", s("m"))])])),
    ])])
    .unwrap_err();
    assert_eq!(
        config_message(e),
        "unable to export transaction at index 0: subtransaction at index 0 is missing required integer `amount`"
    );
}

#[test]
fn bulk_input_wrapping() {
    let array = Json::Array(vec![obj(vec![("amount", n(1))])]);
    let wrapped = wrap_transactions_request(array, false).unwrap();
    assert!(wrapped.get("transactions").is_some());
    let single = obj(vec![("amount", n(1))]);
    let wrapped = wrap_transactions_request(single, true).unwrap();
    assert!(wrapped.get("transaction").is_some());
    let e = wrap_transactions_request(obj(vec![("amount", n(1))]), false).unwrap_err();
    assert_eq!(
        config_message(e),
        "transaction input must be a JSON object wrapper or an array of transactions"
    );
    assert_eq!(input_path("@file://a.json"), "a.json");
    assert_eq!(input_path("@b.json"), "b.json");
    assert_eq!(input_path("-"), "-");
}

#[test]
fn list_options_read_dates_months_and_flags() {
    let mut f = empty_filters();
    f.startdate = Some("2026-04-11".to_string());
    f.enddate = Some(" 2026-04-18 ".to_string());
    f.since_date = Some("2026-04-01".to_string());
    f.transaction_type = Some(TransactionApiTypeArg::Unapproved);
    f.uncleared_only = true;
    let o = build_transaction_list_options(f, Some("2026-04".to_string())).unwrap();
    assert_eq!(o.month.as_deref(), Some("2026-04-01"));
    assert_eq!(o.since_date.as_deref(), Some("2026-04-01"));
    assert_eq!(o.transaction_type.as_deref(), Some("unapproved"));
    assert_eq!(o.start_date.unwrap().day, 11);
    assert_eq!(o.end_date.unwrap().day, 18);
    assert_eq!(o.cleared_filter, Some(TransactionClearedFilter::Uncleared));

    let mut f = empty_filters();
    f.startdate = Some("2026-04-19".to_string());
    f.enddate = Some("2026-04-18".to_string());
    let e = build_transaction_list_options(f, None).unwrap_err();
    assert_eq!(config_message(e), "--startdate must be on or before --enddate");

    let mut f = empty_filters();
    f.startdate = Some("04/11/2026".to_string());
    let e = build_transaction_list_options(f, None).unwrap_err();
    assert_eq!(config_message(e), "invalid date `04/11/2026`. use YYYY-MM-DD");

    let e = normalize_month_arg("April").unwrap_err();
    assert_eq!(config_message(e), "invalid --month value `April`. use YYYY-MM or YYYY-MM-01");
    assert_eq!(normalize_month_arg("2026-04-01").unwrap(), "2026-04-01");
}

#[test]
fn categories_update_requires_a_change() {
    let args = CategoryUpdateArgs {
        plan: None,
        category_id: "category-1".to_string(),
        name: None,
        group_id: None,
        note: None,
        goal_target: None,
        goal_target_date: None,
        goal_needs_whole_amount: None,
    };
    let e = build_update_category_payload(&args).unwrap_err();
    assert_eq!(config_message(e), "categories update requires at least one field to change");
    let args = CategoryUpdateArgs { goal_target: Some("1.5".to_string()), ..args };
    let c = build_update_category_payload(&args).unwrap();
    assert_eq!(c.goal_target, Some(1500));
}

#[test]
fn transform_selects_dotted_paths() {
    let value = obj(vec![
        ("ok", Json::Bool(true)),
        (
            "data",
            obj(vec![(
                "plans",
                Json::Array(vec![obj(vec![("id", s("plan-1"))]), obj(vec![("id", s("plan-2"))])]),
            )]),
        ),
    ]);
    assert_eq!(transform_json(&value, "plans.1.id"), s("plan-2"));
    assert_eq!(transform_json(&value, ".data.plans.0.id"), s("plan-1"));
    assert_eq!(transform_json(&value, "ok"), Json::Bool(true));
    assert_eq!(transform_json(&value, "plans.9"), Json::Null);
    assert_eq!(transform_json(&value, " . "), value);
    assert_eq!(raw_scalar_output(&s("default")).as_deref(), Some("default"));
    assert_eq!(raw_scalar_output(&n(-5)).as_deref(), Some("-5"));
    assert_eq!(
        raw_scalar_output(&Json::Number(JsonNumber::Float("1.5".to_string()))).as_deref(),
        Some("1.5")
    );
    assert_eq!(raw_scalar_output(&Json::Null).as_deref(), Some("null"));
    assert_eq!(raw_scalar_output(&Json::Array(vec![])), None);
}

#[test]
fn confirmation_and_token_input() {
    assert!(confirmation_result(" Yes \n").is_ok());
    assert!(confirmation_result("y").is_ok());
    assert_eq!(config_message(confirmation_result("no").unwrap_err()), "operation cancelled");
    assert_eq!(stdin_token("  tok\n").unwrap(), "tok");
    assert_eq!(
        config_message(stdin_token("\n").unwrap_err()),
        "token was not provided via --token or stdin"
    );
}

#[test]
fn skill_plans_and_notes() {
    let plan = skill_install_plan_for(SkillTargetArg::Codex, None, Some("/home/u".to_string()), "/w")
        .unwrap();
    assert_eq!(plan.destination, "/home/u/.codex/skills/ynab-cli");
    assert_eq!(plan.scope, "user");
    let plan =
        skill_install_plan_for(SkillTargetArg::Openclaw, Some("proj"), None, "/work").unwrap();
    assert_eq!(plan.destination, "/work/proj/skills/ynab-cli");
    assert_eq!(plan.scope, "project");
    assert_eq!(plan.project.as_deref(), Some("/work/proj"));
    let e = skill_install_plan_for(SkillTargetArg::Codex, Some("/p"), None, "/w").unwrap_err();
    assert!(config_message(e).starts_with("project-scoped Codex skill installs are not currently supported"));
    assert_eq!(skill_install_notes(SkillTargetArg::Openclaw, "project").len(), 2);
    assert!(skill_install_notes(SkillTargetArg::Codex, "project").is_empty());
    assert_eq!(SkillTargetArg::Openclaw.as_str(), "openclaw");
}

#[test]
fn client_configuration_snippets() {
    assert_eq!(toml_basic_string("a\"b\\c"), "\"a\\\"b\\\\c\"");
    let toml = render_codex_project_config("/p", "/bin/ynab-mcp");
    assert!(toml.starts_with("[projects.\"/p\"]\ntrust_level = \"trusted\""));
    assert!(toml.contains("command = \"/bin/ynab-mcp\""));
    let json = ynab_agent::cli::render_workspace_mcp_json("/bin/ynab-mcp");
    assert!(json.contains("\"command\": \"/bin/ynab-mcp\""));
}

#[test]
fn access_token_source_prefers_the_flag() {
    let args = vec![Some("ynab".to_string()), Some("--access-token=abc".to_string())];
    assert_eq!(ynab_agent::cli::access_token_source_from_args(&args, true), Some("flag"));
    let args = vec![Some("ynab".to_string()), None];
    assert_eq!(ynab_agent::cli::access_token_source_from_args(&args, true), Some("env"));
    assert_eq!(ynab_agent::cli::access_token_source_from_args(&args, false), None);
}

#[test]
fn callback_response_escapes_the_message() {
    let r = ynab_agent::cli::callback_response(400, "a<b>&c");
    assert!(r.starts_with("HTTP/1.1 400 Bad Request\r\n"));
    assert!(r.contains("<h1>a&lt;b&gt;&amp;c</h1>"));
    let body = "<!doctype html><html><body><h1>a&lt;b&gt;&amp;c</h1></body></html>";
    assert!(r.contains(&format!("Content-Length: {}\r\n", body.len())));
}

#[test]
fn writes_need_yes_or_a_terminal() {
    assert!(matches!(confirm_step(true, false, "delete transaction"), ConfirmStep::Proceed));
    assert!(matches!(confirm_step(true, true, "delete transaction"), ConfirmStep::Proceed));
    assert!(matches!(confirm_step(false, true, "delete transaction"), ConfirmStep::Ask));
    match confirm_step(false, false, "delete transaction") {
        ConfirmStep::Refuse(YnabError::Config(m)) => assert_eq!(
            m,
            "refusing to delete transaction without confirmation in non-interactive mode; pass --yes to confirm"
        ),
        other => panic!("unexpected step {other:?}"),
    }
}

#[test]
fn client_snippets_escape_paths_and_callbacks_decode_values() {
    let json = ynab_agent::cli::render_workspace_mcp_json("/opt/my \"ynab\"/ynab-mcp");
    assert!(json.contains("\"command\": \"/opt/my \\\"ynab\\\"/ynab-mcp\""));
    let config = CallbackConfig::from_redirect_uri("http://localhost:9000/cb").unwrap();
    let callback = parse_callback_request("GET /cb?code=a%20b&state=s%2F1 HTTP/1.1\r\n\r\n", &config).unwrap();
    assert_eq!(callback.code, "a b");
    assert_eq!(callback.state.as_deref(), Some("s/1"));
}

#[test]
fn redirect_uris_on_ipv6_loopback_and_written_default_port_are_accepted() {
    let config = CallbackConfig::from_redirect_uri("http://[::1]:8765/callback").unwrap();
    assert_eq!(config.bind_host, "::1");
    assert_eq!(config.port, 8765);
    assert_eq!(config.bind_addr(), "[::1]:8765");
    let config = CallbackConfig::from_redirect_uri("http://127.0.0.1:80/cb").unwrap();
    assert_eq!(config.port, 80);
    assert_eq!(config.path, "/cb");
    let config = CallbackConfig::from_redirect_uri("http://user:pw@localhost:9000").unwrap();
    assert_eq!(config.port, 9000);
    let e = CallbackConfig::from_redirect_uri("http://[::1]/callback").unwrap_err();
    assert_eq!(config_message(e), "interactive login requires an explicit redirect URI port");
    let e = CallbackConfig::from_redirect_uri("http://localhost:/cb").unwrap_err();
    assert_eq!(config_message(e), "interactive login requires an explicit redirect URI port");
    let e = CallbackConfig::from_redirect_uri("http://example.com:8765/cb").unwrap_err();
    assert_eq!(
        config_message(e),
        "interactive login requires a localhost/127.0.0.1/::1 redirect URI"
    );
    assert!(has_written_port("http://a:1/x:2"));
    assert!(!has_written_port("http://a/x:2"));
    assert!(!has_written_port("http://[::1]/x"));
}

fn render(format: OutputFormat, transform: Option<&str>, raw_output: bool, value: &Json) -> String {
    render_json(
        &RenderOptions { format, transform: transform.map(|t| t.to_string()), raw_output },
        value,
    )
}

#[test]
fn rendering_follows_format_transform_and_raw_output() {
    let value = obj(vec![
        ("data", obj(vec![("items", Json::Array(vec![n(1), obj(vec![("a", s("x"))])])), ("name", s("Plan"))])),
        ("ok", Json::Bool(true)),
    ]);
    assert_eq!(
        render(OutputFormat::Json, None, false, &value),
        "{\"data\":{\"items\":[1,{\"a\":\"x\"}],\"name\":\"Plan\"},\"ok\":true}\n"
    );
    assert_eq!(
        render(OutputFormat::PrettyJson, Some("data.name"), false, &value),
        "\"Plan\"\n"
    );
    assert_eq!(render(OutputFormat::Json, Some("data.name"), true, &value), "Plan\n");
    assert_eq!(
        render(OutputFormat::Jsonl, Some("data.items"), false, &value),
        "1\n{\"a\":\"x\"}\n"
    );
    assert_eq!(render(OutputFormat::Jsonl, Some("ok"), true, &value), "true\n");
    assert_eq!(render(OutputFormat::Jsonl, Some("ok"), false, &value), "true\n");
    assert_eq!(render_jsonl(&Json::Array(vec![])), "");
    assert_eq!(
        render(OutputFormat::PrettyJson, None, false, &obj(vec![("ok", Json::Bool(true))])),
        "{\n  \"ok\": true\n}\n"
    );
}

#[test]
fn workspace_snippet_escapes_like_serde_json() {
    for path in ["/opt/a\"b\\c", "/tmp/\u{1}\u{8}\t\n\u{c}\r\u{1f}x", "/ünïcode/\u{7f}"] {
        let escaped = serde_json::to_string(path).unwrap();
        let snippet = ynab_agent::cli::render_workspace_mcp_json(path);
        assert!(snippet.contains(&format!("\"command\": {escaped},")), "{snippet}");
    }
}
