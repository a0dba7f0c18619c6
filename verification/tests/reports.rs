use ynab_agent::app::{
    budgeted_body, name_body, oauth_start_data, profile_report, refresh_and_retry, sign_in_data,
    unauthorized_retry_possible, whoami_data, wrap_under, OAuthStartResult, TransactionCreateInput,
    TransactionListOptions, TransactionUpdateInput,
};
use ynab_agent::app::{default_plan_selection, submit_step, SubmitStep};
use ynab_agent::cli::{export_report, write_step, ConfirmStep};
use ynab_agent::text::trim;
use ynab_agent::error::YnabError;
use ynab_agent::json::{Json, JsonMap};
use ynab_agent::models::{AmountMilliunits, SaveCategory, StoredSession, Timestamp};
use ynab_agent::routes::{
    api_path, plan_path, transaction_listing_request, ApiPath, PlanPath, TransactionScope,
};

fn obj(pairs: Vec<(&str, Json)>) -> Json {
    let mut m = JsonMap::new();
    for (k, v) in pairs {
        m.insert(k.to_string(), v);
    }
    Json::Object(m)
}

fn s(v: &str) -> Json {
    Json::String(v.to_string())
}

fn in_plan(rest: PlanPath) -> String {
    api_path(&ApiPath::InPlan { plan_id: "p1".to_string(), rest })
}

#[test]
fn api_paths_follow_the_ynab_layout() {
    assert_eq!(api_path(&ApiPath::Plans), "/plans");
    assert_eq!(api_path(&ApiPath::User), "/user");
    assert_eq!(in_plan(PlanPath::Root), "/plans/p1");
    assert_eq!(in_plan(PlanPath::Settings), "/plans/p1/settings");
    assert_eq!(in_plan(PlanPath::Account("a1".to_string())), "/plans/p1/accounts/a1");
    assert_eq!(
        in_plan(PlanPath::MonthCategory("2026-04-01".to_string(), "c1".to_string())),
        "/plans/p1/months/2026-04-01/categories/c1"
    );
    assert_eq!(in_plan(PlanPath::TransactionsImport), "/plans/p1/transactions/import");
    assert_eq!(
        in_plan(PlanPath::PayeeTransactions("y1".to_string())),
        "/plans/p1/payees/y1/transactions"
    );
    assert_eq!(
        in_plan(PlanPath::MonthMoneyMovementGroups("2026-04-01".to_string())),
        "/plans/p1/months/2026-04-01/money_movement_groups"
    );
    assert_eq!(
        in_plan(PlanPath::PayeeLocationsByPayee("y1".to_string())),
        "/plans/p1/payees/y1/payee_locations"
    );
    assert_eq!(plan_path(&PlanPath::Root), "");
    assert_eq!(plan_path(&PlanPath::ScheduledTransaction("s1".to_string())), "/scheduled_transactions/s1");
}

fn listing_options(month: Option<&str>) -> TransactionListOptions {
    TransactionListOptions {
        last_knowledge_of_server: Some(7),
        month: month.map(str::to_string),
        since_date: Some("2026-01-01".to_string()),
        transaction_type: Some("unapproved".to_string()),
        ..TransactionListOptions::default()
    }
}

#[test]
fn month_listings_drop_server_filters() {
    let request = transaction_listing_request("p1", TransactionScope::Plan, &listing_options(Some("2026-04-01")));
    assert_eq!(request.path, "/plans/p1/months/2026-04-01/transactions");
    assert_eq!(request.last_knowledge, None);
    assert!(request.query.is_empty());

    let request = transaction_listing_request("p1", TransactionScope::Plan, &listing_options(None));
    assert_eq!(request.path, "/plans/p1/transactions");
    assert_eq!(request.last_knowledge, Some(7));
    assert_eq!(
        request.query,
        vec![
            ("since_date".to_string(), "2026-01-01".to_string()),
            ("type".to_string(), "unapproved".to_string())
        ]
    );

    let request = transaction_listing_request(
        "p1",
        TransactionScope::Account("a1".to_string()),
        &listing_options(Some("2026-04-01")),
    );
    assert_eq!(request.path, "/plans/p1/accounts/a1/transactions");
    assert_eq!(request.last_knowledge, Some(7));
    assert_eq!(request.query.len(), 2);
}

#[test]
fn only_a_first_unauthorized_answer_retries_an_oauth_session() {
    assert!(unauthorized_retry_possible(401, false));
    assert!(!unauthorized_retry_possible(401, true));
    assert!(!unauthorized_retry_possible(403, false));
    let pat = StoredSession::PersonalAccessToken { access_token: "t".to_string() };
    assert!(!refresh_and_retry(Some(&pat)).unwrap());
    let oauth = StoredSession::OAuth {
        access_token: "a".to_string(),
        refresh_token: "r".to_string(),
        expires_at: Timestamp { secs: 0, nanos: 0 },
        token_type: "bearer".to_string(),
        scope: None,
        client_id: "c".to_string(),
        client_secret: "s".to_string(),
        redirect_uri: "http://localhost:1/cb".to_string(),
    };
    assert!(refresh_and_retry(Some(&oauth)).unwrap());
    assert!(matches!(refresh_and_retry(None), Err(YnabError::MissingCredentials)));
}

#[test]
fn sign_in_reports_kind_expiry_and_default_plan() {
    let pat = sign_in_data("default", "personal_access_token", None, (Some("p1".to_string()), true, None));
    assert_eq!(
        pat,
        obj(vec![
            ("profile", s("default")),
            ("auth_kind", s("personal_access_token")),
            ("default_plan_id", s("p1")),
            ("default_plan_auto_selected", Json::Bool(true)),
            ("default_plan_error", Json::Null),
        ])
    );
    let oauth = sign_in_data(
        "work",
        "oauth",
        Some(Timestamp { secs: 1_700_000_000, nanos: 0 }),
        (None, false, Some("no plans".to_string())),
    );
    assert_eq!(oauth.get("expires_at"), Some(&s("2023-11-14T22:13:20+00:00")));
    assert_eq!(oauth.get("default_plan_id"), Some(&Json::Null));
    assert_eq!(oauth.get("default_plan_error"), Some(&s("no plans")));
}

#[test]
fn profile_and_start_reports() {
    assert_eq!(
        profile_report("default", "cleared", Json::Bool(true)),
        obj(vec![("profile", s("default")), ("cleared", Json::Bool(true))])
    );
    let started = oauth_start_data(&OAuthStartResult {
        authorize_url: "https://app.ynab.com/oauth/authorize?x=1".to_string(),
        state: "st".to_string(),
        profile: "default".to_string(),
        code_challenge_method: "S256",
        scope: Some("read-only".to_string()),
    });
    assert_eq!(started.get("code_challenge_method"), Some(&s("S256")));
    assert_eq!(started.get("scope"), Some(&s("read-only")));
    assert_eq!(started.get("state"), Some(&s("st")));
}

#[test]
fn whoami_shows_the_listed_plans() {
    let session = StoredSession::PersonalAccessToken { access_token: "t".to_string() };
    let listing = obj(vec![("plans", Json::Array(vec![s("p1")]))]);
    let report = whoami_data("default", &session, &listing);
    assert_eq!(report.get("auth_kind"), Some(&s("personal_access_token")));
    assert_eq!(report.get("plans"), Some(&Json::Array(vec![s("p1")])));
    let empty = whoami_data("default", &session, &obj(vec![]));
    assert_eq!(empty.get("plans"), Some(&Json::Array(vec![])));
}

#[test]
fn export_report_counts_what_was_written() {
    let payload = obj(vec![("transactions", Json::Array(vec![obj(vec![]), obj(vec![])]))]);
    let report = export_report("out.json", &payload);
    assert_eq!(report.get("path"), Some(&s("out.json")));
    assert_eq!(report.get("transactions_exported").and_then(|n| n.as_u64()), Some(2));
    assert_eq!(report.get("compatible_with"), Some(&s("transactions import")));
    assert_eq!(
        export_report("-", &obj(vec![])).get("transactions_exported").and_then(|n| n.as_u64()),
        Some(0)
    );
}

fn url_of(path: &str, query: Vec<(String, String)>) -> String {
    let base = ynab_agent::web::normalize_base_url("http://127.0.0.1:8080/v1").unwrap();
    ynab_agent::web::api_request_url(&base, path, None, &query).unwrap()
}

fn member<'a>(json: &'a Json, keys: &[&str]) -> Option<&'a Json> {
    let mut current = json;
    for key in keys {
        current = current.get(key)?;
    }
    Some(current)
}

#[test]
fn api_requests_match_the_endpoints_and_bodies() {
    let payees = url_of(&in_plan_named("default", PlanPath::Payees), vec![]);
    assert_eq!(payees, "http://127.0.0.1:8080/v1/plans/default/payees");
    let body = wrap_under("payee", name_body("Test Payee"));
    assert_eq!(member(&body, &["payee", "name"]), Some(&s("Test Payee")));

    let payee = url_of(&in_plan_named("default", PlanPath::Payee("payee-1".to_string())), vec![]);
    assert_eq!(payee, "http://127.0.0.1:8080/v1/plans/default/payees/payee-1");

    let category = SaveCategory {
        name: Some("Test Category".to_string()),
        category_group_id: Some("group-1".to_string()),
        ..SaveCategory::default()
    };
    let body = wrap_under("category", category.to_json());
    assert_eq!(member(&body, &["category", "category_group_id"]), Some(&s("group-1")));
    assert_eq!(member(&body, &["category", "note"]), None);

    let month_category = url_of(
        &in_plan_named(
            "default",
            PlanPath::MonthCategory("2026-04-01".to_string(), "category-1".to_string()),
        ),
        vec![],
    );
    assert_eq!(month_category, "http://127.0.0.1:8080/v1/plans/default/months/2026-04-01/categories/category-1");
    let body = wrap_under("category", budgeted_body(150000));
    assert_eq!(member(&body, &["category", "budgeted"]), Some(&Json::from_i64(150000)));

    let group = url_of(&in_plan_named("default", PlanPath::CategoryGroup("group-1".to_string())), vec![]);
    assert_eq!(group, "http://127.0.0.1:8080/v1/plans/default/category_groups/group-1");

    let plans = url_of("/plans", vec![("include_accounts".to_string(), "true".to_string())]);
    assert_eq!(plans, "http://127.0.0.1:8080/v1/plans?include_accounts=true");

    let update = TransactionUpdateInput {
        plan_id: "default".to_string(),
        transaction_id: "tx-1".to_string(),
        amount: Some(AmountMilliunits(2500)),
        memo: Some("Updated".to_string()),
        ..TransactionUpdateInput::default()
    };
    let body = update.to_request().to_json();
    assert_eq!(member(&body, &["transaction", "memo"]), Some(&s("Updated")));
    assert_eq!(member(&body, &["transaction", "amount"]), Some(&Json::from_i64(2500)));
    assert_eq!(member(&body, &["transaction", "payee_id"]), None);
    let put = url_of(&in_plan_named("default", PlanPath::Transaction("tx-1".to_string())), vec![]);
    assert_eq!(put, "http://127.0.0.1:8080/v1/plans/default/transactions/tx-1");

    let create = TransactionCreateInput {
        plan_id: "default".to_string(),
        account_id: "account-1".to_string(),
        date: "2026-04-01".to_string(),
        amount: AmountMilliunits(-1000),
        id: None,
        import_id: Some("YNAB:IMPORT:1".to_string()),
        payee_id: None,
        payee_name: None,
        category_id: None,
        memo: None,
        cleared: None,
        approved: None,
        flag_color: None,
        dry_run: false,
    };
    let body = create.to_request().to_json();
    assert_eq!(member(&body, &["transaction", "import_id"]), Some(&s("YNAB:IMPORT:1")));
    assert_eq!(member(&body, &["transaction", "amount"]), Some(&Json::from_i64(-1000)));
}

fn in_plan_named(plan_id: &str, rest: PlanPath) -> String {
    api_path(&ApiPath::InPlan { plan_id: plan_id.to_string(), rest })
}

#[test]
fn dry_runs_preview_and_need_no_consent() {
    match submit_step(s("req"), true) {
        SubmitStep::Preview(p) => {
            assert_eq!(p, obj(vec![("dry_run", Json::Bool(true)), ("request", s("req"))]))
        }
        other => panic!("unexpected step {other:?}"),
    }
    match submit_step(s("req"), false) {
        SubmitStep::Send(q) => assert_eq!(q, s("req")),
        other => panic!("unexpected step {other:?}"),
    }
    assert!(matches!(write_step(true, false, false, "import transactions"), ConfirmStep::Proceed));
    assert!(matches!(write_step(false, false, true, "import transactions"), ConfirmStep::Ask));
    match write_step(false, false, false, "import transactions") {
        ConfirmStep::Refuse(YnabError::Config(m)) => assert_eq!(
            m,
            "refusing to import transactions without confirmation in non-interactive mode; pass --yes to confirm"
        ),
        other => panic!("unexpected step {other:?}"),
    }
}

#[test]
fn default_plan_is_auto_selected_only_when_unset() {
    assert_eq!(
        default_plan_selection(Some("p1".to_string()), None),
        (Some("p1".to_string()), false)
    );
    assert_eq!(
        default_plan_selection(None, Some("p2".to_string())),
        (Some("p2".to_string()), true)
    );
    assert_eq!(default_plan_selection(None, None), (None, false));
}

#[test]
fn trimming_matches_unicode_white_space() {
    let text = "\u{3000}\u{85}\t plan \u{2028}\u{a0}";
    assert_eq!(trim(text), text.trim());
    let inner = "\u{200b}x\u{200b}";
    assert_eq!(trim(inner), inner.trim());
}
