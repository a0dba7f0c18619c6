use ynab_agent::app::{
    auth_status_data, authorize_params, authorize_url, build_transaction_query,
    check_pending_exchange, default_plan_auth_fields, filter_transactions, parse_token_response,
    plan_argument_decision, required_string, resolve_named_resource, response_result,
    search_result, select_most_recent_plan, stored_token_step, transaction_matches_filters,
    transaction_matches_search, validate_transaction_search_options, AuthStatusInput,
    ResolveByNameKind, TokenStep, TransactionListOptions, TransactionSearchOptions,
};
use ynab_agent::config::{AppPaths, OAuthAppConfig, PendingOAuth, ProfileConfig};
use ynab_agent::dates::Date;
use ynab_agent::error::YnabError;
use ynab_agent::json::{Json, JsonMap};
use ynab_agent::models::{
    is_chrono_instant, NamedResource, OAuthScope, PlanSummary, PlansData, StoredSession, Timestamp,
    TransactionClearedFilter,
};

fn obj(pairs: Vec<(&str, Json)>) -> Json {
    let mut m = JsonMap::new();
    for (k, v) in pairs {
        m.insert(k.to_string(), v);
    }
    Json::Object(m)
}

fn s(v: &str) -> Json {
    Json::String(v.to_string())
}

fn config_message(e: YnabError) -> String {
    match e {
        YnabError::Config(m) => m,
        other => panic!("unexpected error {other:?}"),
    }
}

fn date(y: i32, m: u32, d: u32) -> Date {
    Date { year: y, month: m, day: d }
}

#[test]
fn transaction_filters_apply_date_and_cleared_rules() {
    let options = TransactionListOptions {
        start_date: Some(date(2026, 4, 11)),
        end_date: Some(date(2026, 4, 18)),
        cleared_filter: Some(TransactionClearedFilter::Uncleared),
        ..TransactionListOptions::default()
    };

    assert!(transaction_matches_filters(
        &obj(vec![("date", s("2026-04-11")), ("cleared", s("uncleared"))]),
        &options
    ));
    assert!(!transaction_matches_filters(
        &obj(vec![("date", s("2026-04-10")), ("cleared", s("uncleared"))]),
        &options
    ));
    assert!(!transaction_matches_filters(
        &obj(vec![("date", s("2026-04-12")), ("cleared", s("cleared"))]),
        &options
    ));
}

#[test]
fn cleared_filter_keeps_reconciled_and_drops_undated() {
    let options = TransactionListOptions {
        cleared_filter: Some(TransactionClearedFilter::Cleared),
        ..TransactionListOptions::default()
    };
    let listing = vec![
        obj(vec![("date", s("2026-04-11")), ("cleared", s("reconciled"))]),
        obj(vec![("date", s("2026-04-11")), ("cleared", s("uncleared"))]),
        obj(vec![("cleared", s("cleared"))]),
        obj(vec![("date", s("2026-04-12")), ("cleared", s("cleared"))]),
    ];
    let kept = filter_transactions(&listing, &options);
    assert_eq!(kept.len(), 2);
    assert_eq!(kept[0], listing[0]);
    assert_eq!(kept[1], listing[3]);
}

#[test]
fn search_matches_trimmed_case_insensitive_substrings() {
    let t = obj(vec![
        ("payee_name", s("Amazon Marketplace")),
        ("memo", s("Restock")),
        ("account_name", s("Checking")),
        ("category_name", s("Shopping")),
    ]);
    let q = TransactionSearchOptions {
        query: Some("  restock ".to_string()),
        payee: Some("AMAZON".to_string()),
        ..TransactionSearchOptions::default()
    };
    assert!(transaction_matches_search(&t, &q));
    let q = TransactionSearchOptions { account: Some("savings".to_string()), ..TransactionSearchOptions::default() };
    assert!(!transaction_matches_search(&t, &q));
    let q = TransactionSearchOptions { memo: Some("   ".to_string()), ..TransactionSearchOptions::default() };
    assert!(!transaction_matches_search(&t, &q));
    let e = validate_transaction_search_options(&TransactionSearchOptions::default()).unwrap_err();
    assert_eq!(
        config_message(e),
        "transactions search requires at least one of query, payee, memo, account, or category"
    );

    let listing = obj(vec![
        ("transactions", Json::Array(vec![t, obj(vec![("memo", s("other"))])])),
        ("server_knowledge", Json::from_i64(77)),
    ]);
    let q = TransactionSearchOptions { payee: Some("amazon".to_string()), ..TransactionSearchOptions::default() };
    let result = search_result(&listing, &q);
    assert_eq!(result.get("transactions").unwrap().as_array().unwrap().len(), 1);
    assert_eq!(result.get("server_knowledge").unwrap().as_u64(), Some(77));
}

#[test]
fn names_resolve_ignoring_case_and_spacing() {
    let resources = vec![
        NamedResource { id: "a-1".to_string(), name: "Checking".to_string() },
        NamedResource { id: "a-2".to_string(), name: "Savings".to_string() },
        NamedResource { id: "a-3".to_string(), name: " savings ".to_string() },
    ];
    let id = resolve_named_resource(ResolveByNameKind::Account, "  checking ", resources.clone()).unwrap();
    assert_eq!(id, "a-1");
    match resolve_named_resource(ResolveByNameKind::Account, "SAVINGS", resources.clone()) {
        Err(YnabError::ResourceResolution { resource, matches, .. }) => {
            assert_eq!(resource, "account");
            assert_eq!(matches, vec!["a-2".to_string(), "a-3".to_string()]);
        }
        other => panic!("unexpected {other:?}"),
    }
    match resolve_named_resource(ResolveByNameKind::Payee, "none", resources) {
        Err(YnabError::ResourceResolution { matches, name, .. }) => {
            assert!(matches.is_empty());
            assert_eq!(name, "none");
        }
        other => panic!("unexpected {other:?}"),
    }
}

fn plan(id: &str, secs: Option<i64>) -> PlanSummary {
    PlanSummary {
        id: id.to_string(),
        name: id.to_string(),
        last_modified_on: secs.map(|s| Timestamp { secs: s, nanos: 0 }),
    }
}

#[test]
fn most_recent_plan_is_selected() {
    let data = PlansData {
        plans: vec![plan("older-plan", Some(1_735_689_600)), plan("newer-plan", Some(1_738_368_000))],
        default_plan: None,
        server_knowledge: None,
    };
    assert_eq!(select_most_recent_plan(&data).unwrap().id, "newer-plan");
    let data = PlansData {
        plans: vec![plan("b", None), plan("a", None)],
        default_plan: Some(plan("c", Some(1))),
        server_knowledge: None,
    };
    assert_eq!(select_most_recent_plan(&data).unwrap().id, "c");
    let data = PlansData { plans: vec![plan("b", Some(5)), plan("a", Some(5))], default_plan: None, server_knowledge: None };
    assert_eq!(select_most_recent_plan(&data).unwrap().id, "b");
    let data = PlansData { plans: vec![], default_plan: None, server_knowledge: None };
    assert!(select_most_recent_plan(&data).is_none());
}

#[test]
fn plan_argument_prefers_given_then_default() {
    let profile = ProfileConfig {
        base_url: "https://api.ynab.com/v1".to_string(),
        default_plan_id: Some("configured-plan".to_string()),
        oauth_app: None,
        pending_oauth: None,
    };
    assert_eq!(plan_argument_decision(Some("p".to_string()), Some(&profile)).unwrap().as_deref(), Some("p"));
    assert_eq!(plan_argument_decision(None, Some(&profile)).unwrap().as_deref(), Some("configured-plan"));
    assert_eq!(config_message(plan_argument_decision(None, None).unwrap_err()), "profile not found");
}

#[test]
fn query_and_token_responses() {
    let o = TransactionListOptions {
        since_date: Some("2026-04-01".to_string()),
        transaction_type: Some("unapproved".to_string()),
        ..TransactionListOptions::default()
    };
    assert_eq!(
        build_transaction_query(&o),
        vec![
            ("since_date".to_string(), "2026-04-01".to_string()),
            ("type".to_string(), "unapproved".to_string())
        ]
    );
    let payload = obj(vec![
        ("access_token", s("at")),
        ("token_type", s("bearer")),
        ("expires_in", Json::from_i64(7200)),
        ("scope", s("read-only")),
    ]);
    let grant = parse_token_response(&payload, false).unwrap();
    assert_eq!(grant.expires_in, 7200);
    assert_eq!(grant.refresh_token, None);
    let e = parse_token_response(&payload, true).unwrap_err();
    assert_eq!(config_message(e), "missing `refresh_token` in token response");
    let e = required_string(&payload, "id_token").unwrap_err();
    assert_eq!(config_message(e), "missing `id_token` in token response");
    let e = parse_token_response(&obj(vec![("access_token", s("a")), ("token_type", s("b"))]), false)
        .unwrap_err();
    assert_eq!(config_message(e), "missing expires_in in token response");
}

#[test]
fn error_responses_become_api_errors() {
    let body = obj(vec![(
        "error",
        obj(vec![("id", s("401")), ("name", s("unauthorized")), ("detail", s("Unauthorized"))]),
    )]);
    match response_result(401, body) {
        Err(YnabError::Api { status, id, name, .. }) => {
            assert_eq!(status, 401);
            assert_eq!(id, "401");
            assert_eq!(name, "unauthorized");
        }
        other => panic!("unexpected {other:?}"),
    }
    match response_result(502, Json::Null) {
        Err(YnabError::Api { id, name, detail, .. }) => {
            assert_eq!(id, "502");
            assert_eq!(name, "unknown_api_error");
            assert_eq!(detail, "API request failed");
        }
        other => panic!("unexpected {other:?}"),
    }
    assert_eq!(response_result(200, Json::Bool(true)).unwrap(), Json::Bool(true));
}

#[test]
fn stored_tokens_are_refreshed_when_due() {
    let now = Timestamp { secs: 1_000, nanos: 0 };
    let session = StoredSession::OAuth {
        access_token: "old".to_string(),
        refresh_token: "r".to_string(),
        expires_at: Timestamp { secs: 1_030, nanos: 0 },
        token_type: "bearer".to_string(),
        scope: None,
        client_id: "c".to_string(),
        client_secret: "s".to_string(),
        redirect_uri: "u".to_string(),
    };
    assert!(matches!(stored_token_step(Some(session), false, now), Ok(TokenStep::Refresh(_))));
    let pat = StoredSession::PersonalAccessToken { access_token: "pat".to_string() };
    match stored_token_step(Some(pat), true, now) {
        Ok(TokenStep::Use(t)) => assert_eq!(t, "pat"),
        other => panic!("unexpected {other:?}"),
    }
    assert!(matches!(stored_token_step(None, false, now), Err(YnabError::MissingCredentials)));
}

#[test]
fn auth_status_reports_env_token_override() {
    let input = AuthStatusInput {
        profile: "default".to_string(),
        base_url: "https://api.ynab.com/v1/".to_string(),
        default_plan_id: Some("configured-plan".to_string()),
        override_source: None,
        env_token_set: true,
        session: None,
        keyring_enabled: false,
        paths: AppPaths {
            root_dir: "/h".to_string(),
            config_file: "/h/config.json".to_string(),
            secrets_file: "/h/secrets.json".to_string(),
        },
    };
    let data = auth_status_data(&input);
    assert_eq!(data.get("auth_source").unwrap().as_str().unwrap(), "env");
    assert_eq!(data.get("auth_override_active").unwrap().as_bool(), Some(true));
    assert_eq!(data.get("stored_auth_kind").unwrap(), &Json::Null);
    assert_eq!(data.get("default_plan_id").unwrap().as_str().unwrap(), "configured-plan");
}

#[test]
fn start_oauth_builds_pkce_authorize_url() {
    let app = OAuthAppConfig {
        client_id: "client-id".to_string(),
        redirect_uri: "http://127.0.0.1:8765/callback".to_string(),
        scope: OAuthScope::ReadOnly,
    };
    let params = authorize_params(&app, "state-1", "challenge-1");
    let authorize_url = authorize_url(&params).unwrap();
    assert!(authorize_url.contains("response_type=code"));
    assert!(authorize_url.contains("code_challenge_method=S256"));
    assert!(authorize_url.contains("scope=read-only"));
    assert!(authorize_url.starts_with("https://app.ynab.com/oauth/authorize?client_id=client-id"));
}

#[test]
fn pending_exchanges_expire_after_an_hour() {
    let pending = PendingOAuth {
        state: "s".to_string(),
        code_verifier: "v".to_string(),
        authorize_url: "u".to_string(),
        created_at: Timestamp { secs: 10_000, nanos: 0 },
    };
    assert!(check_pending_exchange(&pending, Some("s"), Timestamp { secs: 13_599, nanos: 999_999_999 }).is_ok());
    let e = check_pending_exchange(&pending, None, Timestamp { secs: 13_600, nanos: 0 }).unwrap_err();
    assert_eq!(config_message(e), "pending OAuth state is stale; run `auth oauth start` again");
    let e = check_pending_exchange(&pending, Some("t"), Timestamp { secs: 10_001, nanos: 0 }).unwrap_err();
    assert_eq!(config_message(e), "OAuth state mismatch");
    assert!(!pending.is_recent());
    assert!(pending.is_recent_at(Timestamp { secs: 10_600, nanos: 0 }));
    let now = chrono::Utc::now();
    let fresh = PendingOAuth {
        created_at: Timestamp { secs: now.timestamp(), nanos: 0 },
        ..pending.clone()
    };
    assert!(fresh.is_recent());
}

#[test]
fn default_plan_errors_are_reported_as_text() {
    let (id, auto, err) = default_plan_auth_fields(Err(YnabError::MissingCredentials));
    assert_eq!(id, None);
    assert!(!auto);
    assert_eq!(err.as_deref(), Some("missing authentication. set a personal access token or complete OAuth setup"));
    let (id, auto, err) = default_plan_auth_fields(Ok((Some("p".to_string()), true)));
    assert_eq!(id.as_deref(), Some("p"));
    assert!(auto);
    assert_eq!(err, None);
}

#[test]
fn pending_exchanges_started_in_a_leap_second_follow_chrono() {
    let pending = PendingOAuth {
        state: "s".to_string(),
        code_verifier: "v".to_string(),
        authorize_url: "u".to_string(),
        created_at: Timestamp { secs: 10_019, nanos: 1_500_000_000 },
    };
    let created = chrono::DateTime::from_timestamp(10_019, 1_500_000_000).unwrap();
    for (secs, nanos) in [(13_619, 0), (13_619, 600_000_000), (13_620, 0), (13_618, 999_999_999), (10_020, 0)] {
        let now = chrono::DateTime::from_timestamp(secs, nanos).unwrap();
        let expected = (now - created).num_hours() < 1;
        assert_eq!(pending.is_recent_at(Timestamp { secs, nanos }), expected, "{secs}.{nanos}");
        assert_eq!(
            check_pending_exchange(&pending, None, Timestamp { secs, nanos }).is_ok(),
            expected
        );
    }
}

#[test]
fn chrono_instants_match_from_timestamp() {
    for (secs, nanos) in [
        (10_019i64, 1_500_000_000u32),
        (10_020, 1_500_000_000),
        (-1, 1_000_000_000),
        (-2, 1_000_000_000),
        (8_210_266_876_799, 0),
        (8_210_266_876_800, 0),
        (-8_334_601_228_800, 0),
        (-8_334_601_228_801, 0),
        (0, 2_000_000_000),
    ] {
        assert_eq!(
            is_chrono_instant(Timestamp { secs, nanos }),
            chrono::DateTime::from_timestamp(secs, nanos).is_some(),
            "{secs}.{nanos}"
        );
    }
}
