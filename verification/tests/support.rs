use ynab_agent::config::{AppConfig, AppPaths, ConfigManager, ProfileConfig};
use ynab_agent::error::YnabError;
use ynab_agent::json::{Json, JsonMap};
use ynab_agent::mcp_types::{
    normalize_iso_date, parse_amount, parse_date, AccountCreateParams, AccountTypeParam, CategoryUpdateParams,
    ScheduledFrequencyParam, ScheduledTransactionUpdateParams, TransactionsListParams,
};
use ynab_agent::models::{StoredSession, TransactionClearedFilter};
use ynab_agent::secrets::{FileChange, FileSecrets, SecretBackend, SecretRequest, SecretStore};
use ynab_agent::web::{api_request_url, code_challenge, normalize_base_url};

fn paths() -> AppPaths {
    AppPaths {
        root_dir: "/h".to_string(),
        config_file: "/h/config.json".to_string(),
        secrets_file: "/h/secrets.json".to_string(),
    }
}

#[test]
fn normalize_base_url_preserves_v1_path() {
    let url = normalize_base_url("https://api.ynab.com/v1").unwrap();
    assert_eq!(url, "https://api.ynab.com/v1/");
    assert_eq!(
        api_request_url(&url, "plans", None, &vec![]).unwrap(),
        "https://api.ynab.com/v1/plans"
    );
}

#[test]
fn request_urls_carry_knowledge_then_query() {
    let url = api_request_url(
        "https://api.ynab.com/v1/",
        "//plans/p/transactions",
        Some(77),
        &vec![("type".to_string(), "unapproved".to_string())],
    )
    .unwrap();
    assert_eq!(
        url,
        "https://api.ynab.com/v1/plans/p/transactions?last_knowledge_of_server=77&type=unapproved"
    );
}

#[test]
fn pkce_challenge_is_base64url_of_sha256() {
    assert_eq!(code_challenge("abc"), "ungWv48Bz-pBQUDeXa4iI7ADYaOWF3qctBD_YfIAFa0");
    let random = ynab_agent::web::random_url_safe_bytes(24);
    assert_eq!(random.len(), 32);
}

#[test]
fn loads_default_config_in_custom_home() {
    let custom = AppPaths::discover(Some("/tmp/custom-home".to_string()), None).unwrap();
    let manager = ConfigManager::from_loaded(custom, AppConfig::new_default());
    assert_eq!(manager.current_profile_name(), "default");
    assert_eq!(manager.paths_ref().config_file, "/tmp/custom-home/config.json");
    assert_eq!(manager.profile("default").unwrap().base_url, "https://api.ynab.com/v1");
}

#[test]
fn current_profile_is_created_on_switch() {
    let mut manager = ConfigManager::from_loaded(paths(), AppConfig::new_default());
    assert!(manager.profile("work").is_none());
    manager.set_current_profile("work");
    assert_eq!(manager.current_profile_name(), "work");
    assert!(manager.profile("work").is_some());
    let mut p = manager.profile("work").unwrap().copy();
    p.default_plan_id = Some("plan-9".to_string());
    manager.update_profile("work", p).unwrap();
    assert_eq!(manager.profile("work").unwrap().default_plan_id.as_deref(), Some("plan-9"));
    let p = ProfileConfig::new_default();
    match manager.update_profile("nobody", p) {
        Err(ynab_agent::error::YnabError::Config(m)) => assert_eq!(m, "profile not found: nobody"),
        other => panic!("unexpected {other:?}"),
    }
}

#[test]
fn secret_store_routes_operations() {
    let store = SecretStore::new(paths(), true);
    assert!(store.uses_keyring());
    match store.clear_session("default") {
        SecretRequest::KeyringDelete { account } => assert_eq!(account, "default:session"),
        other => panic!("unexpected {other:?}"),
    }
    let store = SecretStore::new(paths(), false);
    assert_eq!(store.backend_kind(), SecretBackend::File);
    match store.save_oauth_client_secret("default", "shh") {
        SecretRequest::FileWrite { profile, change: FileChange::SetOAuthClientSecret(s) } => {
            assert_eq!(profile, "default");
            assert_eq!(s, "shh");
        }
        other => panic!("unexpected {other:?}"),
    }
}

#[test]
fn secrets_file_reads_back_what_was_written() {
    let mut file = FileSecrets::new();
    file.apply("default", FileChange::SetOAuthClientSecret("shh".to_string()));
    file.apply(
        "default",
        FileChange::SetSession(StoredSession::PersonalAccessToken { access_token: "t".to_string() }),
    );
    assert_eq!(file.oauth_client_secret("default").as_deref(), Some("shh"));
    assert!(file.session("default").is_some());
    file.apply("default", FileChange::ClearSession);
    assert!(file.session("default").is_none());
    assert_eq!(file.oauth_client_secret("default").as_deref(), Some("shh"));
    assert!(file.session("other").is_none());
}

#[test]
fn mcp_parameters_become_requests() {
    assert_eq!(parse_amount("1.5").unwrap().0, 1500);
    assert_eq!(parse_amount("x").unwrap_err(), "invalid amount: invalid whole amount: x");
    assert_eq!(normalize_iso_date(" 2026-04-01 ").unwrap(), "2026-04-01");
    assert_eq!(normalize_iso_date("2026-13-01").unwrap_err(), "invalid date `2026-13-01`. use YYYY-MM-DD");
    let date = parse_date("2026-04-01").unwrap();
    assert_eq!((date.year, date.month, date.day), (2026, 4, 1));
    assert_eq!(parse_date("04/01/2026").unwrap_err(), "invalid date `04/01/2026`. use YYYY-MM-DD");

    let params = AccountCreateParams {
        plan_id: None,
        name: "Checking".to_string(),
        account_type: AccountTypeParam::CreditCard,
        balance: "1000".to_string(),
        cleared_balance: None,
        uncleared_balance: Some("2".to_string()),
        transfer_payee_id: None,
        note: None,
        on_budget: Some(true),
        closed: None,
    };
    let payload = params.to_payload().unwrap();
    assert_eq!(payload.get("type").unwrap().as_str().unwrap(), "creditCard");
    assert_eq!(payload.get("balance").unwrap().as_i64(), Some(1_000_000));
    assert_eq!(payload.get("uncleared_balance").unwrap().as_i64(), Some(2000));
    assert_eq!(payload.get("on_budget").unwrap().as_bool(), Some(true));
    assert!(payload.get("closed").is_none());

    let update = CategoryUpdateParams {
        plan_id: None,
        category_id: "c".to_string(),
        name: None,
        group_id: None,
        note: None,
        goal_target: None,
        goal_target_date: None,
        goal_needs_whole_amount: None,
    };
    assert_eq!(update.to_save_category().unwrap_err(), "categories update requires at least one field to change");

    let list = TransactionsListParams {
        plan_id: None,
        last_knowledge_of_server: Some(3),
        month: None,
        since_date: None,
        transaction_type: None,
        start_date: Some("2026-04-01".to_string()),
        end_date: None,
        cleared_filter: Some(ynab_agent::mcp_types::ClearedFilterParam::Cleared),
    };
    let o = list.to_options().unwrap();
    assert_eq!(o.start_date.unwrap().month, 4);
    assert_eq!(o.cleared_filter, Some(TransactionClearedFilter::Cleared));
    let bad = TransactionsListParams { start_date: Some("soon".to_string()), ..list };
    assert!(bad.to_options().unwrap_err().starts_with("invalid date soon: "));

    let sched = ScheduledTransactionUpdateParams {
        plan_id: None,
        scheduled_transaction_id: "s".to_string(),
        account_id: None,
        account_name: None,
        date: None,
        amount: None,
        payee_id: None,
        payee_name: None,
        category_id: None,
        category_name: None,
        memo: None,
        flag_color: None,
        frequency: None,
    };
    assert_eq!(
        sched.to_payload(&None, &None, &None).unwrap_err(),
        "scheduled-transactions update requires at least one field to change"
    );
    let sched = ScheduledTransactionUpdateParams { frequency: Some(ScheduledFrequencyParam::Every4Weeks), ..sched };
    let body = sched.to_payload(&None, &None, &None).unwrap();
    assert_eq!(body.get("frequency").unwrap().as_str().unwrap(), "every4Weeks");
}

#[test]
fn json_objects_read_back_what_was_stored() {
    let mut m = JsonMap::new();
    m.insert("b".to_string(), Json::from_i64(1));
    m.insert("a".to_string(), Json::Bool(true));
    m.insert("b".to_string(), Json::from_i64(2));
    assert_eq!(m.len(), 2);
    assert_eq!(m.get("b"), Some(&Json::from_i64(2)));
    assert_eq!(m.get("a"), Some(&Json::Bool(true)));
    assert_eq!(m.get("c"), None);
    assert_eq!(m.entry(0).0, "a");
}

#[test]
fn runtime_paths_follow_the_override_then_the_home() {
    let paths = AppPaths::discover(Some("/tmp/rt".to_string()), Some("/home/u".to_string())).unwrap();
    assert_eq!(paths.root_dir, "/tmp/rt");
    assert_eq!(paths.config_file, "/tmp/rt/config.json");
    assert_eq!(paths.secrets_file, "/tmp/rt/secrets.json");
    let paths = AppPaths::discover(None, Some("/home/u".to_string())).unwrap();
    assert_eq!(paths.root_dir, "/home/u/.ynab-agent-cli");
    assert_eq!(paths.config_file, "/home/u/.ynab-agent-cli/config.json");
    match AppPaths::discover(None, None) {
        Err(YnabError::Config(m)) => assert_eq!(m, "unable to determine home directory"),
        other => panic!("unexpected outcome {other:?}"),
    }
}

#[test]
fn urls_are_normalized_and_query_values_encoded() {
    assert_eq!(normalize_base_url(" HTTPS://API.YNAB.com/v1 ").unwrap(), "https://api.ynab.com/v1/");
    assert!(matches!(normalize_base_url("not a url"), Err(ynab_agent::error::YnabError::Url(_))));
    let url = api_request_url(
        "https://api.ynab.com/v1/",
        "plans",
        None,
        &vec![("q".to_string(), "a b&c".to_string())],
    )
    .unwrap();
    assert_eq!(url, "https://api.ynab.com/v1/plans?q=a+b%26c");
}

#[test]
fn normalized_dates_normalize_to_themselves() {
    for input in [" 2026-04-01 ", "0042-01-05", "2024-02-29", "9999-12-31", "+10000-01-01", "-0001-03-01"] {
        let once = normalize_iso_date(input).unwrap();
        assert_eq!(normalize_iso_date(&once).unwrap(), once);
    }
    assert_eq!(normalize_iso_date("0042-01-05").unwrap(), "0042-01-05");
    assert_eq!(normalize_iso_date("+10000-1-2").unwrap(), "+10000-01-02");
    assert_eq!(normalize_iso_date("-1-03-01").unwrap(), "-0001-03-01");
}

#[test]
fn pkce_start_uses_fresh_values_of_the_fixed_lengths() {
    let a = ynab_agent::web::pkce_start();
    let b = ynab_agent::web::pkce_start();
    assert_eq!(a.state.len(), 32);
    assert_eq!(a.code_verifier.len(), 64);
    assert_eq!(a.code_challenge, code_challenge(&a.code_verifier));
    assert_eq!(a.code_challenge.len(), 43);
    assert_ne!(a.code_verifier, b.code_verifier);
}

#[test]
fn access_token_override_wins_over_environment_and_session() {
    let flag = "override-token".to_string();
    assert_eq!(
        ynab_agent::app::preset_access_token(Some(&flag), Some("env-token".to_string())),
        Some("override-token".to_string())
    );
    assert_eq!(ynab_agent::app::preset_access_token(None, Some("env-token".to_string())), Some("env-token".to_string()));
    assert_eq!(ynab_agent::app::preset_access_token(None, None), None);
}
