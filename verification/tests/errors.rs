use ynab_agent::error::YnabError;
use ynab_agent::json::{Json, JsonMap};

#[test]
fn error_messages_and_codes() {
    let e = YnabError::Config("bad".to_string());
    assert_eq!(e.message(), "configuration error: bad");
    let env = e.to_cli_envelope();
    assert!(!env.ok);
    assert_eq!(env.error.code, "config_error");
    assert_eq!(env.error.status, None);

    let missing = YnabError::MissingCredentials.to_cli_envelope();
    assert_eq!(missing.error.code, "missing_credentials");
    assert_eq!(missing.error.status, Some(401));

    let amount = YnabError::InvalidAmount("x".to_string()).to_cli_envelope();
    assert_eq!(amount.error.message, "invalid amount: x");
    assert_eq!(amount.error.status, Some(400));
}

#[test]
fn resolution_errors_carry_the_matches() {
    let e = YnabError::ResourceResolution {
        resource: "account",
        name: "Checking".to_string(),
        matches: vec!["a-1".to_string(), "a-2".to_string()],
    };
    let env = e.to_cli_envelope();
    assert_eq!(env.error.code, "resource_resolution_error");
    assert_eq!(env.error.message, "resource resolution failed for account: Checking");
    let details = env.error.details.unwrap();
    let matches = details.get("matches").unwrap().as_array().unwrap();
    assert_eq!(matches.len(), 2);
    assert_eq!(matches[1].as_str().unwrap(), "a-2");
    assert_eq!(details.get("resource").unwrap().as_str().unwrap(), "account");
}

#[test]
fn api_errors_use_the_api_id_as_code() {
    let mut body = JsonMap::new();
    body.insert("error".to_string(), Json::Null);
    let e = YnabError::Api {
        status: 404,
        id: "404.2".to_string(),
        name: "resource_not_found".to_string(),
        detail: "Resource not found".to_string(),
        body: Json::Object(body),
    };
    assert_eq!(e.message(), "API error 404: resource_not_found (Resource not found)");
    let env = e.to_cli_envelope();
    assert_eq!(env.error.code, "api_404.2");
    assert_eq!(env.error.status, Some(404));
    let details = env.error.details.unwrap();
    assert_eq!(details.get("api_name").unwrap().as_str().unwrap(), "resource_not_found");
    assert!(details.get("raw").unwrap().get("error").is_some());
}
