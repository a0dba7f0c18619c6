use ynab_agent::error::YnabError;
use ynab_agent::models::{AmountMilliunits, OAuthScope, StoredSession, Timestamp};

#[test]
fn parses_whole_and_fractional_amounts() {
    assert_eq!(AmountMilliunits::parse("1").unwrap().0, 1000);
    assert_eq!(AmountMilliunits::parse("1.2").unwrap().0, 1200);
    assert_eq!(AmountMilliunits::parse("1.23").unwrap().0, 1230);
    assert_eq!(AmountMilliunits::parse("1.234").unwrap().0, 1234);
    assert_eq!(AmountMilliunits::parse("-0.001").unwrap().0, -1);
}

#[test]
fn rejects_more_than_three_decimals() {
    assert!(AmountMilliunits::parse("1.2345").is_err());
}

fn amount_error(input: &str) -> String {
    match AmountMilliunits::parse(input) {
        Err(YnabError::InvalidAmount(m)) => m,
        other => panic!("unexpected outcome {other:?}"),
    }
}

#[test]
fn amount_errors_name_their_cause() {
    assert_eq!(amount_error("   "), "amount cannot be empty");
    assert_eq!(amount_error("1.2.3"), "amount must have at most one decimal point");
    assert_eq!(amount_error("abc"), "invalid whole amount: abc");
    assert_eq!(amount_error("1.2345"), "amount must have at most three decimal places");
    assert_eq!(amount_error("1.x"), "invalid fractional amount: 1.x");
    assert_eq!(amount_error("9223372036854776"), "amount overflow");
}

#[test]
fn amounts_accept_signs_and_surrounding_space() {
    assert_eq!(AmountMilliunits::parse(" +12.5 ").unwrap().0, 12500);
    assert_eq!(AmountMilliunits::parse("-125").unwrap().0, -125000);
    assert_eq!(AmountMilliunits::parse("0").unwrap().0, 0);
}

#[test]
fn amount_sign_negates_the_value() {
    for text in ["0.5", "12", "7.125", "1000.01", "3 ", "4.5\t\n"] {
        let positive = AmountMilliunits::parse(text).unwrap().0;
        let negative = AmountMilliunits::parse(&format!("-{text}")).unwrap().0;
        assert_eq!(negative, -positive);
        assert_eq!(AmountMilliunits::parse(&format!("+{text}")).unwrap().0, positive);
    }
    assert!(AmountMilliunits::parse("-1.2345").is_err());
}

#[test]
fn scope_read_only_is_sent_and_full_access_is_not() {
    assert_eq!(OAuthScope::ReadOnly.as_api_scope(), Some("read-only"));
    assert_eq!(OAuthScope::FullAccess.as_api_scope(), None);
}

fn oauth_session(expires_at: Timestamp) -> StoredSession {
    StoredSession::OAuth {
        access_token: "access".to_string(),
        refresh_token: "refresh".to_string(),
        expires_at,
        token_type: "bearer".to_string(),
        scope: None,
        client_id: "client".to_string(),
        client_secret: "secret".to_string(),
        redirect_uri: "http://127.0.0.1:8765/callback".to_string(),
    }
}

#[test]
fn sessions_refresh_within_a_minute_of_expiry() {
    let now = Timestamp { secs: 1_000, nanos: 0 };
    assert!(oauth_session(Timestamp { secs: 1_060, nanos: 0 }).needs_refresh_at(now));
    assert!(!oauth_session(Timestamp { secs: 1_061, nanos: 0 }).needs_refresh_at(now));
    let pat = StoredSession::PersonalAccessToken { access_token: "t".to_string() };
    assert!(!pat.needs_refresh_at(now));
    assert_eq!(pat.bearer_token(), "t");
    assert!(!pat.is_oauth());
    assert!(oauth_session(Timestamp { secs: 0, nanos: 0 }).is_oauth());
}

#[test]
fn expiry_is_counted_from_now() {
    let now = Timestamp { secs: 1_700_000_000, nanos: 5 };
    assert!(ynab_agent::models::expiry_fits(now, 3600));
    let at = ynab_agent::models::expires_at_after(now, 3600);
    assert_eq!(at, Timestamp { secs: 1_700_003_600, nanos: 5 });
    assert!(!ynab_agent::models::expiry_fits(now, i64::MAX));
}

#[test]
fn sessions_refresh_against_the_clock() {
    let long_ago = Timestamp { secs: 0, nanos: 0 };
    assert!(oauth_session(long_ago).needs_refresh());
    let far_ahead = Timestamp { secs: 4_000_000_000, nanos: 0 };
    assert!(!oauth_session(far_ahead).needs_refresh());
    let pat = StoredSession::PersonalAccessToken { access_token: "t".to_string() };
    assert!(!pat.needs_refresh());
}
