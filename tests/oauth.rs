use lastsignal::oauth::{needs_refresh, TokenError, WhoopOAuth, WhoopTokens};
use lastsignal::timestamp::Timestamp;

#[test]
fn test_whoop_oauth_initialization() {
    let oauth_client = WhoopOAuth::new(
        "test_client_id".to_string(),
        "test_client_secret".to_string(),
        "http://localhost:3000/callback".to_string(),
        "/tmp/data".to_string(),
    );

    assert_eq!(oauth_client.client_id, "test_client_id");
    assert_eq!(oauth_client.client_secret, "test_client_secret");
    assert_eq!(oauth_client.redirect_uri, "http://localhost:3000/callback");
}

#[test]
fn test_authorization_url_generation() {
    let oauth_client = WhoopOAuth::new(
        "test_client_id".to_string(),
        "test_client_secret".to_string(),
        "http://localhost:3000/callback".to_string(),
        "/tmp/data".to_string(),
    );

    let auth_url = oauth_client.get_authorization_url();

    assert!(auth_url.contains("https://api.prod.whoop.com/oauth/oauth2/auth"));
    assert!(auth_url.contains("client_id=test_client_id"));
    assert!(auth_url.contains("redirect_uri=http%3A%2F%2Flocalhost%3A3000%2Fcallback"));
    assert!(auth_url.contains("response_type=code"));
    assert!(auth_url.contains("read%3Acycles"));
    assert!(auth_url.contains("read%3Asleep"));
    assert!(auth_url.contains("read%3Arecovery"));
    assert!(auth_url.contains("offline"));
    assert!(auth_url.contains("state=lastsignal_auth"));
}

#[test]
fn authorization_url_exact_text() {
    let oauth_client = WhoopOAuth::new("id".to_string(), "s".to_string(), "a b".to_string(), "/d".to_string());
    assert_eq!(
        oauth_client.get_authorization_url(),
        "https://api.prod.whoop.com/oauth/oauth2/auth?response_type=code&client_id=id&redirect_uri=a%20b&scope=read%3Acycles%20read%3Asleep%20read%3Arecovery%20read%3Aprofile%20offline&state=lastsignal_auth"
    );
}

#[test]
fn token_responses_and_refresh_margin() {
    let now = Timestamp::from_micros(1_000_000_000);
    let tokens: WhoopTokens = WhoopOAuth::tokens_from_response(
        "a".to_string(),
        "r".to_string(),
        3600,
        "Bearer".to_string(),
        now,
        true,
    )
    .unwrap();
    assert_eq!(tokens.expires_at, Timestamp::from_micros(1_000_000_000 + 3_600_000_000));
    assert_eq!(tokens.token_type, "Bearer");
    assert!(matches!(
        WhoopOAuth::tokens_from_response("a".to_string(), String::new(), 1, "Bearer".to_string(), now, true),
        Err(TokenError::NoRefreshToken)
    ));
    assert!(WhoopOAuth::tokens_from_response("a".to_string(), String::new(), 1, "Bearer".to_string(), now, false).is_ok());
    assert!(matches!(
        WhoopOAuth::tokens_from_response("a".to_string(), "r".to_string(), u64::MAX, "Bearer".to_string(), now, true),
        Err(TokenError::ExpiryOutOfRange)
    ));
    let five_min = 5 * 60 * 1_000_000;
    assert!(needs_refresh(Timestamp::from_micros(now.micros + five_min), now, 5));
    assert!(!needs_refresh(Timestamp::from_micros(now.micros + five_min + 1), now, 5));
    assert!(needs_refresh(Timestamp::from_micros(now.micros + five_min + 1), now, 35));
}
