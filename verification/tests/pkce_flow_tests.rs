use omnihub_core::client::CloudApiError;
use omnihub_core::oauth::OAuthCallback;
use omnihub_core::pkce_flow::{
    accept_callback, authorization_url, oauth_state, oauth_state_at, redirect_port,
    token_request_body, token_request_failure, OAuthConfig,
};

fn config(secret: Option<&str>) -> OAuthConfig {
    OAuthConfig {
        auth_url: "https://accounts.google.com/o/oauth2/v2/auth".to_string(),
        token_url: "https://oauth2.googleapis.com/token".to_string(),
        client_id: "cid".to_string(),
        client_secret: secret.map(|s| s.to_string()),
        redirect_uri: "http://localhost:8787/callback".to_string(),
        scopes: "https://www.googleapis.com/auth/drive.file".to_string(),
    }
}

#[test]
fn authorization_url_encodes_each_value() {
    assert_eq!(
        authorization_url(&config(None), "ONetCli_1", "abc-_~.Z9"),
        "https://accounts.google.com/o/oauth2/v2/auth?client_id=cid&response_type=code\
         &redirect_uri=http%3A%2F%2Flocalhost%3A8787%2Fcallback\
         &scope=https%3A%2F%2Fwww.googleapis.com%2Fauth%2Fdrive.file\
         &state=ONetCli_1&code_challenge=abc-_~.Z9&code_challenge_method=S256"
    );
}

#[test]
fn token_body_adds_secret_only_when_present() {
    assert_eq!(
        token_request_body(&config(None), "c d", "v"),
        "grant_type=authorization_code&client_id=cid&code=c%20d\
         &redirect_uri=http%3A%2F%2Flocalhost%3A8787%2Fcallback&code_verifier=v"
    );
    assert_eq!(
        token_request_body(&config(Some("s+é")), "c", "v"),
        "grant_type=authorization_code&client_id=cid&code=c\
         &redirect_uri=http%3A%2F%2Flocalhost%3A8787%2Fcallback&code_verifier=v\
         &client_secret=s%2B%C3%A9"
    );
}

#[test]
fn redirect_port_reads_localhost_port_or_defaults() {
    assert_eq!(redirect_port("http://localhost:9000/callback"), 9000);
    assert_eq!(redirect_port("http://localhost:+80"), 80);
    assert_eq!(redirect_port("http://localhost:65535/x"), 65535);
    assert_eq!(redirect_port("http://localhost:65536/x"), 8787);
    assert_eq!(redirect_port("http://localhost:12a/x"), 8787);
    assert_eq!(redirect_port("http://localhost:/x"), 8787);
    assert_eq!(redirect_port("http://localhost:"), 8787);
    assert_eq!(redirect_port("https://example.com:9000/"), 8787);
}

#[test]
fn state_names_the_start_time() {
    assert_eq!(oauth_state_at(1_700_000_000_123), "ONetCli_1700000000123");
    assert!(oauth_state().starts_with("ONetCli_"));
}

fn callback(code: &str, state: Option<&str>, error: Option<&str>, desc: Option<&str>) -> OAuthCallback {
    OAuthCallback {
        code: code.to_string(),
        state: state.map(|s| s.to_string()),
        error: error.map(|s| s.to_string()),
        error_description: desc.map(|s| s.to_string()),
    }
}

#[test]
fn callback_checks() {
    assert_eq!(accept_callback(callback("abc", Some("st"), None, None), "st").unwrap(), "abc");
    match accept_callback(callback("", None, Some("access_denied"), Some("用户取消")), "st") {
        Err(CloudApiError::AuthenticationFailed(m)) => assert_eq!(m, "用户取消"),
        _ => panic!("expected a failed sign-in"),
    }
    match accept_callback(callback("", None, Some("access_denied"), None), "st") {
        Err(CloudApiError::AuthenticationFailed(m)) => assert_eq!(m, "授权失败"),
        _ => panic!("expected a failed sign-in"),
    }
    match accept_callback(callback("abc", Some("other"), None, None), "st") {
        Err(CloudApiError::AuthenticationFailed(m)) => assert_eq!(m, "State 不匹配"),
        _ => panic!("expected a state mismatch"),
    }
    match accept_callback(callback("abc", None, None, None), "st") {
        Err(CloudApiError::AuthenticationFailed(m)) => assert_eq!(m, "State 不匹配"),
        _ => panic!("expected a state mismatch"),
    }
}

#[test]
fn refused_token_request_quotes_the_reply() {
    match token_request_failure(b"{\"error\":\"invalid_grant\"}") {
        CloudApiError::ServerError(m) => assert_eq!(m, "Google token 请求失败: {\"error\":\"invalid_grant\"}"),
        _ => panic!("expected a server error"),
    }
}
