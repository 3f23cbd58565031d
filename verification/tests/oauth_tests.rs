use omnihub_core::oauth::{
    generate_code_challenge, generate_code_verifier, parse_callback_from_request, percent_decode,
    GithubTokenResponse, GoogleTokenResponse, OAuthCallback,
};

#[test]
fn test_callback_success() {
    let request = b"GET /?code=abc123&state=xyz HTTP/1.1\r\n\r\n";
    let cb = parse_callback_from_request(request);
    assert!(cb.is_success());
    assert_eq!(cb.code, "abc123");
    assert_eq!(cb.state.as_deref(), Some("xyz"));
}

#[test]
fn test_callback_error() {
    let request = b"GET /?error=access_denied&error_description=user+denied HTTP/1.1\r\n\r\n";
    let cb = parse_callback_from_request(request);
    assert!(!cb.is_success());
    assert_eq!(cb.error.as_deref(), Some("access_denied"));
    assert_eq!(cb.error_description.as_deref(), Some("user denied"));
}

#[test]
fn test_percent_decode() {
    assert_eq!(percent_decode("hello%20world"), "hello world");
    assert_eq!(percent_decode("a%2Fb%2Bc"), "a/b+c");
    assert_eq!(percent_decode("%%"), "%%");
}

#[test]
fn callback_without_query_is_missing_params() {
    let cb = parse_callback_from_request(b"GET / HTTP/1.1\r\n\r\n");
    assert_eq!(cb.error.as_deref(), Some("missing_params"));
    assert!(!cb.is_success());
}

#[test]
fn callback_without_code_is_missing_code() {
    let cb = parse_callback_from_request(b"GET /?state=s HTTP/1.1\r\n\r\n");
    assert_eq!(cb.error.as_deref(), Some("missing_code"));
    assert!(cb.state.is_none());
}

#[test]
fn percent_decode_keeps_bad_escapes_and_maps_plus() {
    assert_eq!(percent_decode("a+b"), "a b");
    assert_eq!(percent_decode("%zz1"), "%zz1");
    assert_eq!(percent_decode("%4"), "%4");
}

#[test]
fn oauth_callback_error_has_no_code() {
    let cb = OAuthCallback::error("e", "d");
    assert!(!cb.is_success());
    assert_eq!(cb.error_description.as_deref(), Some("d"));
}

#[test]
fn test_code_verifier_length() {
    for _ in 0..100 {
        let v = generate_code_verifier();
        assert!(v.len() >= 43);
        assert!(v.len() <= 128);
    }
}

#[test]
fn test_code_verifier_valid_chars() {
    let v = generate_code_verifier();
    for c in v.chars() {
        assert!(c.is_ascii_alphanumeric() || c == '-' || c == '.' || c == '_' || c == '~');
    }
}

#[test]
fn test_code_challenge_consistent() {
    let verifier = "test_verifier_string_12345678901234567890123456789012345";
    assert_eq!(generate_code_challenge(verifier), generate_code_challenge(verifier));
}

#[test]
fn test_code_challenge_different_for_different_verifiers() {
    let c1 = generate_code_challenge("verifier_one_1234567890123456789012345678901234567");
    let c2 = generate_code_challenge("verifier_two_1234567890123456789012345678901234568");
    assert_ne!(c1, c2);
}

#[test]
fn code_challenge_matches_rfc7636_example() {
    assert_eq!(
        generate_code_challenge("dBjftJeZ4CVP-mB92K27uhbUJU1p1r_wW1gFWFOEjXk"),
        "E9Melhoa2OwvFrEMTJguCHaoeK1t8URWbuGJSstw-cM"
    );
}

#[test]
fn github_tokens_have_no_lifetime() {
    let t = GithubTokenResponse {
        access_token: "a".to_string(),
        token_type: "bearer".to_string(),
        scope: "gist".to_string(),
        refresh_token: None,
    }
    .into_tokens();
    assert_eq!(t.access_token, "a");
    assert!(t.expires_in.is_none() && t.expires_at.is_none());
}

#[test]
fn google_tokens_expire_after_their_lifetime() {
    let t = GoogleTokenResponse {
        access_token: "a".to_string(),
        refresh_token: Some("r".to_string()),
        expires_in: 3600,
        token_type: "Bearer".to_string(),
        id_token: None,
    }
    .into_tokens_at(1_000);
    assert_eq!(t.expires_in, Some(3600));
    assert_eq!(t.expires_at, Some(4_600));
}

#[test]
fn callback_ports_stay_in_their_range() {
    assert_eq!(omnihub_core::oauth::callback_port_for(0), 15000);
    assert_eq!(omnihub_core::oauth::callback_port_for(49999), 64999);
    assert_eq!(omnihub_core::oauth::callback_port_for(50000), 15000);
    assert_eq!(omnihub_core::oauth::callback_port_for(65535), 30535);
    for _ in 0..100 {
        let p = omnihub_core::oauth::random_callback_port();
        assert!((15000..65000).contains(&p));
    }
}
