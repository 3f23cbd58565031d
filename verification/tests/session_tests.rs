use omnihub_core::chat::extract_session_name;
use omnihub_core::client::CloudApiError;
use omnihub_core::endpoints::SyncServerConfig;
use omnihub_core::security::PermissionMode;
use omnihub_core::session_auth::{
    extract_error_message, map_auth_response, map_user_config, map_user_info, parse_rfc3339_to_millis,
    parse_rfc3339_to_seconds, refresh_failure_ends_session, unauthorized_step, SyncServerClient, UnauthorizedStep,
};
use omnihub_core::thinking::{to_hex_text, uuid_like};

#[test]
fn rfc3339_times_parse_to_seconds_and_millis() {
    assert_eq!(parse_rfc3339_to_seconds("1970-01-01T00:01:00Z"), 60);
    assert_eq!(parse_rfc3339_to_millis("1970-01-01T00:00:01.500Z"), 1500);
    assert_eq!(parse_rfc3339_to_seconds("not a time"), 0);
}

#[test]
fn server_records_map_to_library_records() {
    let u = map_user_info("id".to_string(), "a@b.c".to_string(), Some("  ".to_string()), "1970-01-01T00:00:10Z");
    assert!(u.nickname.is_none());
    assert_eq!(u.created_at, 10);
    let a = map_auth_response("id".to_string(), "a@b.c".to_string(), "t".to_string(), "r".to_string(), "bad");
    assert_eq!(a.expires_at, 0);
    let c = map_user_config("v".to_string(), 3, "1970-01-01T00:00:02Z", "id".to_string());
    assert_eq!(c.updated_at, 2000);
    assert_eq!(c.key_version, 3);
}

#[test]
fn error_messages_prefer_the_servers_own() {
    assert_eq!(extract_error_message(None, None, "默认"), "默认");
    assert_eq!(extract_error_message(Some("{}".to_string()), Some("server says".to_string()), "默认"), "server says");
    assert_eq!(extract_error_message(Some("  ".to_string()), None, "默认"), "默认");
    assert_eq!(extract_error_message(Some("raw body".to_string()), None, "默认"), "raw body");
}

#[test]
fn unauthorized_replies_refresh_once() {
    assert_eq!(unauthorized_step(200, false), UnauthorizedStep::Accept);
    assert_eq!(unauthorized_step(401, false), UnauthorizedStep::RefreshAndRetry);
    assert_eq!(unauthorized_step(401, true), UnauthorizedStep::SessionExpired);
    assert!(refresh_failure_ends_session(&CloudApiError::NotAuthenticated));
    assert!(!refresh_failure_ends_session(&CloudApiError::NetworkError("x".to_string())));
}

#[test]
fn client_holds_and_forgets_a_session() {
    let mut c = SyncServerClient::new(SyncServerConfig { base_url: "http://127.0.0.1:8787".to_string() });
    assert!(matches!(c.auth_headers(), Err(CloudApiError::NotAuthenticated)));
    assert!(c.get_access_token().is_none());
    c.set_auth_with_expiry("tok".to_string(), "ref".to_string(), "u".to_string(), 1000);
    let headers = c.auth_headers().unwrap();
    assert_eq!(
        headers,
        vec![("Content-Type", "application/json".to_string()), ("Authorization", "Bearer tok".to_string())]
    );
    assert_eq!(c.common_headers(), vec![("Content-Type", "application/json".to_string())]);
    assert_eq!(c.get_access_token().as_deref(), Some("tok"));
    assert_eq!(c.get_refresh_token().as_deref(), Some("ref"));
    assert_eq!(c.get_user_id().as_deref(), Some("u"));
    assert!(c.is_token_expiring_soon_at(950));
    assert!(!c.is_token_expiring_soon_at(900));
    c.clear_auth();
    assert!(c.get_access_token().is_none());
    assert!(c.get_refresh_token().is_none());
    assert!(c.get_user_id().is_none());
    assert!(!c.is_token_expiring_soon_at(0));
    assert_eq!(c.base_url(), "http://127.0.0.1:8787");
}

#[test]
fn session_titles_drop_mentions() {
    assert_eq!(extract_session_name("Hi @bot there", "New Chat"), "Hi there");
}

#[test]
fn permission_mode_names_ignore_case() {
    assert_eq!(PermissionMode::from_str("OBSERVER"), PermissionMode::Observer);
    assert_eq!(PermissionMode::from_str("Autonomous"), PermissionMode::Autonomous);
    for m in [PermissionMode::Confirm, PermissionMode::Observer, PermissionMode::Autonomous] {
        assert_eq!(PermissionMode::from_str(m.as_str()), m);
    }
    assert_eq!(PermissionMode::from_str(""), PermissionMode::Confirm);
    assert_eq!(PermissionMode::from_str("confirm!"), PermissionMode::Confirm);
}

#[test]
fn hex_ids() {
    assert_eq!(to_hex_text(0), "0");
    assert_eq!(to_hex_text(255), "ff");
    assert_eq!(to_hex_text(4096), "1000");
    let id = uuid_like();
    assert!(!id.is_empty());
    assert!(u128::from_str_radix(&id, 16).is_ok());
}
