use omnihub_core::client::CloudApiError;
use omnihub_core::gist_vault::{
    bearer, create_gist_status_error, delete_gist_status_error, downloaded_gist_blob,
    find_vault_gist_id, get_gist_status, gist_url, gists_url, list_gists_status_error,
    update_gist_failure, upload_content, uploaded_gist_meta, vault_file_name, GithubGistVault,
};
use omnihub_core::oauth::OAuthTokens;

fn tokens() -> OAuthTokens {
    OAuthTokens {
        access_token: "tok".to_string(),
        refresh_token: None,
        token_type: "bearer".to_string(),
        expires_in: None,
        expires_at: None,
    }
}

#[test]
fn vault_state_builders() {
    let v = GithubGistVault::new("cid".to_string());
    assert_eq!(v.gist_id(), None);
    assert!(matches!(v.tokens(), Err(CloudApiError::NotAuthenticated)));
    match v.require_gist() {
        Err(CloudApiError::AuthenticationFailed(m)) => assert_eq!(m, "尚未初始化 Gist，请先完成 GitHub 授权"),
        _ => panic!("expected a refusal"),
    }
    assert!(v.listing_at(5).is_empty());
    assert!(!v.known_to_exist());
    let v = v.with_gist_id("g1".to_string()).with_tokens(tokens());
    assert_eq!(v.gist_id(), Some("g1"));
    assert_eq!(v.tokens().unwrap().access_token, "tok");
    assert_eq!(v.require_gist().unwrap(), "g1");
    assert!(v.known_to_exist());
    let listing = v.listing_at(5);
    assert_eq!(listing.len(), 1);
    assert_eq!((listing[0].key.as_str(), listing[0].size, listing[0].updated_at), ("vault", 0, 5));
    assert_eq!(v.backend_type(), "github_gist");
    let mut w = GithubGistVault::new("cid".to_string());
    w.set_gist_id("g2".to_string());
    assert_eq!(w.gist_id(), Some("g2"));
}

#[test]
fn gist_requests_and_replies() {
    assert_eq!(gists_url(), "https://api.github.com/gists");
    assert_eq!(gist_url("abc"), "https://api.github.com/gists/abc");
    assert_eq!(bearer(&tokens()), "Bearer tok");
    assert_eq!(vault_file_name(), "ONetCli-vault.json");
    assert!(list_gists_status_error(200).is_none());
    match list_gists_status_error(401) {
        Some(CloudApiError::ServerError(m)) => assert_eq!(m, "列出 gists 失败: HTTP 401"),
        _ => panic!("expected a server error"),
    }
    assert!(create_gist_status_error(201).is_none());
    match create_gist_status_error(422) {
        Some(CloudApiError::ServerError(m)) => assert_eq!(m, "创建 gist 失败: HTTP 422"),
        _ => panic!("expected a server error"),
    }
    assert_eq!(get_gist_status(404).unwrap(), false);
    assert_eq!(get_gist_status(200).unwrap(), true);
    match get_gist_status(500) {
        Err(CloudApiError::ServerError(m)) => assert_eq!(m, "获取 gist 失败: HTTP 500"),
        _ => panic!("expected a server error"),
    }
    match update_gist_failure(403, b"rate limited") {
        Some(CloudApiError::ServerError(m)) => assert_eq!(m, "更新 gist 失败: HTTP 403 - rate limited"),
        _ => panic!("expected a server error"),
    }
    assert!(update_gist_failure(200, b"").is_none());
    assert!(delete_gist_status_error(404).is_none());
    match delete_gist_status_error(500) {
        Some(CloudApiError::ServerError(m)) => assert_eq!(m, "删除 gist 失败: HTTP 500"),
        _ => panic!("expected a server error"),
    }
}

#[test]
fn vault_gist_is_the_first_holding_the_vault_file() {
    let gists = vec![
        ("a".to_string(), vec!["notes.md".to_string()]),
        ("b".to_string(), vec!["x".to_string(), "ONetCli-vault.json".to_string()]),
        ("c".to_string(), vec!["ONetCli-vault.json".to_string()]),
    ];
    assert_eq!(find_vault_gist_id(&gists), Some("b".to_string()));
    assert_eq!(find_vault_gist_id(&gists[..1].to_vec()), None);
}

#[test]
fn gist_uploads_and_downloads() {
    assert_eq!(upload_content(b"ENC:abc".to_vec()).unwrap(), "ENC:abc");
    match upload_content(vec![0xff, 0xfe]) {
        Err(CloudApiError::DataFormatError(m)) => assert_eq!(m, "加密数据不是有效的 UTF-8"),
        _ => panic!("expected a format error"),
    }
    let meta = uploaded_gist_meta("k", "中文", 3);
    assert_eq!((meta.key.as_str(), meta.size, meta.updated_at), ("k", 6, 3));
    let blob = downloaded_gist_blob("k", Some("data".to_string()), 4).unwrap();
    assert_eq!((blob.key.as_str(), blob.data.as_slice(), blob.updated_at), ("k", &b"data"[..], 4));
    match downloaded_gist_blob("k", None, 4) {
        Err(CloudApiError::NotFound(m)) => assert_eq!(m, "vault gist 不存在"),
        _ => panic!("expected not found"),
    }
}
