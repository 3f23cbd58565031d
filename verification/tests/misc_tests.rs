use omnihub_core::client::{CloudApiError, UserInfo};
use omnihub_core::connection::{
    legacy_terminal_title, restore_payload_is_valid, set_connection_active, ActiveConnections,
    ConnectionRestoreKind,
};
use omnihub_core::endpoints::{
    api_url, create_backend, is_token_expiring_soon, BackendChoice, BlobVaultBackend, SyncServerBackend, WebDavAuth, WebDavConfig,
};
use omnihub_core::endpoints::SyncServerConfig;
use omnihub_core::models::{CloudSyncData, ConnectionType};
use omnihub_core::session_auth::SyncServerClient;
use omnihub_core::queue::{OperationQueue, SyncOperation};
use omnihub_core::service::{calculate_blob_checksum, workspace_from_cloud, CloudSyncService, CloudUserConfig};
use omnihub_core::crypto::generate_key_verification_v3;
use omnihub_core::sync_plan::SyncError;

fn user(nickname: Option<&str>, username: Option<&str>, email: &str) -> UserInfo {
    UserInfo {
        id: "u".to_string(),
        email: email.to_string(),
        nickname: nickname.map(|s| s.to_string()),
        username: username.map(|s| s.to_string()),
        avatar_url: None,
        created_at: 0,
    }
}

#[test]
fn auth_errors_are_recognised() {
    assert!(CloudApiError::NotAuthenticated.is_auth_error());
    assert!(CloudApiError::AuthenticationFailed("x".to_string()).is_auth_error());
    assert!(!CloudApiError::NetworkError("x".to_string()).is_auth_error());
    assert_eq!(CloudApiError::NotFound("k".to_string()).message(), "资源未找到: k");
}

#[test]
fn display_name_prefers_nickname_then_username_then_mailbox() {
    assert_eq!(user(Some("  Nick "), Some("name"), "a@b.c").display_name(), "Nick");
    assert_eq!(user(Some("   "), Some("name"), "a@b.c").display_name(), "name");
    assert_eq!(user(None, None, "alice@example.com").display_name(), "alice");
    assert_eq!(user(None, None, "plain").display_name(), "plain");
}

#[test]
fn secondary_identity_is_the_email_unless_shown() {
    assert_eq!(user(Some("Nick"), None, "a@b.c").secondary_identity().as_deref(), Some("a@b.c"));
    assert!(user(None, None, "plain").secondary_identity().is_none());
}

#[test]
fn active_connections_track_ids() {
    let mut active = ActiveConnections::new();
    set_connection_active(Some(5), true, &mut active);
    set_connection_active(None, true, &mut active);
    assert!(active.is_active(5));
    assert_eq!(active.active_count(), 1);
    set_connection_active(Some(5), false, &mut active);
    assert!(!active.is_active(5));
    assert_eq!(active.active_count(), 0);
}

#[test]
fn adding_an_open_id_twice_counts_once() {
    let mut active = ActiveConnections::new();
    active.add(1);
    active.add(1);
    active.add(2);
    assert_eq!(active.active_count(), 2);
    active.remove(3);
    assert_eq!(active.active_count(), 2);
    active.remove(1);
    assert_eq!(active.active_count(), 1);
    assert!(active.is_active(2));
}

#[test]
fn restore_kinds_map_to_connection_types() {
    assert_eq!(ConnectionRestoreKind::Sftp.connection_type(), Some(ConnectionType::SshSftp));
    assert_eq!(ConnectionRestoreKind::LocalTerminal.connection_type(), None);
    assert!(ConnectionRestoreKind::RedisWorkspace.is_workspace());
    assert!(!ConnectionRestoreKind::Redis.is_workspace());
}

#[test]
fn workspace_restore_item_needs_workspace_id() {
    assert!(!restore_payload_is_valid(ConnectionRestoreKind::RedisWorkspace, "Redis 工作区", None, None, false));
    assert!(!restore_payload_is_valid(ConnectionRestoreKind::DatabaseWorkspace, "工作区", Some(1), None, false));
    assert!(restore_payload_is_valid(ConnectionRestoreKind::DatabaseWorkspace, "工作区", None, Some(2), false));
}

#[test]
fn local_terminal_restore_item_needs_terminal_state() {
    assert!(restore_payload_is_valid(ConnectionRestoreKind::LocalTerminal, "本地终端", None, None, true));
    assert!(restore_payload_is_valid(ConnectionRestoreKind::LocalTerminal, "终端", None, None, true));
    assert!(!restore_payload_is_valid(ConnectionRestoreKind::LocalTerminal, "终端", Some(1), Some(1), false));
    assert!(!restore_payload_is_valid(ConnectionRestoreKind::LocalTerminal, "  ", None, None, true));
}

#[test]
fn legacy_terminal_title_falls_back() {
    assert_eq!(legacy_terminal_title(Some("zsh")), "zsh");
    assert_eq!(legacy_terminal_title(Some("  ")), "Local Terminal");
    assert_eq!(legacy_terminal_title(None), "Local Terminal");
}

#[test]
fn normalize_base_url_trims_spaces_and_trailing_slashes() {
    assert_eq!(
        SyncServerClient::normalize_base_url(" https://example.com/api/ "),
        "https://example.com/api"
    );
}

#[test]
fn is_valid_base_url_requires_http_or_https() {
    assert!(SyncServerClient::is_valid_base_url("http://127.0.0.1:8787"));
    assert!(SyncServerClient::is_valid_base_url("https://example.com/api"));
    assert!(!SyncServerClient::is_valid_base_url(""));
    assert!(!SyncServerClient::is_valid_base_url("127.0.0.1:8787"));
    assert!(!SyncServerClient::is_valid_base_url("ftp://example.com"));
}

#[test]
fn set_base_url_reports_changes() {
    let mut c = SyncServerClient::new(SyncServerConfig { base_url: " https://a.com/ ".to_string() });
    assert_eq!(c.base_url(), "https://a.com");
    assert!(c.has_valid_base_url());
    assert!(!c.set_base_url(" https://a.com/ "));
    assert!(c.set_base_url("https://b.com//"));
    assert_eq!(c.base_url(), "https://b.com");
    assert_eq!(c.api_url("/api/v1/sync/items"), "https://b.com/api/v1/sync/items");
    assert!(c.set_base_url("ftp://x"));
    assert!(!c.has_valid_base_url());
}

#[test]
fn api_url_joins_with_one_slash() {
    assert_eq!(api_url("https://a.com/", "/v1/items"), "https://a.com/v1/items");
    assert_eq!(api_url("https://a.com", "v1"), "https://a.com/v1");
}

#[test]
fn token_expiry_window_is_a_minute() {
    assert!(!is_token_expiring_soon(0, 100));
    assert!(is_token_expiring_soon(160, 100));
    assert!(!is_token_expiring_soon(161, 100));
}

#[test]
fn webdav_urls_and_headers() {
    let cfg = WebDavConfig {
        endpoint: "https://dav.example.com/".to_string(),
        auth: WebDavAuth::Basic { username: "user".to_string(), password: "pass".to_string() },
        vault_path: "netcatty-vault".to_string(),
    };
    assert_eq!(cfg.build_url("a.bin"), "https://dav.example.com/netcatty-vault/a.bin");
    assert_eq!(cfg.auth_header(), "Basic dXNlcjpwYXNz");
    let bearer = WebDavConfig { auth: WebDavAuth::Bearer { token: "t".to_string() }, ..cfg };
    assert_eq!(bearer.auth_header(), "Bearer t");
}

#[test]
fn backends_by_setting() {
    assert_eq!(create_backend("github_gist"), BackendChoice::BlobVault);
    assert_eq!(create_backend("webdav"), BackendChoice::BlobVault);
    assert_eq!(create_backend("anything"), BackendChoice::SyncServer);
    assert!(SyncServerBackend.requires_login() && SyncServerBackend.requires_url());
    assert!(!BlobVaultBackend.requires_login() && !BlobVaultBackend.requires_url());
    assert_eq!(SyncServerBackend.backend_type(), "sync_server");
    assert_eq!(BlobVaultBackend.backend_type(), "blob_vault");
}

#[test]
fn test_blob_encrypt_decrypt() {
    let mut service = CloudSyncService::new();
    service.set_master_key_directly("test_blob_key".to_string());
    let plaintext = r#"{"name":"test","params":{"host":"localhost","password":"secret"}}"#;
    let encrypted = service.encrypt_blob(plaintext).unwrap();
    assert!(encrypted.starts_with("ENC:"));
    assert_eq!(service.decrypt_blob(&encrypted).unwrap(), plaintext);
}

#[test]
fn test_blob_checksum() {
    let data = r#"{"name":"test","host":"localhost"}"#;
    assert_eq!(calculate_blob_checksum(data), calculate_blob_checksum(data));
    assert_ne!(calculate_blob_checksum(data), calculate_blob_checksum(r#"{"name":"test","host":"127.0.0.1"}"#));
    assert_eq!(
        calculate_blob_checksum("abc"),
        "ba7816bf8f01cfea414140de5dae2223b00361a396177a9cb410ff61f20015ad"
    );
}

#[test]
fn locked_service_refuses_blobs() {
    let service = CloudSyncService::new();
    assert!(matches!(service.encrypt_blob("x"), Err(SyncError::NotUnlocked)));
    assert!(matches!(service.decrypt_blob("x"), Err(SyncError::NotUnlocked)));
}

#[test]
fn unlock_and_setup_master_key() {
    let mut service = CloudSyncService::new();
    assert!(matches!(service.setup_master_key_at("k", 5), Err(SyncError::NotLoggedIn)));
    service.set_logged_in("user-1".to_string());
    let cfg = service.setup_master_key_at("k", 5).unwrap();
    assert_eq!(cfg.user_id, "user-1");
    assert_eq!(cfg.key_version, 1);
    assert_eq!(cfg.updated_at, 5);
    let cloud = CloudUserConfig {
        user_id: "user-1".to_string(),
        key_verification: generate_key_verification_v3("right"),
        key_version: 4,
        updated_at: 0,
    };
    assert!(matches!(service.unlock("wrong", &cloud), Err(SyncError::InvalidMasterKey)));
    assert!(service.unlock("right", &cloud).is_ok());
    assert_eq!(service.key_version(), 4);
    service.logout();
    assert!(!service.is_unlocked());
}

#[test]
fn operation_queues_are_kept_by_key() {
    let mut service = CloudSyncService::new();
    let mut q = OperationQueue::new();
    q.enqueue_at(SyncOperation::Upload { local_id: 1 }, 0);
    service.store_operation_queue("conn", q);
    assert_eq!(service.take_operation_queue("conn").pending_count(), 1);
    assert_eq!(service.take_operation_queue("conn").pending_count(), 0);
    for i in 0..70 {
        let mut q = OperationQueue::new();
        q.enqueue_at(SyncOperation::DeleteLocal(i), 0);
        service.store_operation_queue(&format!("k{}", i), q);
    }
    assert_eq!(service.take_operation_queue("k0").pending_count(), 0);
    assert_eq!(service.take_operation_queue("k69").pending_count(), 1);
}

#[test]
fn sealed_record_carries_checksum_and_version() {
    let mut service = CloudSyncService::new();
    service.set_logged_in("owner".to_string());
    service.set_master_key_directly("k".to_string());
    let d = service.seal_sync_data_at("{}", "id-1".to_string(), "workspace", "W", 77).unwrap();
    assert_eq!(d.owner_id, "owner");
    assert_eq!(d.checksum, calculate_blob_checksum("{}"));
    assert_eq!(d.version, 1);
    assert_eq!(d.updated_at, 77);
    assert_eq!(service.decrypt_blob(&d.encrypted_data).unwrap(), "{}");
}

#[test]
fn workspace_from_cloud_uses_seconds() {
    let cloud = CloudSyncData {
        id: "c".to_string(),
        owner_id: String::new(),
        data_type: "workspace".to_string(),
        name: "W".to_string(),
        encrypted_data: String::new(),
        key_version: 1,
        checksum: String::new(),
        version: 1,
        updated_at: 1_700_000_123_456,
        deleted_at: None,
    };
    let w = workspace_from_cloud("W".to_string(), Some(2), None, None, &cloud);
    assert_eq!(w.updated_at, Some(1_700_000_123));
    assert_eq!(w.cloud_id.as_deref(), Some("c"));
}

#[test]
fn new_records_get_a_random_uuid_or_keep_their_cloud_id() {
    let mut service = CloudSyncService::new();
    assert!(matches!(service.seal_new_sync_data("{}", None, "workspace", "w"), Err(SyncError::NotUnlocked)));
    service.set_master_key_directly("k".to_string());
    service.set_logged_in("owner-1".to_string());
    let fresh = service.seal_new_sync_data("{\"a\":1}", None, "workspace", "w").unwrap();
    let id: Vec<char> = fresh.id.chars().collect();
    assert_eq!(id.len(), 36);
    for (i, c) in id.iter().enumerate() {
        if [8, 13, 18, 23].contains(&i) {
            assert_eq!(*c, '-');
        } else {
            assert!(c.is_ascii_hexdigit() && !c.is_ascii_uppercase());
        }
    }
    assert_eq!(id[14], '4');
    assert!(['8', '9', 'a', 'b'].contains(&id[19]));
    assert_eq!(fresh.owner_id, "owner-1");
    assert_eq!(fresh.version, 1);
    assert_eq!(fresh.checksum, calculate_blob_checksum("{\"a\":1}"));
    assert_eq!(service.decrypt_blob(&fresh.encrypted_data).unwrap(), "{\"a\":1}");
    let other = service.seal_new_sync_data("{}", None, "workspace", "w").unwrap();
    assert_ne!(other.id, fresh.id);
    let kept = service.seal_new_sync_data("{}", Some("cloud-7".to_string()), "llm_provider", "p").unwrap();
    assert_eq!(kept.id, "cloud-7");
    assert_eq!(kept.data_type, "llm_provider");
}

#[test]
fn certificate_params_round_trip_and_errors() {
    let mut service = CloudSyncService::new();
    assert!(matches!(service.encrypt_params("{}"), Err(SyncError::NotUnlocked)));
    assert!(matches!(service.decrypt_params("ENC:x"), Err(SyncError::NotUnlocked)));
    service.set_master_key_directly("cert-key".to_string());
    let sealed = service.encrypt_params("{\"username\":\"root\"}").unwrap();
    assert!(sealed.starts_with("ENC:V3:"));
    assert_eq!(service.decrypt_params(&sealed).unwrap(), "{\"username\":\"root\"}");
    match service.decrypt_params("ENC:V3:%%%") {
        Err(SyncError::DataFormatError(m)) => assert_eq!(m, "编码失败"),
        _ => panic!("expected a format error"),
    }
}
