use omnihub_core::certificate_notifier::CertificateDataEvent;
use omnihub_core::client::CloudApiError;
use omnihub_core::conflict::{plan_conflict_step, ConflictStep, ResolvedConflictAction};
use omnihub_core::device_flow::{
    device_code_outcome, device_code_request_body, device_flow_timed_out, device_poll_step,
    token_poll_request_body, DevicePollStep, GithubDeviceCodeResponse, GithubDeviceError,
};
use omnihub_core::models::{
    CertificateKind, CloudSyncData, ConflictResolution, ConflictType, ConnectionType, ProviderType,
    StoredConnection,
    SyncConflict,
};
use omnihub_core::oauth::GithubTokenResponse;
use omnihub_core::service::{certificate_from_cloud, provider_from_cloud};
use omnihub_core::session_auth::map_sync_item;
use omnihub_core::sync_plan::{CertificateSyncType, SyncTypeHandler};
use omnihub_core::sync_run::SyncResult;

fn device_error(error: &str, description: Option<&str>) -> GithubDeviceError {
    GithubDeviceError { error: error.to_string(), error_description: description.map(|s| s.to_string()) }
}

#[test]
fn device_flow_request_bodies() {
    assert_eq!(device_code_request_body("abc"), "client_id=abc&scope=gist");
    assert_eq!(
        token_poll_request_body("abc", "dev1"),
        "client_id=abc&device_code=dev1&grant_type=urn:ietf:params:oauth:grant-type:device_code"
    );
}

#[test]
fn device_code_answers() {
    let code = GithubDeviceCodeResponse {
        device_code: "d".to_string(),
        user_code: "U-1".to_string(),
        verification_uri: "https://github.com/login/device".to_string(),
        interval: 5,
        expires_in: 900,
    };
    let ok = device_code_outcome(200, Some(code), None, b"{}").unwrap();
    assert_eq!(ok.user_code, "U-1");
    assert_eq!(ok.device_code, "d");
    assert_eq!(ok.verification_uri, "https://github.com/login/device");

    match device_code_outcome(503, None, None, b"") {
        Err(CloudApiError::ServerError(m)) => assert_eq!(m, "GitHub device code 请求失败: HTTP 503"),
        _ => panic!("expected a server error"),
    }
    match device_code_outcome(200, None, Some(device_error("bad", Some("why"))), b"") {
        Err(CloudApiError::ServerError(m)) => assert_eq!(m, "GitHub device code 错误: bad - why"),
        _ => panic!("expected a server error"),
    }
    match device_code_outcome(200, None, None, b"<html>") {
        Err(CloudApiError::ParseError(m)) => assert_eq!(m, "无法解析 GitHub device code 响应: <html>"),
        _ => panic!("expected a parse error"),
    }
}

#[test]
fn device_poll_answers() {
    let token = GithubTokenResponse {
        access_token: "t".to_string(),
        token_type: "bearer".to_string(),
        scope: "gist".to_string(),
        refresh_token: None,
    };
    match device_poll_step(Some(token), None, b"") {
        DevicePollStep::Finished(Ok(t)) => {
            assert_eq!(t.access_token, "t");
            assert_eq!(t.expires_at, None);
        }
        _ => panic!("expected tokens"),
    }
    assert!(matches!(
        device_poll_step(None, Some(device_error("authorization_pending", None)), b""),
        DevicePollStep::Wait
    ));
    match device_poll_step(None, Some(device_error("access_denied", None)), b"") {
        DevicePollStep::Finished(Err(CloudApiError::AuthenticationFailed(m))) => assert_eq!(m, "用户拒绝了授权请求"),
        _ => panic!("expected a refusal"),
    }
    match device_poll_step(None, Some(device_error("expired_token", None)), b"") {
        DevicePollStep::Finished(Err(CloudApiError::AuthenticationFailed(m))) => {
            assert_eq!(m, "device_code 已过期，请重新发起授权")
        }
        _ => panic!("expected an expiry"),
    }
    match device_poll_step(None, Some(device_error("unsupported_grant_type", None)), b"") {
        DevicePollStep::Finished(Err(CloudApiError::ServerError(m))) => {
            assert_eq!(m, "GitHub token 错误: unsupported_grant_type - ")
        }
        _ => panic!("expected a server error"),
    }
    match device_poll_step(None, Some(device_error("slow_down", None)), b"{\"error\":\"slow_down\"}") {
        DevicePollStep::Finished(Err(CloudApiError::ParseError(m))) => {
            assert_eq!(m, "无法解析 GitHub token 响应: {\"error\":\"slow_down\"}")
        }
        _ => panic!("expected a parse error"),
    }
    match device_flow_timed_out() {
        CloudApiError::AuthenticationFailed(m) => assert_eq!(m, "授权超时，请重试"),
        _ => panic!("expected a failed sign-in"),
    }
}

fn cloud(id: &str, updated_at: i64, version: i64) -> CloudSyncData {
    CloudSyncData {
        id: id.to_string(),
        owner_id: "o".to_string(),
        data_type: "connection".to_string(),
        name: String::new(),
        encrypted_data: String::new(),
        key_version: 1,
        checksum: String::new(),
        version,
        updated_at,
        deleted_at: None,
    }
}

fn conflict(kind: ConflictType, version: i64) -> SyncConflict {
    SyncConflict {
        local: StoredConnection {
            id: Some(1),
            name: "db".to_string(),
            connection_type: ConnectionType::Database,
            sort_order: None,
            workspace_id: None,
            params: "{}".to_string(),
            selected_databases: None,
            remark: None,
            sync_enabled: true,
            cloud_id: Some("c".to_string()),
            last_synced_at: None,
            created_at: None,
            updated_at: None,
            owner_id: None,
        },
        cloud: cloud("c", 0, version),
        cloud_name: "db".to_string(),
        conflict_type: kind,
    }
}

fn step(kind: ConflictType, resolution: ConflictResolution, version: i64) -> ConflictStep {
    let action = ResolvedConflictAction { conflict: conflict(kind, version), resolution, result_connection: None };
    plan_conflict_step(&action)
}

#[test]
fn conflict_steps() {
    assert_eq!(step(ConflictType::LocalModifiedCloudDeleted, ConflictResolution::UseCloud, 1), ConflictStep::DeleteLocal);
    assert_eq!(step(ConflictType::BothModified, ConflictResolution::UseCloud, 1), ConflictStep::OverwriteLocal);
    assert_eq!(step(ConflictType::LocalModifiedCloudDeleted, ConflictResolution::UseLocal, 0), ConflictStep::RecreateCloud);
    assert_eq!(step(ConflictType::LocalModifiedCloudDeleted, ConflictResolution::UseLocal, 1), ConflictStep::OverwriteCloud);
    assert_eq!(step(ConflictType::BothModified, ConflictResolution::UseLocal, 0), ConflictStep::OverwriteCloud);
    assert_eq!(step(ConflictType::LocalModifiedCloudDeleted, ConflictResolution::KeepBoth, 3), ConflictStep::RecreateCloud);
    assert_eq!(step(ConflictType::LocalDeletedCloudModified, ConflictResolution::KeepBoth, 3), ConflictStep::InsertCopyThenOverwriteLocal);
}

#[test]
fn failed_conflict_resolution_is_recorded() {
    let mut result = SyncResult::new();
    result.record_conflict_failure(&conflict(ConflictType::BothModified, 1), &omnihub_core::sync_plan::SyncError::NotUnlocked);
    assert_eq!(result.errors, vec!["应用冲突解决失败: 请先输入主密钥解锁".to_string()]);
    assert_eq!(result.conflicts.len(), 1);
}

#[test]
fn certificate_and_provider_from_cloud() {
    let c = cloud("cert-1", 1_700_000_123_456, 1);
    let cert = certificate_from_cloud(
        "key".to_string(),
        CertificateKind::SshPrivateKey,
        "{}".to_string(),
        None,
        Some("u".to_string()),
        &c,
    );
    assert_eq!(cert.id, None);
    assert!(cert.sync_enabled);
    assert_eq!(cert.cloud_id.as_deref(), Some("cert-1"));
    assert_eq!(cert.updated_at, Some(1_700_000_123));
    assert_eq!(cert.last_synced_at, Some(1_700_000_123));

    let p = provider_from_cloud(
        "p".to_string(),
        None,
        "k".to_string(),
        None,
        None,
        "m".to_string(),
        Some(10),
        None,
        true,
        false,
        &c,
    );
    assert_eq!(p.id, 0);
    assert_eq!(p.provider_type, ProviderType::OpenAI);
    assert_eq!(p.created_at, 1_700_000_123);
    assert_eq!(p.cloud_id.as_deref(), Some("cert-1"));

    let handler = CertificateSyncType;
    assert_eq!(handler.data_type(), "certificate");
    assert_eq!(handler.display_name(), "证书");
    assert_eq!(handler.queue_key(), "certificate");

    let event = CertificateDataEvent::Saved { certificate: cert.clone() };
    match event.clone() {
        CertificateDataEvent::Saved { certificate } => assert_eq!(certificate.name, "key"),
        _ => panic!("expected a saved event"),
    }
}

#[test]
fn sync_item_from_server() {
    let item = map_sync_item(
        "id1".to_string(),
        "o".to_string(),
        "workspace".to_string(),
        "enc".to_string(),
        2,
        "sum".to_string(),
        7,
        "2024-01-01T00:00:00Z",
        Some("not a time".to_string()),
    );
    assert_eq!(item.updated_at, 1_704_067_200_000);
    assert_eq!(item.deleted_at, Some(0));
    assert_eq!(item.version, 7);
    assert!(item.name.is_empty());
}
