use omnihub_core::blob_vault::{bundle_download_error, GithubGistSettings, BUNDLE_KEY};
use omnihub_core::bundle::{latest_update, restore_counts, restore_plan, BundleAction};
use omnihub_core::client::CloudApiError;
use omnihub_core::models::{Certificate, CertificateKind, ConnectionType, StoredConnection, Workspace};
use omnihub_core::sync_plan::SyncError;

fn conn(id: Option<i64>, name: &str, cloud_id: Option<&str>, updated_at: Option<i64>) -> StoredConnection {
    StoredConnection {
        id,
        name: name.to_string(),
        connection_type: ConnectionType::Database,
        sort_order: Some(3),
        workspace_id: Some(9),
        params: "{\"host\":\"h\"}".to_string(),
        selected_databases: None,
        remark: None,
        sync_enabled: true,
        cloud_id: cloud_id.map(|s| s.to_string()),
        last_synced_at: None,
        created_at: Some(1),
        updated_at,
        owner_id: None,
    }
}

fn cert(id: Option<i64>, name: &str, cloud_id: Option<&str>, updated_at: Option<i64>) -> Certificate {
    Certificate {
        id,
        name: name.to_string(),
        kind: CertificateKind::SshPrivateKey,
        params: "{\"username\":\"root\"}".to_string(),
        remark: None,
        sync_enabled: true,
        cloud_id: cloud_id.map(|s| s.to_string()),
        last_synced_at: None,
        created_at: None,
        updated_at,
        owner_id: None,
    }
}

#[test]
fn newer_cloud_connection_refreshes_linked_local() {
    let local = vec![conn(Some(1), "old", Some("c1"), Some(100))];
    let mut newer = conn(None, "new", Some("c1"), Some(200));
    newer.params = "{\"host\":\"h2\"}".to_string();
    let plan = restore_plan(&vec![newer], &local, 5000);
    assert_eq!(plan.len(), 1);
    match &plan[0] {
        BundleAction::Update(c) => {
            assert_eq!(c.id, Some(1));
            assert_eq!(c.name, "new");
            assert_eq!(c.params, "{\"host\":\"h2\"}");
            assert_eq!(c.updated_at, Some(200));
            assert_eq!(c.last_synced_at, Some(5000));
            assert_eq!(c.created_at, Some(1));
        }
        _ => panic!("expected an update"),
    }
}

#[test]
fn older_or_equal_cloud_copy_leaves_local_alone() {
    let local = vec![conn(Some(1), "local", Some("c1"), Some(200))];
    let same = conn(None, "cloud", Some("c1"), Some(200));
    let older = conn(None, "cloud", Some("c1"), Some(100));
    assert!(restore_plan(&vec![same, older], &local, 5000).is_empty());
}

#[test]
fn unknown_cloud_connection_is_inserted_unsaved() {
    let plan = restore_plan(&vec![conn(Some(42), "remote", Some("c5"), Some(10))], &vec![], 77);
    match &plan[0] {
        BundleAction::Insert(c) => {
            assert_eq!(c.id, None);
            assert_eq!(c.cloud_id.as_deref(), Some("c5"));
            assert_eq!(c.last_synced_at, Some(77));
        }
        _ => panic!("expected an insert"),
    }
}

#[test]
fn unlinked_connection_is_inserted_only_when_name_is_free() {
    let local = vec![conn(Some(1), "taken", None, None)];
    let cloud = vec![conn(Some(2), "taken", None, None), conn(Some(3), "free", None, None)];
    let plan = restore_plan(&cloud, &local, 9);
    assert_eq!(plan.len(), 1);
    match &plan[0] {
        BundleAction::Insert(c) => {
            assert_eq!(c.name, "free");
            assert_eq!(c.id, None);
            assert_eq!(c.cloud_id, None);
        }
        _ => panic!("expected an insert"),
    }
    assert_eq!(restore_counts(&plan), (1, 0));
}

#[test]
fn unlinked_workspace_and_certificate_are_skipped() {
    let ws = vec![Workspace::new("w".to_string())];
    assert!(restore_plan(&ws, &vec![], 1).is_empty());
    let certs = vec![cert(None, "c", None, None)];
    assert!(restore_plan(&certs, &vec![], 1).is_empty());
}

#[test]
fn certificate_refresh_takes_kind_params_and_remark() {
    let local = vec![cert(Some(4), "old", Some("k1"), Some(1))];
    let mut cloud = cert(None, "new", Some("k1"), Some(2));
    cloud.kind = CertificateKind::UsernamePassword;
    cloud.remark = Some("r".to_string());
    let plan = restore_plan(&vec![cloud], &local, 3);
    match &plan[0] {
        BundleAction::Update(c) => {
            assert_eq!(c.id, Some(4));
            assert_eq!(c.kind, CertificateKind::UsernamePassword);
            assert_eq!(c.remark.as_deref(), Some("r"));
            assert_eq!(c.last_synced_at, Some(3));
        }
        _ => panic!("expected an update"),
    }
    assert_eq!(restore_counts(&plan), (0, 1));
}

#[test]
fn latest_update_is_max_or_zero() {
    assert_eq!(latest_update::<StoredConnection>(&vec![]), 0);
    let items = vec![conn(None, "a", None, Some(5)), conn(None, "b", None, None), conn(None, "c", None, Some(9))];
    assert_eq!(latest_update(&items), 9);
    let negative = vec![conn(None, "a", None, Some(-4))];
    assert_eq!(latest_update(&negative), -4);
}

#[test]
fn missing_bundle_is_reported_as_not_found() {
    match bundle_download_error(&CloudApiError::NotFound("vault gist 不存在".to_string())) {
        SyncError::NetworkError(m) => assert_eq!(m, "not_found"),
        _ => panic!("expected a network error"),
    }
    match bundle_download_error(&CloudApiError::NetworkError("timeout".to_string())) {
        SyncError::NetworkError(m) => assert_eq!(m, "网络错误: timeout"),
        _ => panic!("expected a network error"),
    }
}

#[test]
fn gist_settings_default_and_bundle_key() {
    let s = GithubGistSettings::default();
    assert!(s.client_id.is_empty());
    assert!(s.gist_id.is_none());
    assert_eq!(BUNDLE_KEY, "onetcli-vault.bundle");
}
