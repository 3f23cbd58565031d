use omnihub_core::client::CloudApiError;
use omnihub_core::models::CloudSyncData;
use omnihub_core::sync_server_api::{
    call_failure, call_ok, create_item_request, deletion_time_text, sync_item_url, sync_items_url,
    unsupported, update_item_request, ServerCall,
};

fn data(id: &str, deleted_at: Option<i64>) -> CloudSyncData {
    CloudSyncData {
        id: id.to_string(),
        owner_id: "o".to_string(),
        data_type: "workspace".to_string(),
        name: "n".to_string(),
        encrypted_data: "enc".to_string(),
        key_version: 2,
        checksum: "sum".to_string(),
        version: 5,
        updated_at: 1,
        deleted_at,
    }
}

#[test]
fn sync_item_addresses() {
    assert_eq!(sync_items_url("https://s.example.com/", None, None), "https://s.example.com/api/v1/sync/items");
    assert_eq!(
        sync_items_url("https://s.example.com", Some("workspace"), Some(1700)),
        "https://s.example.com/api/v1/sync/items?dataType=workspace&since=1700"
    );
    assert_eq!(
        sync_items_url("https://s.example.com", None, Some(-1)),
        "https://s.example.com/api/v1/sync/items?since=-1"
    );
    assert_eq!(
        sync_items_url("https://s.example.com", Some("connection"), None),
        "https://s.example.com/api/v1/sync/items?dataType=connection"
    );
    assert_eq!(sync_item_url("https://s.example.com//", "abc"), "https://s.example.com/api/v1/sync/items/abc");
}

#[test]
fn item_request_bodies() {
    let create = create_item_request(&data("", None));
    assert_eq!(create.id, None);
    assert_eq!((create.data_type.as_str(), create.key_version), ("workspace", 2));
    assert_eq!(create_item_request(&data("x1", None)).id.as_deref(), Some("x1"));
    let update = update_item_request(&data("x1", Some(1_704_067_200_000)));
    assert_eq!(update.version, 5);
    assert_eq!(update.deleted_at.as_deref(), Some("2024-01-01T00:00:00+00:00"));
    assert_eq!(update_item_request(&data("x1", None)).deleted_at, None);
    assert_eq!(deletion_time_text(0), "1970-01-01T00:00:00+00:00");
}

#[test]
fn refused_calls() {
    assert!(call_ok(200) && call_ok(201) && !call_ok(401));
    match call_failure(ServerCall::SignIn, 401, Some("{...}".to_string()), Some("密码错误".to_string())) {
        CloudApiError::AuthenticationFailed(m) => assert_eq!(m, "密码错误"),
        _ => panic!("expected a failed sign-in"),
    }
    match call_failure(ServerCall::SignUp, 500, None, None) {
        CloudApiError::AuthenticationFailed(m) => assert_eq!(m, "注册失败"),
        _ => panic!("expected a failed sign-in"),
    }
    match call_failure(ServerCall::UpdateItem, 409, Some("  ".to_string()), None) {
        CloudApiError::Conflict(m) => assert_eq!(m, "同步数据版本冲突"),
        _ => panic!("expected a conflict"),
    }
    match call_failure(ServerCall::UpdateItem, 500, None, None) {
        CloudApiError::ServerError(m) => assert_eq!(m, "更新同步数据失败"),
        _ => panic!("expected a server error"),
    }
    match call_failure(ServerCall::DeleteItem, 409, Some("locked".to_string()), None) {
        CloudApiError::Conflict(m) => assert_eq!(m, "locked"),
        _ => panic!("expected a conflict"),
    }
    match call_failure(ServerCall::ListItems, 502, Some("bad gateway".to_string()), None) {
        CloudApiError::ServerError(m) => assert_eq!(m, "bad gateway"),
        _ => panic!("expected a server error"),
    }
    match call_failure(ServerCall::CreateItem, 409, None, None) {
        CloudApiError::ServerError(m) => assert_eq!(m, "创建同步数据失败"),
        _ => panic!("expected a server error"),
    }
    match unsupported("当前 sync_server 不支持 OAuth 登录") {
        CloudApiError::ServerError(m) => assert_eq!(m, "当前 sync_server 不支持 OAuth 登录"),
        _ => panic!("expected a server error"),
    }
}
