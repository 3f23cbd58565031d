use omnihub_core::conflict::{
    create_resolved_action_at, fingerprint, ConflictResolver, MergeSide, ThreeWayMergeResult, ThreeWayMerger,
    choose_merge_side,
};
use omnihub_core::models::{
    CloudSyncData, ConflictResolution, ConflictType, ConnectionType, StoredConnection, SyncConflict,
};

#[derive(Clone)]
struct TestEntity {
    content: String,
}

fn extract(e: &TestEntity) -> String {
    e.content.clone()
}

fn connection() -> StoredConnection {
    StoredConnection {
        id: Some(1),
        name: "Test Connection".to_string(),
        connection_type: ConnectionType::Database,
        sort_order: Some(0),
        workspace_id: None,
        params: "{}".to_string(),
        selected_databases: None,
        remark: None,
        sync_enabled: true,
        cloud_id: Some("cloud-123".to_string()),
        last_synced_at: Some(100),
        created_at: None,
        updated_at: Some(200),
        owner_id: None,
    }
}

#[test]
fn test_both_unchanged() {
    let merger = ThreeWayMerger::new(extract);
    let entity = TestEntity { content: r#"{"name":"test"}"#.to_string() };
    let fp = fingerprint(r#"{"name":"test"}"#);
    match merger.merge_entity(&fp, Some(&entity), Some(&entity)) {
        ThreeWayMergeResult::Merged(v) => assert_eq!(v.content, entity.content),
        _ => panic!("expected Merged"),
    }
}

#[test]
fn test_local_added() {
    let merger = ThreeWayMerger::new(extract);
    let entity = TestEntity { content: r#"{"name":"test"}"#.to_string() };
    match merger.merge_entity("", Some(&entity), None) {
        ThreeWayMergeResult::Merged(v) => assert_eq!(v.content, entity.content),
        _ => panic!("expected Merged"),
    }
}

#[test]
fn test_remote_added() {
    let merger = ThreeWayMerger::new(extract);
    let entity = TestEntity { content: r#"{"name":"test"}"#.to_string() };
    match merger.merge_entity("", None, Some(&entity)) {
        ThreeWayMergeResult::Merged(v) => assert_eq!(v.content, entity.content),
        _ => panic!("expected Merged"),
    }
}

#[test]
fn test_both_modified_conflict_prefers_local() {
    let merger = ThreeWayMerger::new(extract);
    let local = TestEntity { content: r#"{"name":"local"}"#.to_string() };
    let remote = TestEntity { content: r#"{"name":"remote"}"#.to_string() };
    let base_fp = fingerprint(r#"{"name":"test"}"#);
    match merger.merge_entity(&base_fp, Some(&local), Some(&remote)) {
        ThreeWayMergeResult::Merged(v) => assert_eq!(v.content, r#"{"name":"local"}"#),
        _ => panic!("expected Merged"),
    }
}

#[test]
fn test_same_modification() {
    let merger = ThreeWayMerger::new(extract);
    let local = TestEntity { content: r#"{"name":"both"}"#.to_string() };
    let remote = TestEntity { content: r#"{"name":"both"}"#.to_string() };
    let base_fp = fingerprint(r#"{"name":"test"}"#);
    match merger.merge_entity(&base_fp, Some(&local), Some(&remote)) {
        ThreeWayMergeResult::Merged(v) => assert_eq!(v.content, r#"{"name":"both"}"#),
        _ => panic!("expected Merged"),
    }
}

#[test]
fn test_delete_vs_modify_prefers_modify() {
    let merger = ThreeWayMerger::new(extract);
    let local = TestEntity { content: r#"{"name":"modified"}"#.to_string() };
    let base_fp = fingerprint(r#"{"name":"test"}"#);
    match merger.merge_entity(&base_fp, Some(&local), None) {
        ThreeWayMergeResult::Merged(v) => assert_eq!(v.content, r#"{"name":"modified"}"#),
        _ => panic!("expected Merged"),
    }
    match merger.merge_entity(&base_fp, None, Some(&local)) {
        ThreeWayMergeResult::Merged(v) => assert_eq!(v.content, r#"{"name":"modified"}"#),
        _ => panic!("expected Merged"),
    }
}

#[test]
fn pure_deletion_is_kept_as_deletion() {
    let merger = ThreeWayMerger::new(extract);
    let unchanged = TestEntity { content: r#"{"name":"test"}"#.to_string() };
    let base_fp = fingerprint(r#"{"name":"test"}"#);
    assert!(matches!(merger.merge_entity(&base_fp, None, Some(&unchanged)), ThreeWayMergeResult::Deleted));
    assert!(matches!(merger.merge_entity(&base_fp, Some(&unchanged), None), ThreeWayMergeResult::Deleted));
    assert_eq!(choose_merge_side("b", "null", "b", false, true), MergeSide::Neither);
    assert_eq!(choose_merge_side("b", "b", "null", true, false), MergeSide::Neither);
}

#[test]
fn both_deleted_stays_deleted() {
    let merger = ThreeWayMerger::new(extract);
    let base_fp = fingerprint(r#"{"name":"test"}"#);
    assert!(matches!(merger.merge_entity::<TestEntity>(&base_fp, None, None), ThreeWayMergeResult::Deleted));
}

#[test]
fn test_fingerprint_stable() {
    let content = r#"{"z":"last","a":"first","nested":{"b":1,"a":2}}"#;
    let fp1 = fingerprint(content);
    let fp2 = fingerprint(content);
    assert_eq!(fp1, fp2);
    let content2 = r#"{"a":"first","nested":{"a":2,"b":1},"z":"last"}"#;
    assert_eq!(fp1, fingerprint(content2));
}

#[test]
fn fingerprint_of_non_json_is_a_json_string() {
    assert_eq!(fingerprint("plain text"), "\"plain text\"");
}

#[test]
fn merge_side_rule_on_fingerprints() {
    assert_eq!(choose_merge_side("b", "b", "b", true, true), MergeSide::Local);
    assert_eq!(choose_merge_side("b", "x", "b", true, true), MergeSide::Local);
    assert_eq!(choose_merge_side("b", "b", "y", true, true), MergeSide::Remote);
    assert_eq!(choose_merge_side("b", "null", "null", false, false), MergeSide::Neither);
}

#[test]
fn test_conflict_resolver_default() {
    let resolver = ConflictResolver::default();
    assert_eq!(resolver.default_strategy(), ConflictResolution::UseCloud);
}

#[test]
fn test_conflict_copy_naming() {
    let resolver = ConflictResolver::default();
    let conn = connection();
    let copy = resolver.create_conflict_copy(&conn, "本地");
    assert!(copy.name.contains("Test Connection"));
    assert!(copy.name.contains("本地"));
    assert!(copy.id.is_none());
    assert!(copy.cloud_id.is_none());
}

#[test]
fn conflict_copy_name_carries_the_utc_minute() {
    let resolver = ConflictResolver::new(ConflictResolution::KeepBoth);
    let copy = resolver.create_conflict_copy_at(&connection(), "cloud", 0);
    assert_eq!(copy.name, "Test Connection (cloud 1970-01-01 00:00)");
    assert!(copy.sort_order.is_none());
    assert!(copy.last_synced_at.is_none());
}

#[test]
fn local_modified_cloud_deleted_conflict_has_placeholder_cloud_side() {
    let conflict = ConflictResolver::detect_local_modified_cloud_deleted(&connection(), "cloud-9");
    assert_eq!(conflict.cloud.id, "cloud-9");
    assert_eq!(conflict.cloud.data_type, "connection");
    assert_eq!(conflict.cloud.name, "Test Connection");
    assert_eq!(conflict.cloud_name, "Test Connection");
    assert_eq!(conflict.conflict_type, ConflictType::LocalModifiedCloudDeleted);
}

#[test]
fn resolved_actions_follow_the_strategy() {
    let conflict = SyncConflict {
        local: connection(),
        cloud: CloudSyncData {
            id: "c".to_string(),
            owner_id: String::new(),
            data_type: "connection".to_string(),
            name: "n".to_string(),
            encrypted_data: String::new(),
            key_version: 0,
            checksum: String::new(),
            version: 0,
            updated_at: 0,
            deleted_at: None,
        },
        cloud_name: "n".to_string(),
        conflict_type: ConflictType::BothModified,
    };
    assert!(create_resolved_action_at(&conflict, ConflictResolution::UseCloud, 5).result_connection.is_none());
    let keep = create_resolved_action_at(&conflict, ConflictResolution::UseLocal, 5).result_connection.unwrap();
    assert_eq!(keep.id, Some(1));
    let both = create_resolved_action_at(&conflict, ConflictResolution::KeepBoth, 42).result_connection.unwrap();
    assert_eq!(both.name, "Test Connection (冲突副本 42)");
    assert!(both.id.is_none() && both.cloud_id.is_none());
}
