use omnihub_core::client::CloudApiError;
use omnihub_core::models::{CloudSyncData, Workspace};
use omnihub_core::queue::{OperationQueue, QueuedOperation, SyncOperation};
use omnihub_core::sync_plan::{plan_operations, GenericSyncPlan, PendingDeletionDecision, SyncError};
use omnihub_core::sync_run::{
    after_cloud_delete, after_decision, failure_message, lookup_failure, PendingDeletionOutcome,
    PendingDeletionStep, SyncResult,
};

fn cloud(id: &str, updated_at: i64) -> CloudSyncData {
    CloudSyncData {
        id: id.to_string(),
        owner_id: "owner".to_string(),
        data_type: "workspace".to_string(),
        name: String::new(),
        encrypted_data: String::new(),
        key_version: 1,
        checksum: String::new(),
        version: 1,
        updated_at,
        deleted_at: None,
    }
}

fn workspace(id: Option<i64>, name: &str) -> Workspace {
    let mut w = Workspace::new(name.to_string());
    w.id = id;
    w
}

#[test]
fn failure_message_names_operation_kind_subject_and_reason() {
    assert_eq!(failure_message("上传", "工作空间", "Dev", "网络错误: timeout"), "上传工作空间失败 Dev: 网络错误: timeout");
}

#[test]
fn successful_operations_count_by_kind() {
    let mut result = SyncResult::new();
    let mut queue = OperationQueue::new();
    let ops = vec![
        SyncOperation::Upload { local_id: 1 },
        SyncOperation::UpdateCloud { local_id: 2, cloud_id: "c2".to_string() },
        SyncOperation::Download("c3".to_string()),
        SyncOperation::DeleteLocal(4),
    ];
    for op in ops {
        let queued = QueuedOperation::new(op);
        omnihub_core::sync_run::record_outcome(&mut result, &mut queue, queued, "工作空间", "x", Ok(()));
    }
    assert_eq!(result.uploaded, 2);
    assert_eq!(result.downloaded, 1);
    assert_eq!(result.deleted, 1);
    assert!(result.errors.is_empty());
    assert_eq!(queue.failed_count(), 0);
}

#[test]
fn failed_operation_is_reported_and_kept_for_retry() {
    let mut result = SyncResult::new();
    let mut queue = OperationQueue::new();
    let queued = QueuedOperation::new(SyncOperation::Download("c9".to_string()));
    omnihub_core::sync_run::record_outcome(
        &mut result,
        &mut queue,
        queued,
        "证书",
        "My Cert",
        Err("存储错误: disk full".to_string()),
    );
    assert_eq!(result.downloaded, 0);
    assert_eq!(result.errors, vec!["下载证书失败 My Cert: 存储错误: disk full".to_string()]);
    assert_eq!(queue.failed_count(), 1);
    assert_eq!(queue.pending_count(), 0);
}

#[test]
fn failed_operation_past_its_retries_is_dropped() {
    let mut result = SyncResult::new();
    let mut queue = OperationQueue::new().with_max_retries(1);
    let queued = QueuedOperation::new(SyncOperation::DeleteCloud("c1".to_string()));
    omnihub_core::sync_run::record_outcome(&mut result, &mut queue, queued, "连接", "c1", Err("x".to_string()));
    assert_eq!(result.errors.len(), 1);
    assert_eq!(queue.failed_count(), 0);
}

#[test]
fn lookup_reports_missing_local_before_missing_cloud() {
    let op = SyncOperation::UpdateLocal { local_id: 7, cloud_id: "c7".to_string() };
    assert_eq!(
        lookup_failure(&op, "工作空间", false, false),
        Some("更新本地工作空间失败 7: 本地数据不存在".to_string())
    );
    assert_eq!(
        lookup_failure(&op, "工作空间", true, false),
        Some("更新本地工作空间失败 c7: 云端数据不存在".to_string())
    );
    assert_eq!(lookup_failure(&op, "工作空间", true, true), None);
    let del = SyncOperation::DeleteCloud("c1".to_string());
    assert_eq!(lookup_failure(&del, "工作空间", false, false), None);
    let down = SyncOperation::Download("c2".to_string());
    assert_eq!(
        lookup_failure(&down, "证书", false, false),
        Some("下载证书失败 c2: 云端数据不存在".to_string())
    );
}

#[test]
fn absorb_adds_counts_and_keeps_order() {
    let mut total = SyncResult::new();
    total.uploaded = 1;
    total.errors.push("a".to_string());
    let mut part = SyncResult::default();
    part.uploaded = 2;
    part.downloaded = 3;
    part.deleted = 4;
    part.errors.push("b".to_string());
    total.absorb(part);
    assert_eq!(total.uploaded, 3);
    assert_eq!(total.downloaded, 3);
    assert_eq!(total.deleted, 4);
    assert_eq!(total.errors, vec!["a".to_string(), "b".to_string()]);
}

#[test]
fn pending_deletion_steps_follow_decision_and_delete_result() {
    assert_eq!(after_decision(&Ok(PendingDeletionDecision::DeleteCloud)), PendingDeletionStep::DeleteCloud);
    assert_eq!(
        after_decision(&Ok(PendingDeletionDecision::DropPending)),
        PendingDeletionStep::RemovePending { after_cloud_delete: false }
    );
    assert_eq!(
        after_decision(&Ok(PendingDeletionDecision::RestoreThenDropPending)),
        PendingDeletionStep::RemovePending { after_cloud_delete: false }
    );
    assert_eq!(after_decision(&Err(SyncError::NotUnlocked)), PendingDeletionStep::Keep);
    assert_eq!(after_cloud_delete(&Ok(())), PendingDeletionStep::RemovePending { after_cloud_delete: true });
    assert_eq!(
        after_cloud_delete(&Err(CloudApiError::ServerError("HTTP 404".to_string()))),
        PendingDeletionStep::RemovePending { after_cloud_delete: false }
    );
    assert_eq!(
        after_cloud_delete(&Err(CloudApiError::NotFound("record not found".to_string()))),
        PendingDeletionStep::RemovePending { after_cloud_delete: false }
    );
    assert_eq!(
        after_cloud_delete(&Err(CloudApiError::NetworkError("timeout".to_string()))),
        PendingDeletionStep::Keep
    );
}

#[test]
fn pending_deletion_outcome_counts_only_removed_entries() {
    let mut outcome = PendingDeletionOutcome::new();
    outcome.record_removal("a".to_string(), false, true);
    assert_eq!(outcome.handled_ids, vec!["a".to_string()]);
    assert!(!outcome.refetch_cloud);
    outcome.record_removal("b".to_string(), true, false);
    assert_eq!(outcome.handled_ids, vec!["a".to_string()]);
    assert!(!outcome.refetch_cloud);
    outcome.record_removal("c".to_string(), true, true);
    assert_eq!(outcome.handled_ids, vec!["a".to_string(), "c".to_string()]);
    assert!(outcome.refetch_cloud);
}

#[test]
fn plan_operations_reports_entries_without_local_id() {
    let plan = GenericSyncPlan {
        to_upload: vec![workspace(Some(1), "A"), workspace(None, "B")],
        to_update_cloud: vec![(workspace(None, "C"), cloud("c-c", 10))],
        to_download: vec![cloud("c-d", 20)],
        to_update_local: vec![(cloud("c-e", 30), workspace(None, "E")), (cloud("c-f", 40), workspace(Some(6), "F"))],
    };
    let names = vec![("c-e".to_string(), "Cloud E".to_string())];
    let (ops, missing) = plan_operations(&plan, &names, "工作空间");
    assert_eq!(
        ops,
        vec![
            SyncOperation::Upload { local_id: 1 },
            SyncOperation::Download("c-d".to_string()),
            SyncOperation::UpdateLocal { local_id: 6, cloud_id: "c-f".to_string() },
        ]
    );
    assert_eq!(
        missing,
        vec![
            "上传工作空间失败 B: 缺少本地 ID".to_string(),
            "更新云端工作空间失败 C: 缺少本地 ID".to_string(),
            "更新本地工作空间失败 Cloud E: 缺少本地 ID".to_string(),
        ]
    );
}
