use omnihub_core::queue::{default_max_retries, OperationQueue, QueuedOperation, SyncOperation};

#[test]
fn test_queue_enqueue_dequeue() {
    let mut queue = OperationQueue::new();
    queue.enqueue(SyncOperation::Upload { local_id: 1 });
    queue.enqueue(SyncOperation::Upload { local_id: 2 });
    assert_eq!(queue.pending_count(), 2);
    let op1 = queue.dequeue().unwrap();
    assert_eq!(op1.operation, SyncOperation::Upload { local_id: 1 });
    let op2 = queue.dequeue().unwrap();
    assert_eq!(op2.operation, SyncOperation::Upload { local_id: 2 });
    assert!(queue.dequeue().is_none());
}

#[test]
fn test_queue_dedup() {
    let mut queue = OperationQueue::new();
    queue.enqueue(SyncOperation::Upload { local_id: 1 });
    queue.enqueue(SyncOperation::Upload { local_id: 1 });
    assert_eq!(queue.pending_count(), 1);
}

#[test]
fn test_queue_failed_retry() {
    let mut queue = OperationQueue::new().with_max_retries(3);
    queue.enqueue(SyncOperation::Upload { local_id: 1 });
    let op = queue.dequeue().unwrap();
    queue.mark_failed(op.clone(), "测试错误".to_string());
    assert_eq!(queue.pending_count(), 0);
    assert_eq!(queue.failed_count(), 1);
}

#[test]
fn test_default_max_retries() {
    let queue = OperationQueue::default();
    assert_eq!(queue.max_retries(), 3);
    assert_eq!(default_max_retries(), 3);
}

#[test]
fn failed_operation_is_dropped_at_the_retry_limit() {
    let mut queue = OperationQueue::new().with_max_retries(1);
    queue.enqueue(SyncOperation::DeleteLocal(7));
    let op = queue.dequeue().unwrap();
    queue.mark_failed(op, "boom".to_string());
    assert_eq!(queue.failed_count(), 0);
    assert!(queue.is_empty());
}

#[test]
fn backoff_doubles_from_two_seconds() {
    let mut op = QueuedOperation::new_at(SyncOperation::Download("c".to_string()), 1000);
    op.mark_failed_at("e".to_string(), 1000);
    assert_eq!(op.retry_count, 1);
    assert_eq!(op.next_retry_at, Some(1002));
    op.mark_failed_at("e".to_string(), 1000);
    assert_eq!(op.next_retry_at, Some(1004));
    for _ in 0..10 {
        op.mark_failed_at("e".to_string(), 1000);
    }
    assert_eq!(op.next_retry_at, Some(1300));
}

#[test]
fn retry_moves_due_entries_back_to_pending() {
    let mut queue = OperationQueue::new();
    queue.enqueue_at(SyncOperation::Upload { local_id: 1 }, 10);
    let op = queue.dequeue().unwrap();
    queue.mark_failed_at(op, "x".to_string(), 10);
    assert_eq!(queue.failed_count(), 1);
    queue.retry_failed_at(100);
    assert_eq!(queue.pending_count(), 1);
    assert_eq!(queue.failed_count(), 0);
}

#[test]
fn enqueue_skips_operation_already_failed() {
    let mut queue = OperationQueue::new();
    queue.enqueue_at(SyncOperation::DeleteCloud("c1".to_string()), 10);
    let op = queue.dequeue().unwrap();
    queue.mark_failed_at(op, "x".to_string(), 10);
    queue.enqueue_all_at(vec![SyncOperation::DeleteCloud("c1".to_string()), SyncOperation::Upload { local_id: 2 }], 11);
    assert_eq!(queue.pending_count(), 1);
}

#[test]
fn retry_keeps_entries_still_in_backoff() {
    let mut queue = OperationQueue::new();
    queue.enqueue_at(SyncOperation::Upload { local_id: 1 }, 10);
    queue.enqueue_at(SyncOperation::Upload { local_id: 2 }, 10);
    let a = queue.dequeue().unwrap();
    queue.mark_failed_at(a, "x".to_string(), 10);
    let b = queue.dequeue().unwrap();
    queue.mark_failed_at(b, "y".to_string(), 50);
    // the first is due at 12, the second at 52
    queue.retry_failed_at(20);
    assert_eq!(queue.pending_count(), 1);
    assert_eq!(queue.failed_count(), 1);
    assert_eq!(queue.dequeue().unwrap().operation, SyncOperation::Upload { local_id: 1 });
    queue.retry_failed_at(60);
    assert_eq!(queue.failed_count(), 0);
    assert_eq!(queue.dequeue().unwrap().operation, SyncOperation::Upload { local_id: 2 });
}
