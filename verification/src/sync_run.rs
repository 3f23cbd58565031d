//! The bookkeeping of one sync run: what a finished operation adds to the
//! run's result and to its queue, which operations cannot start, and how
//! pending cloud deletions end.
use crate::models::SyncConflict;
use crate::service::sync_error_text;
use crate::queue::{OperationQueue, QueuedOperation, SyncOperation};
use crate::client::{api_error_text, CloudApiError};
use crate::sync_plan::{PendingDeletionDecision, SyncError};
use crate::text::{contains_seq, contains_str, decimal_text, i64_to_string, push_str, string_from_chars, to_chars};
use vstd::prelude::*;

verus! {

// ---------------------------------------------------------------------------
// The result of a run
// ---------------------------------------------------------------------------
/// What a sync run did.
#[derive(Debug)]
pub struct SyncResult {
    /// Items written to the cloud.
    pub uploaded: usize,
    /// Items written locally from the cloud.
    pub downloaded: usize,
    /// Items deleted, locally or in the cloud.
    pub deleted: usize,
    /// Conflicts left for the user.
    pub conflicts: Vec<SyncConflict>,
    /// Messages of what failed.
    pub errors: Vec<String>,
}

impl SyncResult {
    /// A result with nothing done.
    pub fn new() -> (r: Self)
        ensures
            r.uploaded == 0,
            r.downloaded == 0,
            r.deleted == 0,
            r.conflicts@.len() == 0,
            r.errors@.len() == 0,
    {
        SyncResult {
            uploaded: 0,
            downloaded: 0,
            deleted: 0,
            conflicts: Vec::new(),
            errors: Vec::new(),
        }
    }

    /// Adds the counts, conflicts and errors of `other` (a run of one kind
    /// of data) to this result.
    pub fn absorb(&mut self, other: SyncResult)
        requires
            old(self).uploaded + other.uploaded <= usize::MAX,
            old(self).downloaded + other.downloaded <= usize::MAX,
            old(self).deleted + other.deleted <= usize::MAX,
        ensures
            final(self).uploaded == old(self).uploaded + other.uploaded,
            final(self).downloaded == old(self).downloaded + other.downloaded,
            final(self).deleted == old(self).deleted + other.deleted,
            final(self).conflicts@ == old(self).conflicts@ + other.conflicts@,
            final(self).errors@ == old(self).errors@ + other.errors@,
    {
        let SyncResult { uploaded, downloaded, deleted, conflicts, errors } = other;
        self.uploaded = self.uploaded + uploaded;
        self.downloaded = self.downloaded + downloaded;
        self.deleted = self.deleted + deleted;
        let mut conflicts = conflicts;
        let mut errors = errors;
        self.conflicts.append(&mut conflicts);
        self.errors.append(&mut errors);
    }
}

impl SyncResult {
    /// Records that applying the resolution of `conflict` failed with `e`:
    /// the failure joins the errors and the conflict stays open.
    pub fn record_conflict_failure(&mut self, conflict: &SyncConflict, e: &SyncError)
        ensures
            final(self).uploaded == old(self).uploaded,
            final(self).downloaded == old(self).downloaded,
            final(self).deleted == old(self).deleted,
            final(self).conflicts@ == old(self).conflicts@.push(*conflict),
            final(self).errors@.len() == old(self).errors@.len() + 1,
            final(self).errors@.drop_last() == old(self).errors@,
            final(self).errors@.last()@ == "应用冲突解决失败: "@ + sync_error_text(*e),
    {
        let m = e.message();
        let mut v = to_chars("应用冲突解决失败: ");
        push_str(&mut v, &to_chars(m.as_str()));
        self.errors.push(string_from_chars(&v));
        self.conflicts.push(conflict.clone());
        proof {
            assert(self.errors@.drop_last() =~= old(self).errors@);
        }
    }
}

impl Default for SyncResult {
    fn default() -> (r: Self)
        ensures
            r.uploaded == 0,
            r.downloaded == 0,
            r.deleted == 0,
            r.conflicts@.len() == 0,
            r.errors@.len() == 0,
    {
        Self::new()
    }
}

// ---------------------------------------------------------------------------
// Finished operations
// ---------------------------------------------------------------------------
/// The counter of a result that a successful operation adds to.
#[derive(Debug, Clone, Copy, PartialEq, Eq, Structural)]
pub enum Tally {
    Uploaded,
    Downloaded,
    Deleted,
}

/// Uploads and cloud updates count as uploaded, downloads and local updates
/// as downloaded, deletions as deleted.
pub open spec fn tally_of(op: SyncOperation) -> Tally {
    match op {
        SyncOperation::Upload { .. } => Tally::Uploaded,
        SyncOperation::UpdateCloud { .. } => Tally::Uploaded,
        SyncOperation::UpdateLocal { .. } => Tally::Downloaded,
        SyncOperation::Download(_) => Tally::Downloaded,
        SyncOperation::DeleteCloud(_) => Tally::Deleted,
        SyncOperation::DeleteLocal(_) => Tally::Deleted,
    }
}

/// The counter of `r` named by `t`.
pub open spec fn count_of(r: SyncResult, t: Tally) -> usize {
    match t {
        Tally::Uploaded => r.uploaded,
        Tally::Downloaded => r.downloaded,
        Tally::Deleted => r.deleted,
    }
}

/// The word that names an operation in messages.
pub open spec fn verb_of(op: SyncOperation) -> Seq<char> {
    match op {
        SyncOperation::Upload { .. } => "上传"@,
        SyncOperation::UpdateCloud { .. } => "更新云端"@,
        SyncOperation::UpdateLocal { .. } => "更新本地"@,
        SyncOperation::Download(_) => "下载"@,
        SyncOperation::DeleteCloud(_) => "删除云端"@,
        SyncOperation::DeleteLocal(_) => "删除本地"@,
    }
}

/// The word that names `op` in messages.
pub fn operation_verb(op: &SyncOperation) -> (r: &'static str)
    ensures
        r@ == verb_of(*op),
{
    match op {
        SyncOperation::Upload { .. } => "上传",
        SyncOperation::UpdateCloud { .. } => "更新云端",
        SyncOperation::UpdateLocal { .. } => "更新本地",
        SyncOperation::Download(_) => "下载",
        SyncOperation::DeleteCloud(_) => "删除云端",
        SyncOperation::DeleteLocal(_) => "删除本地",
    }
}

/// The message of a failed operation: what was done to which kind of data,
/// on what, and why it failed.
pub open spec fn failure_text(
    verb: Seq<char>,
    kind_name: Seq<char>,
    subject: Seq<char>,
    reason: Seq<char>,
) -> Seq<char> {
    verb + kind_name + "失败 "@ + subject + ": "@ + reason
}

/// Builds the message of a failed operation.
pub fn failure_message(verb: &str, kind_name: &str, subject: &str, reason: &str) -> (r: String)
    ensures
        r@ == failure_text(verb@, kind_name@, subject@, reason@),
{
    let mut v = to_chars(verb);
    push_str(&mut v, &to_chars(kind_name));
    push_str(&mut v, &to_chars("失败 "));
    push_str(&mut v, &to_chars(subject));
    push_str(&mut v, &to_chars(": "));
    push_str(&mut v, &to_chars(reason));
    proof {
        assert(v@ =~= failure_text(verb@, kind_name@, subject@, reason@));
    }
    string_from_chars(&v)
}

/// Records how a dequeued operation ended. On success the operation's
/// counter grows by one. On failure the message (naming the operation, the
/// kind of data and `subject`) joins the errors and the operation goes back
/// to the queue's failed entries, as `OperationQueue::mark_failed` does.
pub fn record_outcome(
    result: &mut SyncResult,
    queue: &mut OperationQueue,
    queued: QueuedOperation,
    kind_name: &str,
    subject: &str,
    outcome: Result<(), String>,
)
    requires
        queued.retry_count < u32::MAX,
        count_of(*old(result), tally_of(queued.operation)) < usize::MAX,
    ensures
        final(result).conflicts@ == old(result).conflicts@,
        final(queue).max_retries_view() == old(queue).max_retries_view(),
        final(queue).pending_view() == old(queue).pending_view(),
        match outcome {
            Ok(()) => {
                &&& count_of(*final(result), tally_of(queued.operation)) == count_of(
                    *old(result),
                    tally_of(queued.operation),
                ) + 1
                &&& forall|t: Tally|
                    t != tally_of(queued.operation) ==> #[trigger] count_of(*final(result), t)
                        == count_of(*old(result), t)
                &&& final(result).errors@ == old(result).errors@
                &&& final(queue).failed_view() == old(queue).failed_view()
            },
            Err(e) => {
                let msg = failure_text(verb_of(queued.operation), kind_name@, subject@, e@);
                &&& final(result).uploaded == old(result).uploaded
                &&& final(result).downloaded == old(result).downloaded
                &&& final(result).deleted == old(result).deleted
                &&& final(result).errors@.len() == old(result).errors@.len() + 1
                &&& final(result).errors@.drop_last() == old(result).errors@
                &&& final(result).errors@.last()@ == msg
                &&& if queued.retry_count + 1 < old(queue).max_retries_view() {
                    &&& final(queue).failed_view().len() == old(queue).failed_view().len() + 1
                    &&& final(queue).failed_view().drop_last() == old(queue).failed_view()
                    &&& final(queue).failed_view().last().operation == queued.operation
                    &&& final(queue).failed_view().last().retry_count == queued.retry_count + 1
                    &&& final(queue).failed_view().last().last_error matches Some(le) && le@
                        == msg
                } else {
                    final(queue).failed_view() == old(queue).failed_view()
                }
            },
        },
{
    match outcome {
        Ok(()) => {
            match &queued.operation {
                SyncOperation::Upload { .. } | SyncOperation::UpdateCloud { .. } => {
                    result.uploaded = result.uploaded + 1;
                },
                SyncOperation::UpdateLocal { .. } | SyncOperation::Download(_) => {
                    result.downloaded = result.downloaded + 1;
                },
                SyncOperation::DeleteCloud(_) | SyncOperation::DeleteLocal(_) => {
                    result.deleted = result.deleted + 1;
                },
            }
        },
        Err(e) => {
            let verb = operation_verb(&queued.operation);
            let msg = failure_message(verb, kind_name, subject, e.as_str());
            result.errors.push(msg.clone());
            proof {
                assert(result.errors@.drop_last() =~= old(result).errors@);
            }
            queue.mark_failed(queued, msg);
        },
    }
}

// ---------------------------------------------------------------------------
// Operations that cannot start
// ---------------------------------------------------------------------------
/// Why a dequeued operation cannot start, if it cannot: the local item it
/// names is no longer listed (checked first), or the cloud record it names
/// is no longer listed. Deletions always start.
pub open spec fn lookup_failure_text(
    op: SyncOperation,
    kind_name: Seq<char>,
    has_local: bool,
    has_cloud: bool,
) -> Option<Seq<char>> {
    let local_gone = |id: i64|
        failure_text(verb_of(op), kind_name, decimal_text(id as int), "本地数据不存在"@);
    let cloud_gone = |id: String| failure_text(verb_of(op), kind_name, id@, "云端数据不存在"@);
    match op {
        SyncOperation::Upload { local_id } => if !has_local {
            Some(local_gone(local_id))
        } else {
            None
        },
        SyncOperation::UpdateCloud { local_id, cloud_id } => if !has_local {
            Some(local_gone(local_id))
        } else if !has_cloud {
            Some(cloud_gone(cloud_id))
        } else {
            None
        },
        SyncOperation::UpdateLocal { local_id, cloud_id } => if !has_local {
            Some(local_gone(local_id))
        } else if !has_cloud {
            Some(cloud_gone(cloud_id))
        } else {
            None
        },
        SyncOperation::Download(cloud_id) => if !has_cloud {
            Some(cloud_gone(cloud_id))
        } else {
            None
        },
        SyncOperation::DeleteCloud(_) => None,
        SyncOperation::DeleteLocal(_) => None,
    }
}

/// The message reporting that an operation cannot start, given whether its
/// local item and its cloud record are still listed; `None` when it can.
pub fn lookup_failure(op: &SyncOperation, kind_name: &str, has_local: bool, has_cloud: bool) -> (r:
    Option<String>)
    ensures
        match r {
            Some(m) => lookup_failure_text(*op, kind_name@, has_local, has_cloud) == Some(m@),
            None => lookup_failure_text(*op, kind_name@, has_local, has_cloud) is None,
        },
{
    let verb = operation_verb(op);
    match op {
        SyncOperation::Upload { local_id } => {
            if !has_local {
                let id = i64_to_string(*local_id);
                return Some(failure_message(verb, kind_name, id.as_str(), "本地数据不存在"));
            }
            None
        },
        SyncOperation::UpdateCloud { local_id, cloud_id } | SyncOperation::UpdateLocal {
            local_id,
            cloud_id,
        } => {
            if !has_local {
                let id = i64_to_string(*local_id);
                return Some(failure_message(verb, kind_name, id.as_str(), "本地数据不存在"));
            }
            if !has_cloud {
                return Some(failure_message(verb, kind_name, cloud_id.as_str(), "云端数据不存在"));
            }
            None
        },
        SyncOperation::Download(cloud_id) => {
            if !has_cloud {
                return Some(failure_message(verb, kind_name, cloud_id.as_str(), "云端数据不存在"));
            }
            None
        },
        SyncOperation::DeleteCloud(_) | SyncOperation::DeleteLocal(_) => None,
    }
}

// ---------------------------------------------------------------------------
// Pending cloud deletions
// ---------------------------------------------------------------------------
/// What the pending deletions of a run came to.
#[derive(Debug)]
pub struct PendingDeletionOutcome {
    /// Cloud ids whose pending deletion was settled and forgotten.
    pub handled_ids: Vec<String>,
    /// Whether a cloud record was deleted, so the cloud list must be read
    /// again.
    pub refetch_cloud: bool,
}

impl PendingDeletionOutcome {
    /// Nothing settled yet.
    pub fn new() -> (r: Self)
        ensures
            r.handled_ids@.len() == 0,
            !r.refetch_cloud,
    {
        PendingDeletionOutcome { handled_ids: Vec::new(), refetch_cloud: false }
    }

    /// Records the attempt to forget the pending deletion of `cloud_id`
    /// (after a cloud deletion when `after_cloud_delete`); only a successful
    /// removal counts.
    pub fn record_removal(&mut self, cloud_id: String, after_cloud_delete: bool, removed: bool)
        ensures
            removed ==> final(self).handled_ids@ == old(self).handled_ids@.push(cloud_id),
            removed ==> final(self).refetch_cloud == (old(self).refetch_cloud
                || after_cloud_delete),
            !removed ==> final(self).handled_ids@ == old(self).handled_ids@,
            !removed ==> final(self).refetch_cloud == old(self).refetch_cloud,
    {
        if removed {
            self.handled_ids.push(cloud_id);
            if after_cloud_delete {
                self.refetch_cloud = true;
            }
        }
    }
}

impl Default for PendingDeletionOutcome {
    fn default() -> (r: Self)
        ensures
            r.handled_ids@.len() == 0,
            !r.refetch_cloud,
    {
        Self::new()
    }
}

/// The next step for one pending deletion.
#[derive(Debug, Clone, Copy, PartialEq, Eq, Structural)]
pub enum PendingDeletionStep {
    /// Delete the cloud record.
    DeleteCloud,
    /// Forget the pending deletion; `after_cloud_delete` when the cloud
    /// record was just deleted.
    RemovePending { after_cloud_delete: bool },
    /// Keep it for the next run.
    Keep,
}

/// The step after the decision on a pending deletion: a failed decision
/// keeps it; a decision to drop it (after restoring the item, where that
/// was decided) forgets it.
pub open spec fn step_after_decision(d: Result<PendingDeletionDecision, SyncError>) -> PendingDeletionStep {
    match d {
        Ok(PendingDeletionDecision::DeleteCloud) => PendingDeletionStep::DeleteCloud,
        Ok(PendingDeletionDecision::DropPending) => PendingDeletionStep::RemovePending {
            after_cloud_delete: false,
        },
        Ok(PendingDeletionDecision::RestoreThenDropPending) => PendingDeletionStep::RemovePending {
            after_cloud_delete: false,
        },
        Err(_) => PendingDeletionStep::Keep,
    }
}

/// Chooses the step after the decision on a pending deletion.
pub fn after_decision(d: &Result<PendingDeletionDecision, SyncError>) -> (r: PendingDeletionStep)
    ensures
        r == step_after_decision(*d),
{
    match d {
        Ok(PendingDeletionDecision::DeleteCloud) => PendingDeletionStep::DeleteCloud,
        Ok(_) => PendingDeletionStep::RemovePending { after_cloud_delete: false },
        Err(_) => PendingDeletionStep::Keep,
    }
}

/// A failed cloud deletion whose message says the record no longer exists.
pub open spec fn cloud_record_gone(msg: Seq<char>) -> bool {
    contains_seq(msg, "404"@) || contains_seq(msg, "not found"@)
}

/// The step after deleting the cloud record: forget the pending deletion
/// when the record was deleted or is gone already, else keep it.
pub open spec fn step_after_cloud_delete(r: Result<(), CloudApiError>) -> PendingDeletionStep {
    match r {
        Ok(()) => PendingDeletionStep::RemovePending { after_cloud_delete: true },
        Err(e) => if cloud_record_gone(api_error_text(e)) {
            PendingDeletionStep::RemovePending { after_cloud_delete: false }
        } else {
            PendingDeletionStep::Keep
        },
    }
}

/// Chooses the step after deleting the cloud record.
pub fn after_cloud_delete(r: &Result<(), CloudApiError>) -> (step: PendingDeletionStep)
    ensures
        step == step_after_cloud_delete(*r),
{
    match r {
        Ok(()) => PendingDeletionStep::RemovePending { after_cloud_delete: true },
        Err(e) => {
            let msg = to_chars(e.message().as_str());
            if contains_str(&msg, "404") || contains_str(&msg, "not found") {
                PendingDeletionStep::RemovePending { after_cloud_delete: false }
            } else {
                PendingDeletionStep::Keep
            }
        },
    }
}

} // verus!
