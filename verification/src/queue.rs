//! The queue of pending sync operations, with de-duplication and retries
//! with exponential back-off.
use std::collections::VecDeque;
use vstd::prelude::*;
use vstd::std_specs::cmp::PartialEqSpecImpl;

verus! {

/// One sync operation.
#[derive(Debug)]
pub enum SyncOperation {
    /// Upload local data to the cloud.
    Upload { local_id: i64 },
    /// Update cloud data from a local item.
    UpdateCloud { local_id: i64, cloud_id: String },
    /// Update a local item from cloud data.
    UpdateLocal { local_id: i64, cloud_id: String },
    /// Delete cloud data.
    DeleteCloud(String),
    /// Delete a local item.
    DeleteLocal(i64),
    /// Download cloud data into a new local item.
    Download(String),
}

/// Two operations are the same: same variant, same ids.
pub open spec fn same_operation(a: SyncOperation, b: SyncOperation) -> bool {
    match (a, b) {
        (SyncOperation::Upload { local_id: x }, SyncOperation::Upload { local_id: y }) => x == y,
        (
            SyncOperation::UpdateCloud { local_id: x, cloud_id: c },
            SyncOperation::UpdateCloud { local_id: y, cloud_id: d },
        ) => x == y && c@ == d@,
        (
            SyncOperation::UpdateLocal { local_id: x, cloud_id: c },
            SyncOperation::UpdateLocal { local_id: y, cloud_id: d },
        ) => x == y && c@ == d@,
        (SyncOperation::DeleteCloud(c), SyncOperation::DeleteCloud(d)) => c@ == d@,
        (SyncOperation::DeleteLocal(x), SyncOperation::DeleteLocal(y)) => x == y,
        (SyncOperation::Download(c), SyncOperation::Download(d)) => c@ == d@,
        _ => false,
    }
}

impl PartialEq for SyncOperation {
    fn eq(&self, other: &Self) -> (r: bool) {
        match (self, other) {
            (SyncOperation::Upload { local_id: x }, SyncOperation::Upload { local_id: y }) => *x
                == *y,
            (
                SyncOperation::UpdateCloud { local_id: x, cloud_id: c },
                SyncOperation::UpdateCloud { local_id: y, cloud_id: d },
            ) => *x == *y && *c == *d,
            (
                SyncOperation::UpdateLocal { local_id: x, cloud_id: c },
                SyncOperation::UpdateLocal { local_id: y, cloud_id: d },
            ) => *x == *y && *c == *d,
            (SyncOperation::DeleteCloud(c), SyncOperation::DeleteCloud(d)) => *c == *d,
            (SyncOperation::DeleteLocal(x), SyncOperation::DeleteLocal(y)) => *x == *y,
            (SyncOperation::Download(c), SyncOperation::Download(d)) => *c == *d,
            _ => false,
        }
    }
}

impl Clone for SyncOperation {
    fn clone(&self) -> (r: Self)
        ensures
            r == *self,
    {
        match self {
            SyncOperation::Upload { local_id } => SyncOperation::Upload { local_id: *local_id },
            SyncOperation::UpdateCloud { local_id, cloud_id } => SyncOperation::UpdateCloud {
                local_id: *local_id,
                cloud_id: cloud_id.clone(),
            },
            SyncOperation::UpdateLocal { local_id, cloud_id } => SyncOperation::UpdateLocal {
                local_id: *local_id,
                cloud_id: cloud_id.clone(),
            },
            SyncOperation::DeleteCloud(c) => SyncOperation::DeleteCloud(c.clone()),
            SyncOperation::DeleteLocal(x) => SyncOperation::DeleteLocal(*x),
            SyncOperation::Download(c) => SyncOperation::Download(c.clone()),
        }
    }
}

impl Eq for SyncOperation {

}

impl PartialEqSpecImpl for SyncOperation {
    open spec fn obeys_eq_spec() -> bool {
        true
    }

    open spec fn eq_spec(&self, other: &SyncOperation) -> bool {
        same_operation(*self, *other)
    }
}

/// An operation in the queue with its retry state.
#[derive(Debug)]
pub struct QueuedOperation {
    /// The operation.
    pub operation: SyncOperation,
    /// When it was queued (seconds since the epoch).
    pub created_at: i64,
    /// How many times it failed.
    pub retry_count: u32,
    /// Earliest time of the next attempt.
    pub next_retry_at: Option<i64>,
    /// The last failure.
    pub last_error: Option<String>,
}

impl Clone for QueuedOperation {
    fn clone(&self) -> (r: Self)
        ensures
            r == *self,
    {
        QueuedOperation {
            operation: self.operation.clone(),
            created_at: self.created_at,
            retry_count: self.retry_count,
            next_retry_at: self.next_retry_at,
            last_error: match &self.last_error {
                Some(e) => Some(e.clone()),
                None => None,
            },
        }
    }
}

/// `2^n` capped at 300: the back-off in seconds after the `n`-th failure.
pub open spec fn backoff_secs(n: nat) -> nat
    decreases n,
{
    if n == 0 {
        1
    } else {
        let prev = backoff_secs((n - 1) as nat);
        if 2 * prev >= 300 {
            300
        } else {
            2 * prev
        }
    }
}

/// `2^n`.
pub open spec fn pow2(n: nat) -> nat
    decreases n,
{
    if n == 0 {
        1
    } else {
        2 * pow2((n - 1) as nat)
    }
}

/// The back-off is `min(2^n, 300)`.
pub proof fn lemma_backoff_is_capped_pow2(n: nat)
    ensures
        backoff_secs(n) == if pow2(n) < 300 {
            pow2(n)
        } else {
            300
        },
    decreases n,
{
    if n > 0 {
        lemma_backoff_is_capped_pow2((n - 1) as nat);
        lemma_pow2_monotone((n - 1) as nat);
    }
}

proof fn lemma_pow2_monotone(n: nat)
    ensures
        pow2(n) >= 1,
        pow2(n + 1) == 2 * pow2(n),
    decreases n,
{
    reveal_with_fuel(pow2, 2);
    if n > 0 {
        lemma_pow2_monotone((n - 1) as nat);
    }
}

/// `min(2^n, 300)`.
fn backoff(n: u32) -> (r: u64)
    ensures
        r == backoff_secs(n as nat),
        1 <= r <= 300,
{
    let mut d: u64 = 1;
    let mut i: u32 = 0;
    while i < n
        invariant
            i <= n,
            d == backoff_secs(i as nat),
            1 <= d <= 300,
        decreases n - i,
    {
        d = if 2 * d >= 300 {
            300
        } else {
            2 * d
        };
        i = i + 1;
    }
    d
}

/// Seconds since the Unix epoch (0 when the clock is before it).
#[verifier::external_body]
pub(crate) fn unix_now_secs() -> (r: i64)
    ensures
        r >= 0,
{
    std::time::SystemTime::now().duration_since(std::time::UNIX_EPOCH).map(
        |d| d.as_secs() as i64,
    ).unwrap_or(0)
}

/// Latest time the queue accepts as "now": back-off deadlines still fit.
pub open spec fn time_ok(now: i64) -> bool {
    0 <= now <= i64::MAX - 300
}

impl QueuedOperation {
    /// A fresh entry queued at `now`.
    pub fn new_at(operation: SyncOperation, now: i64) -> (r: Self)
        ensures
            r.operation == operation,
            r.created_at == now,
            r.retry_count == 0,
            r.next_retry_at is None,
            r.last_error is None,
    {
        QueuedOperation {
            operation,
            created_at: now,
            retry_count: 0,
            next_retry_at: None,
            last_error: None,
        }
    }

    /// A fresh entry queued now.
    pub fn new(operation: SyncOperation) -> (r: Self)
        ensures
            r.operation == operation,
            r.created_at >= 0,
            r.retry_count == 0,
            r.next_retry_at is None,
            r.last_error is None,
    {
        let now = unix_now_secs();
        Self::new_at(operation, now)
    }

    /// Records a failure at `now`: one more retry, the error kept, the next
    /// attempt `min(2^retries, 300)` seconds later.
    pub fn mark_failed_at(&mut self, error: String, now: i64)
        requires
            old(self).retry_count < u32::MAX,
            time_ok(now),
        ensures
            final(self).operation == old(self).operation,
            final(self).created_at == old(self).created_at,
            final(self).retry_count == old(self).retry_count + 1,
            final(self).last_error == Some(error),
            final(self).next_retry_at == Some(
                (now + backoff_secs(final(self).retry_count as nat)) as i64,
            ),
    {
        self.retry_count = self.retry_count + 1;
        self.last_error = Some(error);
        let delay = backoff(self.retry_count);
        self.next_retry_at = Some(now + delay as i64);
    }

    /// Records a failure now.
    pub fn mark_failed(&mut self, error: String)
        requires
            old(self).retry_count < u32::MAX,
        ensures
            final(self).operation == old(self).operation,
            final(self).created_at == old(self).created_at,
            final(self).retry_count == old(self).retry_count + 1,
            final(self).last_error == Some(error),
            final(self).next_retry_at matches Some(t) && t >= backoff_secs(
                final(self).retry_count as nat,
            ),
    {
        let now = unix_now_secs();
        let now = if now > i64::MAX - 300 {
            i64::MAX - 300
        } else {
            now
        };
        self.mark_failed_at(error, now);
    }

    /// Whether the entry may be tried again at `now`.
    pub open spec fn retryable_at(&self, max_retries: u32, now: i64) -> bool {
        self.retry_count < max_retries && match self.next_retry_at {
            Some(next) => now >= next,
            None => true,
        }
    }

    /// Whether the entry may be tried again at `now`: fewer failures than
    /// `max_retries` and its back-off has passed.
    pub fn can_retry_at(&self, max_retries: u32, now: i64) -> (r: bool)
        ensures
            r == self.retryable_at(max_retries, now),
    {
        if self.retry_count >= max_retries {
            return false;
        }
        match self.next_retry_at {
            Some(next) => now >= next,
            None => true,
        }
    }

    /// Whether the entry may be tried again now.
    pub fn can_retry(&self, max_retries: u32) -> (r: bool)
        ensures
            r ==> self.retry_count < max_retries,
            self.retry_count >= max_retries ==> !r,
            self.next_retry_at is None ==> r == (self.retry_count < max_retries),
    {
        let now = unix_now_secs();
        self.can_retry_at(max_retries, now)
    }

    /// Seconds since the Unix epoch.
    pub fn current_timestamp() -> (r: i64)
        ensures
            r >= 0,
    {
        unix_now_secs()
    }
}

/// The retry limit a queue gets by default.
pub fn default_max_retries() -> (r: u32)
    ensures
        r == 3,
{
    3
}

/// Whether some entry of `q` carries an operation the same as `op`.
pub open spec fn holds_op(q: Seq<QueuedOperation>, op: SyncOperation) -> bool {
    exists|i: int| 0 <= i < q.len() && same_operation((#[trigger] q[i]).operation, op)
}

/// No two entries of `q` carry the same operation.
pub open spec fn distinct_ops(q: Seq<QueuedOperation>) -> bool {
    forall|i: int, j: int|
        0 <= i < j < q.len() ==> !same_operation((#[trigger] q[i]).operation, (#[trigger] q[j]).operation)
}

/// The pending entries after `enqueue_at(op, now)`: unchanged where the
/// operation is already pending or failed, otherwise a fresh entry at the back.
pub open spec fn enqueued(
    pending: Seq<QueuedOperation>,
    failed: Seq<QueuedOperation>,
    op: SyncOperation,
    now: i64,
) -> Seq<QueuedOperation> {
    if holds_op(pending, op) || holds_op(failed, op) {
        pending
    } else {
        pending.push(
            QueuedOperation {
                operation: op,
                created_at: now,
                retry_count: 0,
                next_retry_at: None,
                last_error: None,
            },
        )
    }
}

/// The pending entries after enqueueing `ops` in order at `now`.
pub open spec fn enqueued_all(
    pending: Seq<QueuedOperation>,
    failed: Seq<QueuedOperation>,
    ops: Seq<SyncOperation>,
    now: i64,
) -> Seq<QueuedOperation>
    decreases ops.len(),
{
    if ops.len() == 0 {
        pending
    } else {
        enqueued(enqueued_all(pending, failed, ops.drop_last(), now), failed, ops.last(), now)
    }
}

/// Enqueueing never makes an operation pending twice.
pub proof fn law_enqueue_keeps_pending_distinct(
    pending: Seq<QueuedOperation>,
    failed: Seq<QueuedOperation>,
    op: SyncOperation,
    now: i64,
)
    requires
        distinct_ops(pending),
    ensures
        distinct_ops(enqueued(pending, failed, op, now)),
{
    let q = enqueued(pending, failed, op, now);
    if !(holds_op(pending, op) || holds_op(failed, op)) {
        assert forall|i: int, j: int| 0 <= i < j < q.len() implies !same_operation(
            (#[trigger] q[i]).operation,
            (#[trigger] q[j]).operation,
        ) by {
            if j == pending.len() {
                assert(q[i] == pending[i]);
                if same_operation(pending[i].operation, op) {
                    assert(holds_op(pending, op));
                }
            } else {
                assert(q[i] == pending[i] && q[j] == pending[j]);
            }
        }
    }
}

/// Enqueueing the same operation twice leaves the queue as one enqueue does.
pub proof fn law_enqueue_is_idempotent(
    pending: Seq<QueuedOperation>,
    failed: Seq<QueuedOperation>,
    op: SyncOperation,
    now: i64,
    later: i64,
)
    ensures
        enqueued(enqueued(pending, failed, op, now), failed, op, later) == enqueued(
            pending,
            failed,
            op,
            now,
        ),
{
    let q = enqueued(pending, failed, op, now);
    if !(holds_op(pending, op) || holds_op(failed, op)) {
        assert(same_operation(q[pending.len() as int].operation, op));
        assert(holds_op(q, op));
    }
}

/// The entries of `failed` that a retry pass at `now` moves back: retryable,
/// with a deadline that has passed.
pub open spec fn due(op: QueuedOperation, max_retries: u32, now: i64) -> bool {
    op.retryable_at(max_retries, now) && op.next_retry_at is Some
}

/// The entries of `failed` that a retry pass at `now` keeps waiting: below
/// the retry limit, with no deadline or one still in the future (their
/// back-off has not passed yet).
pub open spec fn waiting(op: QueuedOperation, max_retries: u32, now: i64) -> bool {
    op.retry_count < max_retries && match op.next_retry_at {
        Some(next) => next > now,
        None => true,
    }
}

/// The entries of `s` that a retry pass at `now` moves back, in order.
pub open spec fn select_due(s: Seq<QueuedOperation>, max_retries: u32, now: i64) -> Seq<
    QueuedOperation,
>
    decreases s.len(),
{
    if s.len() == 0 {
        Seq::empty()
    } else {
        let prev = select_due(s.drop_last(), max_retries, now);
        if due(s.last(), max_retries, now) {
            prev.push(s.last())
        } else {
            prev
        }
    }
}

/// The entries of `s` that a retry pass at `now` keeps waiting, in order.
pub open spec fn select_waiting(s: Seq<QueuedOperation>, max_retries: u32, now: i64) -> Seq<
    QueuedOperation,
>
    decreases s.len(),
{
    if s.len() == 0 {
        Seq::empty()
    } else {
        let prev = select_waiting(s.drop_last(), max_retries, now);
        if waiting(s.last(), max_retries, now) {
            prev.push(s.last())
        } else {
            prev
        }
    }
}

/// A retry pass never grows the queue: each failed entry is moved, kept or
/// dropped, never two of these.
pub proof fn lemma_retry_partition(s: Seq<QueuedOperation>, max_retries: u32, now: i64)
    ensures
        select_due(s, max_retries, now).len() + select_waiting(s, max_retries, now).len()
            <= s.len(),
    decreases s.len(),
{
    if s.len() > 0 {
        lemma_retry_partition(s.drop_last(), max_retries, now);
    }
}

/// The queue of pending operations and of failed ones awaiting a retry.
#[derive(Debug)]
pub struct OperationQueue {
    pending: VecDeque<QueuedOperation>,
    failed: Vec<QueuedOperation>,
    max_retries: u32,
}

impl Default for OperationQueue {
    fn default() -> (r: Self)
        ensures
            r.pending_view().len() == 0,
            r.failed_view().len() == 0,
            r.max_retries_view() == 3,
    {
        Self::new()
    }
}

impl OperationQueue {
    /// The pending entries, front first.
    pub closed spec fn pending_view(&self) -> Seq<QueuedOperation> {
        self.pending@
    }

    /// The failed entries awaiting a retry.
    pub closed spec fn failed_view(&self) -> Seq<QueuedOperation> {
        self.failed@
    }

    /// The retry limit.
    pub closed spec fn max_retries_view(&self) -> u32 {
        self.max_retries
    }

    /// An empty queue with a retry limit of 3.
    pub fn new() -> (r: Self)
        ensures
            r.pending_view().len() == 0,
            r.failed_view().len() == 0,
            r.max_retries_view() == 3,
    {
        OperationQueue { pending: VecDeque::new(), failed: Vec::new(), max_retries: 3 }
    }

    /// The same queue with another retry limit.
    pub fn with_max_retries(self, max_retries: u32) -> (r: Self)
        ensures
            r.pending_view() == self.pending_view(),
            r.failed_view() == self.failed_view(),
            r.max_retries_view() == max_retries,
    {
        let mut q = self;
        q.max_retries = max_retries;
        q
    }

    /// The retry limit.
    pub fn max_retries(&self) -> (r: u32)
        ensures
            r == self.max_retries_view(),
    {
        self.max_retries
    }

    fn pending_holds(&self, op: &SyncOperation) -> (r: bool)
        ensures
            r == holds_op(self.pending@, *op),
    {
        let mut i: usize = 0;
        while i < self.pending.len()
            invariant
                i <= self.pending@.len(),
                forall|k: int| 0 <= k < i ==> !same_operation(self.pending@[k].operation, *op),
            decreases self.pending@.len() - i,
        {
            if self.pending[i].operation == *op {
                assert(same_operation(self.pending@[i as int].operation, *op));
                return true;
            }
            i = i + 1;
        }
        false
    }

    fn failed_holds(&self, op: &SyncOperation) -> (r: bool)
        ensures
            r == holds_op(self.failed@, *op),
    {
        let mut i: usize = 0;
        while i < self.failed.len()
            invariant
                i <= self.failed@.len(),
                forall|k: int| 0 <= k < i ==> !same_operation(self.failed@[k].operation, *op),
            decreases self.failed@.len() - i,
        {
            if self.failed[i].operation == *op {
                assert(same_operation(self.failed@[i as int].operation, *op));
                return true;
            }
            i = i + 1;
        }
        false
    }

    /// Adds `operation` at the back, queued at `now`, unless the same
    /// operation is already pending or failed.
    pub fn enqueue_at(&mut self, operation: SyncOperation, now: i64)
        ensures
            final(self).max_retries_view() == old(self).max_retries_view(),
            final(self).failed_view() == old(self).failed_view(),
            final(self).pending_view() == enqueued(
                old(self).pending_view(),
                old(self).failed_view(),
                operation,
                now,
            ),
    {
        let exists = self.pending_holds(&operation) || self.failed_holds(&operation);
        if !exists {
            self.pending.push_back(QueuedOperation::new_at(operation, now));
        }
    }

    /// Adds `operation` at the back unless the same operation is already
    /// pending or failed; a new entry has not failed yet and is stamped with
    /// the current time.
    pub fn enqueue(&mut self, operation: SyncOperation)
        ensures
            final(self).max_retries_view() == old(self).max_retries_view(),
            final(self).failed_view() == old(self).failed_view(),
            if holds_op(old(self).pending_view(), operation) || holds_op(
                old(self).failed_view(),
                operation,
            ) {
                final(self).pending_view() == old(self).pending_view()
            } else {
                final(self).pending_view().len() == old(self).pending_view().len() + 1
                    && final(self).pending_view().drop_last() == old(self).pending_view()
                    && final(self).pending_view().last().operation == operation
                    && final(self).pending_view().last().retry_count == 0
                    && final(self).pending_view().last().next_retry_at is None
                    && final(self).pending_view().last().last_error is None
                    && final(self).pending_view().last().created_at >= 0
            },
    {
        let now = unix_now_secs();
        self.enqueue_at(operation, now);
        proof {
            if !(holds_op(old(self).pending_view(), operation) || holds_op(
                old(self).failed_view(),
                operation,
            )) {
                assert(self.pending_view().drop_last() =~= old(self).pending_view());
            }
        }
    }

    /// Enqueues each operation in order, each queued at `now`.
    pub fn enqueue_all_at(&mut self, operations: Vec<SyncOperation>, now: i64)
        ensures
            final(self).max_retries_view() == old(self).max_retries_view(),
            final(self).failed_view() == old(self).failed_view(),
            final(self).pending_view() == enqueued_all(
                old(self).pending_view(),
                old(self).failed_view(),
                operations@,
                now,
            ),
    {
        let mut i: usize = 0;
        let ghost p0 = self.pending_view();
        assert(operations@.take(0) =~= Seq::<SyncOperation>::empty());
        while i < operations.len()
            invariant
                i <= operations@.len(),
                self.max_retries_view() == old(self).max_retries_view(),
                self.failed_view() == old(self).failed_view(),
                p0 == old(self).pending_view(),
                self.pending_view() == enqueued_all(
                    p0,
                    self.failed_view(),
                    operations@.take(i as int),
                    now,
                ),
            decreases operations@.len() - i,
        {
            self.enqueue_at(operations[i].clone(), now);
            proof {
                assert(operations@.take(i + 1).drop_last() =~= operations@.take(i as int));
            }
            i = i + 1;
        }
        proof {
            assert(operations@.take(operations@.len() as int) =~= operations@);
        }
    }

    /// Enqueues each operation in order, now.
    pub fn enqueue_all(&mut self, operations: Vec<SyncOperation>)
        ensures
            final(self).max_retries_view() == old(self).max_retries_view(),
            final(self).failed_view() == old(self).failed_view(),
            exists|now: i64|
                final(self).pending_view() == #[trigger] enqueued_all(
                    old(self).pending_view(),
                    old(self).failed_view(),
                    operations@,
                    now,
                ),
    {
        let now = unix_now_secs();
        self.enqueue_all_at(operations, now);
    }

    /// Takes the next pending entry, front first.
    pub fn dequeue(&mut self) -> (r: Option<QueuedOperation>)
        ensures
            final(self).max_retries_view() == old(self).max_retries_view(),
            final(self).failed_view() == old(self).failed_view(),
            match r {
                Some(op) => old(self).pending_view().len() > 0 && op == old(
                    self,
                ).pending_view()[0] && final(self).pending_view() == old(
                    self,
                ).pending_view().drop_first(),
                None => old(self).pending_view().len() == 0 && final(self).pending_view() == old(
                    self,
                ).pending_view(),
            },
    {
        let r = self.pending.pop_front();
        proof {
            if r is Some {
                assert(old(self).pending_view().drop_first() =~= self.pending_view());
            }
        }
        r
    }

    /// Records a failure of `operation` at `now`; it waits for a retry when
    /// it has failed fewer than `max_retries` times, else it is dropped.
    pub fn mark_failed_at(&mut self, operation: QueuedOperation, error: String, now: i64)
        requires
            operation.retry_count < u32::MAX,
            time_ok(now),
        ensures
            final(self).max_retries_view() == old(self).max_retries_view(),
            final(self).pending_view() == old(self).pending_view(),
            if operation.retry_count + 1 < old(self).max_retries_view() {
                final(self).failed_view() == old(self).failed_view().push(
                    QueuedOperation {
                        operation: operation.operation,
                        created_at: operation.created_at,
                        retry_count: (operation.retry_count + 1) as u32,
                        next_retry_at: Some(
                            (now + backoff_secs((operation.retry_count + 1) as nat)) as i64,
                        ),
                        last_error: Some(error),
                    },
                )
            } else {
                final(self).failed_view() == old(self).failed_view()
            },
    {
        let mut operation = operation;
        operation.mark_failed_at(error, now);
        if operation.retry_count < self.max_retries {
            self.failed.push(operation);
        }
    }

    /// Records a failure of `operation` now.
    pub fn mark_failed(&mut self, operation: QueuedOperation, error: String)
        requires
            operation.retry_count < u32::MAX,
        ensures
            final(self).max_retries_view() == old(self).max_retries_view(),
            final(self).pending_view() == old(self).pending_view(),
            if operation.retry_count + 1 < old(self).max_retries_view() {
                final(self).failed_view().len() == old(self).failed_view().len() + 1
                    && final(self).failed_view().drop_last() == old(self).failed_view()
                    && final(self).failed_view().last().operation == operation.operation
                    && final(self).failed_view().last().retry_count == operation.retry_count + 1
                    && final(self).failed_view().last().last_error == Some(error)
            } else {
                final(self).failed_view() == old(self).failed_view()
            },
    {
        let now = unix_now_secs();
        let now = if now > i64::MAX - 300 {
            i64::MAX - 300
        } else {
            now
        };
        let ghost op0 = operation;
        self.mark_failed_at(operation, error, now);
        proof {
            if op0.retry_count + 1 < old(self).max_retries_view() {
                assert(self.failed_view().drop_last() =~= old(self).failed_view());
            }
        }
    }

    /// Moves the failed entries below the retry limit whose deadline has
    /// passed to the back of the pending queue, in order; keeps those below
    /// the limit still in back-off or without a deadline, in order; drops
    /// those at the limit.
    pub fn retry_failed_at(&mut self, now: i64)
        ensures
            final(self).max_retries_view() == old(self).max_retries_view(),
            final(self).pending_view() == old(self).pending_view() + select_due(
                old(self).failed_view(),
                old(self).max_retries_view(),
                now,
            ),
            final(self).failed_view() == select_waiting(
                old(self).failed_view(),
                old(self).max_retries_view(),
                now,
            ),
    {
        let ghost f0 = self.failed@;
        let ghost p0 = self.pending@;
        let ghost m = self.max_retries;
        let mut failed: Vec<QueuedOperation> = Vec::new();
        std::mem::swap(&mut failed, &mut self.failed);
        let mut still_waiting: Vec<QueuedOperation> = Vec::new();
        let mut i: usize = 0;
        assert(failed@ == f0);
        assert(failed.len() <= usize::MAX);
        assert(f0.skip(0) =~= f0);
        while failed.len() > 0
            invariant
                i <= f0.len(),
                i + failed@.len() == f0.len(),
                f0.len() <= usize::MAX,
                failed@ == f0.skip(i as int),
                m == self.max_retries,
                self.max_retries == old(self).max_retries,
                self.pending@ == p0 + select_due(f0.take(i as int), m, now),
                still_waiting@ == select_waiting(f0.take(i as int), m, now),
            decreases failed@.len(),
        {
            let op = failed.remove(0);
            proof {
                assert(op == f0[i as int]);
                assert(f0.take(i + 1).drop_last() =~= f0.take(i as int));
                assert(f0.take(i + 1).last() == f0[i as int]);
                assert(failed@ =~= f0.skip(i + 1));
            }
            let ghost pend = self.pending@;
            let ghost sw = still_waiting@;
            if op.retry_count < self.max_retries {
                match op.next_retry_at {
                    Some(next) => {
                        if next <= now {
                            self.pending.push_back(op);
                        } else {
                            still_waiting.push(op);
                        }
                    },
                    None => {
                        still_waiting.push(op);
                    },
                }
            }
            proof {
                if due(f0[i as int], m, now) {
                    assert(self.pending@ =~= pend.push(f0[i as int]));
                }
                if waiting(f0[i as int], m, now) {
                    assert(still_waiting@ =~= sw.push(f0[i as int]));
                }
            }
            i = i + 1;
        }
        proof {
            assert(f0.take(i as int) =~= f0);
        }
        self.failed = still_waiting;
    }

    /// Moves the failed entries whose back-off has passed back to pending:
    /// the same pass as `retry_failed_at`, at the current time.
    pub fn retry_failed(&mut self)
        ensures
            final(self).max_retries_view() == old(self).max_retries_view(),
            exists|now: i64|
                final(self).pending_view() == old(self).pending_view() + #[trigger] select_due(
                    old(self).failed_view(),
                    old(self).max_retries_view(),
                    now,
                ) && final(self).failed_view() == select_waiting(
                    old(self).failed_view(),
                    old(self).max_retries_view(),
                    now,
                ),
    {
        let now = unix_now_secs();
        self.retry_failed_at(now);
    }

    /// Number of pending entries.
    pub fn pending_count(&self) -> (r: usize)
        ensures
            r == self.pending_view().len(),
    {
        self.pending.len()
    }

    /// Number of failed entries awaiting a retry.
    pub fn failed_count(&self) -> (r: usize)
        ensures
            r == self.failed_view().len(),
    {
        self.failed.len()
    }

    /// Whether nothing is pending or failed.
    pub fn is_empty(&self) -> (r: bool)
        ensures
            r == (self.pending_view().len() == 0 && self.failed_view().len() == 0),
    {
        self.pending.len() == 0 && self.failed.len() == 0
    }
}

} // verus!
