//! Conflicts between local connections and cloud records: how one is
//! recorded, how a chosen resolution becomes an action, the copy that
//! "keep both" makes, and the three-way merge of one record.
use crate::models::{
    opt_view, CloudSyncData, ConflictResolution, ConflictType, StoredConnection, SyncConflict,
};
use crate::queue::unix_now_secs;
use crate::text::{decimal_text, i64_to_string, push_str, str_eq, string_from_chars, to_chars};
use vstd::prelude::*;

verus! {

// ---------------------------------------------------------------------------
// Recording a conflict
// ---------------------------------------------------------------------------
/// `data_type` of connection records.
pub open spec fn connection_kind() -> Seq<char> {
    seq!['c', 'o', 'n', 'n', 'e', 'c', 't', 'i', 'o', 'n']
}

/// Picks a default resolution for conflicts and makes conflict copies.
#[derive(Debug)]
pub struct ConflictResolver {
    default_strategy: ConflictResolution,
}

impl ConflictResolver {
    /// The resolution used when nobody chose one.
    pub closed spec fn strategy(&self) -> ConflictResolution {
        self.default_strategy
    }

    /// A resolver with the given default.
    pub fn new(default_strategy: ConflictResolution) -> (r: Self)
        ensures
            r.strategy() == default_strategy,
    {
        ConflictResolver { default_strategy }
    }

    /// A resolver that keeps the cloud version by default.
    pub fn with_cloud_priority() -> (r: Self)
        ensures
            r.strategy() == ConflictResolution::UseCloud,
    {
        Self::new(ConflictResolution::UseCloud)
    }

    /// The default resolution.
    pub fn default_strategy(&self) -> (r: ConflictResolution)
        ensures
            r == self.strategy(),
    {
        self.default_strategy
    }

    /// The conflict of a connection changed locally whose cloud record
    /// `cloud_id` is gone: the cloud side is a placeholder that carries the
    /// local name and nothing else.
    pub fn detect_local_modified_cloud_deleted(local: &StoredConnection, cloud_id: &str) -> (r:
        SyncConflict)
        ensures
            r.local == *local,
            r.cloud.id@ == cloud_id@,
            r.cloud.owner_id@ == Seq::<char>::empty(),
            r.cloud.data_type@ == connection_kind(),
            r.cloud.name@ == local.name@,
            r.cloud.encrypted_data@ == Seq::<char>::empty(),
            r.cloud.key_version == 0,
            r.cloud.checksum@ == Seq::<char>::empty(),
            r.cloud.version == 0,
            r.cloud.updated_at == 0,
            r.cloud.deleted_at is None,
            r.cloud_name@ == local.name@,
            r.conflict_type == ConflictType::LocalModifiedCloudDeleted,
    {
        proof {
            reveal_strlit("connection");
        }
        let placeholder = CloudSyncData {
            id: String::from_str(cloud_id),
            owner_id: String::new(),
            data_type: String::from_str("connection"),
            name: local.name.clone(),
            encrypted_data: String::new(),
            key_version: 0,
            checksum: String::new(),
            version: 0,
            updated_at: 0,
            deleted_at: None,
        };
        SyncConflict {
            local: local.clone(),
            cloud: placeholder,
            cloud_name: local.name.clone(),
            conflict_type: ConflictType::LocalModifiedCloudDeleted,
        }
    }

    /// Name of a conflict copy: `"{name} ({source} {stamp})"`.
    pub open spec fn copy_name(name: Seq<char>, source: Seq<char>, stamp: Seq<char>) -> Seq<
        char,
    > {
        name + seq![' ', '('] + source + seq![' '] + stamp + seq![')']
    }

    /// The text that stands for `timestamp` in a copy's name: the UTC minute
    /// it falls in, or its decimal form where the calendar cannot hold it.
    pub open spec fn stamp_text(timestamp: i64) -> Seq<char> {
        match utc_formatted(timestamp as int, minute_format()) {
            Some(t) => t,
            None => decimal_text(timestamp as int),
        }
    }

    /// Whether `r` is the copy of `conn` made at `now`: a new, unsynced
    /// connection whose name records `source` and the time.
    pub open spec fn is_conflict_copy(
        r: StoredConnection,
        conn: StoredConnection,
        source: Seq<char>,
        now: i64,
    ) -> bool {
        &&& r.id is None
        &&& r.sort_order is None
        &&& r.cloud_id is None
        &&& r.last_synced_at is None
        &&& r.name@ == Self::copy_name(conn.name@, source, Self::stamp_text(now))
        &&& r.connection_type == conn.connection_type
        &&& r.workspace_id == conn.workspace_id
        &&& r.params == conn.params
        &&& r.selected_databases == conn.selected_databases
        &&& r.remark == conn.remark
        &&& r.sync_enabled == conn.sync_enabled
        &&& r.created_at == conn.created_at
        &&& r.updated_at == conn.updated_at
        &&& r.owner_id == conn.owner_id
    }

    /// The copy of `conn` made at `now` (seconds since the epoch).
    pub fn create_conflict_copy_at(&self, conn: &StoredConnection, source: &str, now: i64) -> (r:
        StoredConnection)
        ensures
            Self::is_conflict_copy(r, *conn, source@, now),
    {
        let stamp = Self::format_timestamp(now);
        let mut name = to_chars(conn.name.as_str());
        name.push(' ');
        name.push('(');
        let src = to_chars(source);
        push_str(&mut name, &src);
        name.push(' ');
        let st = to_chars(stamp.as_str());
        push_str(&mut name, &st);
        name.push(')');
        let mut copy = conn.clone();
        copy.id = None;
        copy.sort_order = None;
        copy.cloud_id = None;
        copy.last_synced_at = None;
        copy.name = string_from_chars(&name);
        proof {
            assert(name@ =~= Self::copy_name(conn.name@, source@, Self::stamp_text(now)));
        }
        copy
    }

    /// The copy of `conn` made now; see `create_conflict_copy_at`.
    pub fn create_conflict_copy(&self, conn: &StoredConnection, source: &str) -> (r:
        StoredConnection)
        ensures
            exists|now: i64| now >= 0 && Self::is_conflict_copy(r, *conn, source@, now),
    {
        let now = Self::current_timestamp();
        self.create_conflict_copy_at(conn, source, now)
    }

    /// Seconds since the Unix epoch.
    pub fn current_timestamp() -> (r: i64)
        ensures
            r >= 0,
    {
        unix_now_secs()
    }

    /// `timestamp` as `YYYY-MM-DD HH:MM` in UTC, or in decimal where the
    /// calendar cannot hold it.
    pub fn format_timestamp(timestamp: i64) -> (r: String)
        ensures
            r@ == Self::stamp_text(timestamp),
    {
        match format_utc(timestamp, "%Y-%m-%d %H:%M") {
            Some(t) => t,
            None => i64_to_string(timestamp),
        }
    }
}

impl Default for ConflictResolver {
    fn default() -> (r: Self)
        ensures
            r.strategy() == ConflictResolution::UseCloud,
    {
        Self::with_cloud_priority()
    }
}

/// What chrono writes for `DateTime::<Utc>::from_timestamp(t, 0)` with the
/// strftime format `fmt`: `None` where `t` is out of chrono's range or the
/// writing fails (an unknown specifier, say).
pub uninterp spec fn utc_formatted(t: int, fmt: Seq<char>) -> Option<Seq<char>>;

/// Writes `t` seconds since the epoch as a UTC time in the strftime format
/// `fmt` with chrono's `DelayedFormat::write_to`.
#[verifier::external_body]
fn format_utc(t: i64, fmt: &str) -> (r: Option<String>)
    ensures
        opt_view(r) == utc_formatted(t as int, fmt@),
{
    let dt: chrono::DateTime<chrono::Utc> = chrono::DateTime::from_timestamp(t, 0)?;
    let mut text = String::new();
    dt.format(fmt).write_to(&mut text).ok().map(|_| text)
}

/// The format of a conflict copy's time stamp: date, hours and minutes.
pub open spec fn minute_format() -> Seq<char> {
    "%Y-%m-%d %H:%M"@
}

// ---------------------------------------------------------------------------
// Turning a resolution into an action
// ---------------------------------------------------------------------------
/// A conflict together with its resolution and the connection to write
/// locally, if any.
#[derive(Debug)]
pub struct ResolvedConflictAction {
    pub conflict: SyncConflict,
    pub resolution: ConflictResolution,
    pub result_connection: Option<StoredConnection>,
}

/// Name of the copy that "keep both" writes: `"{name} (冲突副本 {now})"`.
pub open spec fn kept_copy_name(name: Seq<char>, now: i64) -> Seq<char> {
    name + seq![' ', '(', '冲', '突', '副', '本', ' '] + decimal_text(now as int) + seq![')']
}

/// `c` is the unsynced copy of `local` that "keep both" writes at `now`:
/// no id, no cloud link, never synced, renamed, otherwise the same.
pub open spec fn kept_copy(c: StoredConnection, local: StoredConnection, now: i64) -> bool {
    &&& c.id is None
    &&& c.cloud_id is None
    &&& c.last_synced_at is None
    &&& c.name@ == kept_copy_name(local.name@, now)
    &&& c.sort_order == local.sort_order
    &&& c.connection_type == local.connection_type
    &&& c.workspace_id == local.workspace_id
    &&& c.params == local.params
    &&& c.selected_databases == local.selected_databases
    &&& c.remark == local.remark
    &&& c.sync_enabled == local.sync_enabled
    &&& c.created_at == local.created_at
    &&& c.updated_at == local.updated_at
    &&& c.owner_id == local.owner_id
}

/// The action for `conflict` under `strategy`, made at `now`: the cloud
/// version writes nothing locally, the local version is written back as
/// it is, and "keep both" writes an unsynced copy of the local connection.
pub fn create_resolved_action_at(
    conflict: &SyncConflict,
    strategy: ConflictResolution,
    now: i64,
) -> (r: ResolvedConflictAction)
    ensures
        r.conflict == *conflict,
        r.resolution == strategy,
        strategy == ConflictResolution::UseCloud ==> r.result_connection is None,
        strategy == ConflictResolution::UseLocal ==> r.result_connection == Some(conflict.local),
        strategy == ConflictResolution::KeepBoth ==> (r.result_connection matches Some(c)
            && kept_copy(c, conflict.local, now)),
{
    match strategy {
        ConflictResolution::UseCloud => ResolvedConflictAction {
            conflict: conflict.clone(),
            resolution: ConflictResolution::UseCloud,
            result_connection: None,
        },
        ConflictResolution::UseLocal => ResolvedConflictAction {
            conflict: conflict.clone(),
            resolution: ConflictResolution::UseLocal,
            result_connection: Some(conflict.local.clone()),
        },
        ConflictResolution::KeepBoth => {
            let mut copy = conflict.local.clone();
            copy.id = None;
            copy.cloud_id = None;
            copy.last_synced_at = None;
            let mut name = to_chars(copy.name.as_str());
            name.push(' ');
            name.push('(');
            name.push('冲');
            name.push('突');
            name.push('副');
            name.push('本');
            name.push(' ');
            let digits = i64_to_string(now);
            let dv = to_chars(digits.as_str());
            push_str(&mut name, &dv);
            name.push(')');
            proof {
                assert(name@ =~= kept_copy_name(conflict.local.name@, now));
            }
            copy.name = string_from_chars(&name);
            ResolvedConflictAction {
                conflict: conflict.clone(),
                resolution: ConflictResolution::KeepBoth,
                result_connection: Some(copy),
            }
        },
    }
}

/// The action for `conflict` under `strategy`, made now; see
/// `create_resolved_action_at`.
pub fn create_resolved_action(conflict: &SyncConflict, strategy: ConflictResolution) -> (r:
    ResolvedConflictAction)
    ensures
        r.conflict == *conflict,
        r.resolution == strategy,
        strategy == ConflictResolution::UseCloud ==> r.result_connection is None,
        strategy == ConflictResolution::UseLocal ==> r.result_connection == Some(conflict.local),
        strategy == ConflictResolution::KeepBoth ==> r.result_connection is Some && exists|now: i64|
            now >= 0 && #[trigger] kept_copy(r.result_connection->0, conflict.local, now),
{
    let now = unix_now_secs();
    create_resolved_action_at(conflict, strategy, now)
}

/// What applying a resolved conflict writes.
#[derive(Debug, Clone, Copy, PartialEq, Eq, Structural)]
pub enum ConflictStep {
    /// Delete the local connection: the cloud deleted it and the cloud wins.
    DeleteLocal,
    /// Overwrite the local connection with the cloud version, linked to the
    /// cloud record and synced now.
    OverwriteLocal,
    /// Upload the local connection as a new cloud record.
    RecreateCloud,
    /// Write the local version over the cloud record, at the record's
    /// version, and mark the local connection synced.
    OverwriteCloud,
    /// Insert the kept copy (where there is one), then overwrite the local
    /// connection with the cloud version.
    InsertCopyThenOverwriteLocal,
}

/// The step for a resolved conflict. A conflict where the cloud deleted a
/// locally changed connection deletes it locally under "use cloud", and
/// uploads it again under "keep both", or under "use local" when the cloud
/// record never got a version.
pub open spec fn conflict_step(a: ResolvedConflictAction) -> ConflictStep {
    let cloud_deleted = a.conflict.conflict_type == ConflictType::LocalModifiedCloudDeleted;
    match a.resolution {
        ConflictResolution::UseCloud => if cloud_deleted {
            ConflictStep::DeleteLocal
        } else {
            ConflictStep::OverwriteLocal
        },
        ConflictResolution::UseLocal => if cloud_deleted && a.conflict.cloud.version < 1 {
            ConflictStep::RecreateCloud
        } else {
            ConflictStep::OverwriteCloud
        },
        ConflictResolution::KeepBoth => if cloud_deleted {
            ConflictStep::RecreateCloud
        } else {
            ConflictStep::InsertCopyThenOverwriteLocal
        },
    }
}

/// Chooses what applying a resolved conflict writes.
pub fn plan_conflict_step(a: &ResolvedConflictAction) -> (r: ConflictStep)
    ensures
        r == conflict_step(*a),
{
    let cloud_deleted = match a.conflict.conflict_type {
        ConflictType::LocalModifiedCloudDeleted => true,
        _ => false,
    };
    match a.resolution {
        ConflictResolution::UseCloud => {
            if cloud_deleted {
                ConflictStep::DeleteLocal
            } else {
                ConflictStep::OverwriteLocal
            }
        },
        ConflictResolution::UseLocal => {
            if cloud_deleted && a.conflict.cloud.version < 1 {
                ConflictStep::RecreateCloud
            } else {
                ConflictStep::OverwriteCloud
            }
        },
        ConflictResolution::KeepBoth => {
            if cloud_deleted {
                ConflictStep::RecreateCloud
            } else {
                ConflictStep::InsertCopyThenOverwriteLocal
            }
        },
    }
}

/// The resolution chosen for the conflict on cloud record `cloud_id`: the
/// last choice given for it in `strategies`, else `default`.
pub open spec fn strategy_of(
    strategies: Seq<(String, ConflictResolution)>,
    cloud_id: Seq<char>,
    default: ConflictResolution,
) -> ConflictResolution
    decreases strategies.len(),
{
    if strategies.len() == 0 {
        default
    } else if strategies.last().0@ == cloud_id {
        strategies.last().1
    } else {
        strategy_of(strategies.drop_last(), cloud_id, default)
    }
}

/// The resolution chosen for `cloud_id`; see `strategy_of`.
pub fn strategy_for(
    strategies: &Vec<(String, ConflictResolution)>,
    cloud_id: &str,
    default: ConflictResolution,
) -> (r: ConflictResolution)
    ensures
        r == strategy_of(strategies@, cloud_id@, default),
{
    let mut i = strategies.len();
    assert(strategies@.take(i as int) =~= strategies@);
    while i > 0
        invariant
            i <= strategies@.len(),
            strategy_of(strategies@, cloud_id@, default) == strategy_of(
                strategies@.take(i as int),
                cloud_id@,
                default,
            ),
        decreases i,
    {
        assert(strategies@.take(i as int).drop_last() =~= strategies@.take(i - 1));
        if str_eq(strategies[i - 1].0.as_str(), cloud_id) {
            return strategies[i - 1].1;
        }
        i = i - 1;
    }
    default
}

/// The actions for `conflicts` at `now`, each under the resolution chosen
/// for its cloud record (see `strategy_of`), in order.
pub fn resolve_conflicts_at(
    conflicts: &Vec<SyncConflict>,
    strategies: &Vec<(String, ConflictResolution)>,
    default: ConflictResolution,
    now: i64,
) -> (r: Vec<ResolvedConflictAction>)
    ensures
        r@.len() == conflicts@.len(),
        forall|i: int|
            0 <= i < r@.len() ==> (#[trigger] r@[i]).conflict == conflicts@[i] && r@[i].resolution
                == strategy_of(strategies@, conflicts@[i].cloud.id@, default),
{
    let mut out: Vec<ResolvedConflictAction> = Vec::new();
    let mut i: usize = 0;
    while i < conflicts.len()
        invariant
            i <= conflicts@.len(),
            out@.len() == i,
            forall|k: int|
                0 <= k < i ==> (#[trigger] out@[k]).conflict == conflicts@[k] && out@[k].resolution
                    == strategy_of(strategies@, conflicts@[k].cloud.id@, default),
        decreases conflicts@.len() - i,
    {
        let c = &conflicts[i];
        let strategy = strategy_for(strategies, c.cloud.id.as_str(), default);
        out.push(create_resolved_action_at(c, strategy, now));
        i = i + 1;
    }
    out
}

// ---------------------------------------------------------------------------
// Three-way merge
// ---------------------------------------------------------------------------
/// Fingerprint of a missing or empty record.
pub open spec fn null_fp() -> Seq<char> {
    seq!['n', 'u', 'l', 'l']
}

/// What serde_json gives for `text` parsed as a `serde_json::Value` and
/// written back with `serde_json::to_string`: `None` where `text` is not JSON.
pub uninterp spec fn json_reformatted(text: Seq<char>) -> Option<Seq<char>>;

/// What `serde_json::to_string` gives for `text` as a JSON string.
pub uninterp spec fn json_string_literal(text: Seq<char>) -> Seq<char>;

/// Parses `text` as JSON and writes it back (object keys come out in
/// order, serde_json's map being sorted); `None` where it is not JSON.
#[verifier::external_body]
fn json_reformat(text: &str) -> (r: Option<String>)
    ensures
        opt_view(r) == json_reformatted(text@),
{
    match serde_json::from_str::<serde_json::Value>(text) {
        Ok(v) => serde_json::to_string(&v).ok(),
        Err(_) => None,
    }
}

/// `text` written as a JSON string literal.
#[verifier::external_body]
fn json_quote(text: &str) -> (r: String)
    ensures
        r@ == json_string_literal(text@),
{
    serde_json::to_string(text).unwrap_or_else(|_| text.to_string())
}

/// Fingerprint of a record's content: its JSON with keys in order, or the
/// content as a JSON string where it is not JSON.
pub open spec fn fingerprint_spec(content: Seq<char>) -> Seq<char> {
    match json_reformatted(content) {
        Some(t) => t,
        None => json_string_literal(content),
    }
}

/// Fingerprint of `content`; see `fingerprint_spec`.
pub fn fingerprint(content: &str) -> (r: String)
    ensures
        r@ == fingerprint_spec(content@),
{
    match json_reformat(content) {
        Some(t) => t,
        None => json_quote(content),
    }
}

/// Fingerprint used by the merge: `"null"` for empty content.
pub open spec fn calc_fp_spec(content: Seq<char>) -> Seq<char> {
    if content.len() == 0 {
        null_fp()
    } else {
        fingerprint_spec(content)
    }
}

/// Fingerprint of one side: `"null"` where the record is missing.
pub open spec fn side_fp(present: bool, content: Seq<char>) -> Seq<char> {
    if present {
        calc_fp_spec(content)
    } else {
        null_fp()
    }
}

/// Which version a merge keeps.
#[derive(Debug, Clone, Copy, PartialEq, Eq, Structural)]
pub enum MergeSide {
    /// The local version.
    Local,
    /// The remote version.
    Remote,
    /// None: the record is deleted.
    Neither,
}

/// The merge rule over fingerprints `b` (base), `l` (local), `r` (remote),
/// checked in this order: nothing changed keeps local (or deletes where it
/// is missing); a change on one side only keeps that side; deleted on one
/// side and unchanged on the other deletes; deleted on both sides deletes; deleted on one side and changed on the other keeps the
/// change; changed differently on both sides keeps local; the same change
/// on both sides keeps local; otherwise whichever version exists, local
/// first.
pub open spec fn merge_side(b: Seq<char>, l: Seq<char>, r: Seq<char>, has_l: bool, has_r: bool) -> MergeSide {
    if l == b && r == b {
        if has_l { MergeSide::Local } else { MergeSide::Neither }
    } else if l != b && r == b && has_l {
        MergeSide::Local
    } else if r != b && l == b && has_r {
        MergeSide::Remote
    } else if (!has_l && r == b || !has_r && l == b) && b != null_fp() {
        MergeSide::Neither
    } else if l == null_fp() && r == null_fp() && b != null_fp() {
        MergeSide::Neither
    } else if l == null_fp() && r != b && has_r {
        MergeSide::Remote
    } else if r == null_fp() && l != b && has_l {
        MergeSide::Local
    } else if l != b && r != b && l != r && has_l {
        MergeSide::Local
    } else if l == r && l != b && has_l {
        MergeSide::Local
    } else if has_l {
        MergeSide::Local
    } else if has_r {
        MergeSide::Remote
    } else {
        MergeSide::Neither
    }
}

/// Where neither side changed, the local version is kept (a record
/// missing on both sides stays deleted).
pub proof fn law_merge_unchanged_keeps_local(b: Seq<char>, has_l: bool, has_r: bool)
    ensures
        merge_side(b, b, b, has_l, has_r) == if has_l {
            MergeSide::Local
        } else {
            MergeSide::Neither
        },
{
}

/// A change on one side only is kept: the side that changed wins.
pub proof fn law_merge_keeps_one_sided_change(
    b: Seq<char>,
    l: Seq<char>,
    r: Seq<char>,
    has_l: bool,
    has_r: bool,
)
    ensures
        l != b && r == b && has_l ==> merge_side(b, l, r, has_l, has_r) == MergeSide::Local,
        r != b && l == b && has_r ==> merge_side(b, l, r, has_l, has_r) == MergeSide::Remote,
{
}

/// Where both sides changed a record that still exists locally, the local
/// version wins.
pub proof fn law_merge_conflict_prefers_local(b: Seq<char>, l: Seq<char>, r: Seq<char>, has_r: bool)
    requires
        l != b,
        r != b,
        l != null_fp(),
    ensures
        merge_side(b, l, r, true, has_r) == MergeSide::Local,
{
}

/// A record deleted on one side and changed on the other keeps the change.
pub proof fn law_merge_modification_beats_deletion(b: Seq<char>, changed: Seq<char>)
    requires
        b != null_fp(),
        changed != b,
        changed != null_fp(),
    ensures
        merge_side(b, null_fp(), changed, false, true) == MergeSide::Remote,
        merge_side(b, changed, null_fp(), true, false) == MergeSide::Local,
{
}

/// A record deleted on one side and left unchanged on the other is
/// deleted.
pub proof fn law_merge_pure_deletion(b: Seq<char>)
    requires
        b != null_fp(),
    ensures
        merge_side(b, null_fp(), b, false, true) == MergeSide::Neither,
        merge_side(b, b, null_fp(), true, false) == MergeSide::Neither,
{
}

/// A record deleted on both sides stays deleted.
pub proof fn law_merge_both_deleted(b: Seq<char>)
    requires
        b != null_fp(),
    ensures
        merge_side(b, null_fp(), null_fp(), false, false) == MergeSide::Neither,
{
}

/// The base fingerprint as the merge reads it: `"null"` where empty.
pub open spec fn base_fp_actual(base: Seq<char>) -> Seq<char> {
    if base.len() == 0 {
        null_fp()
    } else {
        base
    }
}

/// Which version to keep; see `merge_side`.
pub fn choose_merge_side(
    base_fp: &str,
    local_fp: &str,
    remote_fp: &str,
    has_local: bool,
    has_remote: bool,
) -> (r: MergeSide)
    ensures
        r == merge_side(base_fp@, local_fp@, remote_fp@, has_local, has_remote),
{
    proof {
        reveal_strlit("null");
    }
    let null = "null";
    assert(null@ =~= null_fp());
    let lb = str_eq(local_fp, base_fp);
    let rb = str_eq(remote_fp, base_fp);
    let ln = str_eq(local_fp, null);
    let rn = str_eq(remote_fp, null);
    let bn = str_eq(base_fp, null);
    let lr = str_eq(local_fp, remote_fp);
    if lb && rb {
        if has_local { MergeSide::Local } else { MergeSide::Neither }
    } else if !lb && rb && has_local {
        MergeSide::Local
    } else if !rb && lb && has_remote {
        MergeSide::Remote
    } else if (!has_local && rb || !has_remote && lb) && !bn {
        MergeSide::Neither
    } else if ln && rn && !bn {
        MergeSide::Neither
    } else if ln && !rb && has_remote {
        MergeSide::Remote
    } else if rn && !lb && has_local {
        MergeSide::Local
    } else if !lb && !rb && !lr && has_local {
        MergeSide::Local
    } else if lr && !lb && has_local {
        MergeSide::Local
    } else if has_local {
        MergeSide::Local
    } else if has_remote {
        MergeSide::Remote
    } else {
        MergeSide::Neither
    }
}

/// Outcome of merging one record.
#[derive(Debug, Clone)]
pub enum ThreeWayMergeResult<T> {
    /// The version kept.
    Merged(T),
    /// The record is deleted.
    Deleted,
}

/// Whether `res` is what keeping `side` of `local` and `remote` gives.
pub open spec fn merge_outcome<T: Clone>(
    res: ThreeWayMergeResult<T>,
    local: Option<&T>,
    remote: Option<&T>,
    side: MergeSide,
) -> bool {
    match side {
        MergeSide::Local => {
            &&& local is Some
            &&& res matches ThreeWayMergeResult::Merged(v) && cloned(*local->0, v)
        },
        MergeSide::Remote => {
            &&& remote is Some
            &&& res matches ThreeWayMergeResult::Merged(v) && cloned(*remote->0, v)
        },
        MergeSide::Neither => res is Deleted,
    }
}

/// Whether `content` is what reading `e` with `f` may give.
pub open spec fn extracts<T, F: Fn(&T) -> String>(f: F, e: &T, content: Seq<char>) -> bool {
    exists|c: String| #[trigger] call_ensures(f, (e,), c) && c@ == content
}

/// Three-way merge of records, whose content `extract_content` gives.
pub struct ThreeWayMerger<F> {
    extract_content: F,
}

impl<F> ThreeWayMerger<F> {
    /// A merger that reads content with `extract_content`.
    pub fn new(extract_content: F) -> (r: Self)
        ensures
            r.extract() == extract_content,
    {
        ThreeWayMerger { extract_content }
    }

    /// The content reader.
    pub closed spec fn extract(&self) -> F {
        self.extract_content
    }

    /// Fingerprint of `content`, `"null"` where it is empty.
    pub fn calc_fp(content: &str) -> (r: String)
        ensures
            r@ == calc_fp_spec(content@),
    {
        let chars = to_chars(content);
        if chars.len() == 0 {
            proof {
                reveal_strlit("null");
            }
            let r = String::from_str("null");
            assert(r@ =~= null_fp());
            r
        } else {
            fingerprint(content)
        }
    }

    fn side_fingerprint<T>(&self, side: Option<&T>) -> (r: (String, Ghost<Seq<char>>))
        where F: Fn(&T) -> String,
        requires
            side matches Some(e) ==> call_requires(self.extract_content, (e,)),
        ensures
            side matches Some(e) ==> extracts(self.extract_content, e, r.1@),
            r.0@ == side_fp(side is Some, r.1@),
    {
        match side {
            Some(e) => {
                let c = (self.extract_content)(e);
                (Self::calc_fp(c.as_str()), Ghost(c@))
            },
            None => {
                proof {
                    reveal_strlit("null");
                }
                let r = String::from_str("null");
                assert(r@ =~= null_fp());
                (r, Ghost(Seq::empty()))
            },
        }
    }

    /// Merges one record given the base fingerprint and the local and remote
    /// versions, as `merge_side` decides over their fingerprints.
    pub fn merge_entity<T: Clone>(&self, base_fp: &str, local: Option<&T>, remote: Option<&T>) -> (res:
        ThreeWayMergeResult<T>)
        where F: Fn(&T) -> String,
        requires
            local matches Some(e) ==> call_requires(self.extract(), (e,)),
            remote matches Some(e) ==> call_requires(self.extract(), (e,)),
        ensures
            exists|lc: Seq<char>, rc: Seq<char>|
                #![trigger side_fp(local is Some, lc), side_fp(remote is Some, rc)]
                {
                    &&& (local matches Some(e) ==> extracts(self.extract(), e, lc))
                    &&& (remote matches Some(e) ==> extracts(self.extract(), e, rc))
                    &&& merge_outcome(
                        res,
                        local,
                        remote,
                        merge_side(
                            base_fp_actual(base_fp@),
                            side_fp(local is Some, lc),
                            side_fp(remote is Some, rc),
                            local is Some,
                            remote is Some,
                        ),
                    )
                },
    {
        let (local_fp, Ghost(lc)) = self.side_fingerprint(local);
        let (remote_fp, Ghost(rc)) = self.side_fingerprint(remote);
        proof {
            reveal_strlit("null");
        }
        let base_chars = to_chars(base_fp);
        let base = if base_chars.len() == 0 {
            let b = String::from_str("null");
            assert(b@ =~= null_fp());
            b
        } else {
            String::from_str(base_fp)
        };
        assert(base@ == base_fp_actual(base_fp@));
        let side = choose_merge_side(
            base.as_str(),
            local_fp.as_str(),
            remote_fp.as_str(),
            local.is_some(),
            remote.is_some(),
        );
        let res = match side {
            MergeSide::Local => {
                let v = local.unwrap();
                ThreeWayMergeResult::Merged(v.clone())
            },
            MergeSide::Remote => {
                let v = remote.unwrap();
                ThreeWayMergeResult::Merged(v.clone())
            },
            MergeSide::Neither => ThreeWayMergeResult::Deleted,
        };
        proof {
            assert(merge_outcome(
                res,
                local,
                remote,
                merge_side(
                    base_fp_actual(base_fp@),
                    side_fp(local is Some, lc),
                    side_fp(remote is Some, rc),
                    local is Some,
                    remote is Some,
                ),
            ));
        }
        res
    }
}

} // verus!
