//! Planning one sync round: which local items to upload or push to the
//! cloud, which cloud records to download or apply locally, which local
//! items a cloud deletion removes, and which operations the plan becomes.
use crate::models::{
    Certificate, CloudSyncData, ProviderConfig, ProviderType, SyncableItem, Workspace,
};
use crate::queue::SyncOperation;
use crate::sync_run::{failure_message, failure_text};
use crate::text::{str_eq, to_chars, trim, trim_chars};
use vstd::prelude::*;

verus! {

// ---------------------------------------------------------------------------
// Errors
// ---------------------------------------------------------------------------
/// Failures of cloud sync.
#[derive(Debug)]
pub enum SyncError {
    /// The master key was not entered.
    NotUnlocked,
    /// The master key is wrong.
    InvalidMasterKey,
    /// The cloud master key differs from the local one.
    CloudMasterKeyMismatch(String),
    /// The key version does not match.
    KeyVersionMismatch,
    /// The network failed.
    NetworkError(String),
    /// Encryption or decryption failed.
    CryptoError(crate::crypto::CryptoError),
    /// The data is malformed.
    DataFormatError(String),
    /// The local storage failed.
    StorageError(String),
    /// Not logged in.
    NotLoggedIn,
}

// ---------------------------------------------------------------------------
// Linked items: which side wins
// ---------------------------------------------------------------------------
/// What to do with a local item that is linked to an existing cloud record.
#[derive(Debug, Clone, Copy, PartialEq, Eq, Structural)]
pub enum LinkedSyncAction {
    Idle,
    UpdateCloud,
    UpdateLocal,
}

/// The side that wins for a linked item. Without sync state (or never
/// synced) the newer timestamp wins, the local one on a tie when never
/// synced; with sync state, the side that changed since the last sync wins,
/// the newer one (local on a tie) when both changed.
pub open spec fn linked_action(
    uses_sync_state: bool,
    local_updated: i64,
    last_synced_at: Option<i64>,
    cloud_updated: int,
) -> LinkedSyncAction {
    if !uses_sync_state {
        if local_updated > cloud_updated {
            LinkedSyncAction::UpdateCloud
        } else if cloud_updated > local_updated {
            LinkedSyncAction::UpdateLocal
        } else {
            LinkedSyncAction::Idle
        }
    } else {
        match last_synced_at {
            Some(last) => {
                let local_changed = local_updated > last;
                let cloud_changed = cloud_updated > last;
                if local_changed && !cloud_changed {
                    LinkedSyncAction::UpdateCloud
                } else if !local_changed && cloud_changed {
                    LinkedSyncAction::UpdateLocal
                } else if local_changed && cloud_changed {
                    if local_updated >= cloud_updated {
                        LinkedSyncAction::UpdateCloud
                    } else {
                        LinkedSyncAction::UpdateLocal
                    }
                } else {
                    LinkedSyncAction::Idle
                }
            },
            None => if local_updated >= cloud_updated {
                LinkedSyncAction::UpdateCloud
            } else {
                LinkedSyncAction::UpdateLocal
            },
        }
    }
}

/// Decides which side wins for a linked item.
/// The rule for a linked item, stated by what changed. With sync state
/// and a last sync time `last`: a change on one side only is taken to the
/// other side (a local-only change is uploaded, a cloud-only change is
/// downloaded); when neither changed nothing happens; when both changed the
/// newer side wins, the local one on a tie. Without sync state the newer
/// timestamp wins and equal ones need nothing.
pub proof fn law_linked_action_follows_changes(local: i64, last: i64, cloud: int)
    ensures
        local > last && cloud <= last ==> linked_action(true, local, Some(last), cloud)
            == LinkedSyncAction::UpdateCloud,
        local <= last && cloud > last ==> linked_action(true, local, Some(last), cloud)
            == LinkedSyncAction::UpdateLocal,
        local <= last && cloud <= last ==> linked_action(true, local, Some(last), cloud)
            == LinkedSyncAction::Idle,
        local > last && cloud > last && local >= cloud ==> linked_action(
            true,
            local,
            Some(last),
            cloud,
        ) == LinkedSyncAction::UpdateCloud,
        local > last && cloud > last && local < cloud ==> linked_action(
            true,
            local,
            Some(last),
            cloud,
        ) == LinkedSyncAction::UpdateLocal,
        local > cloud ==> linked_action(false, local, None, cloud) == LinkedSyncAction::UpdateCloud,
        local < cloud ==> linked_action(false, local, None, cloud) == LinkedSyncAction::UpdateLocal,
        local == cloud ==> linked_action(false, local, None, cloud) == LinkedSyncAction::Idle,
{
}

/// Never-synced items with sync state: the newer side wins, the local one
/// on a tie; something always moves.
pub proof fn law_linked_action_never_synced(local: i64, cloud: int)
    ensures
        local >= cloud ==> linked_action(true, local, None, cloud) == LinkedSyncAction::UpdateCloud,
        local < cloud ==> linked_action(true, local, None, cloud) == LinkedSyncAction::UpdateLocal,
{
}

pub fn decide_linked_sync_action(
    uses_sync_state: bool,
    local_updated: i64,
    last_synced_at: Option<i64>,
    cloud_updated: i64,
) -> (r: LinkedSyncAction)
    ensures
        r == linked_action(uses_sync_state, local_updated, last_synced_at, cloud_updated as int),
{
    if !uses_sync_state {
        return if local_updated > cloud_updated {
            LinkedSyncAction::UpdateCloud
        } else if cloud_updated > local_updated {
            LinkedSyncAction::UpdateLocal
        } else {
            LinkedSyncAction::Idle
        };
    }
    match last_synced_at {
        Some(last) => {
            let local_changed = local_updated > last;
            let cloud_changed = cloud_updated > last;
            if local_changed && !cloud_changed {
                LinkedSyncAction::UpdateCloud
            } else if !local_changed && cloud_changed {
                LinkedSyncAction::UpdateLocal
            } else if local_changed && cloud_changed {
                if local_updated >= cloud_updated {
                    LinkedSyncAction::UpdateCloud
                } else {
                    LinkedSyncAction::UpdateLocal
                }
            } else {
                LinkedSyncAction::Idle
            }
        },
        None => {
            if local_updated >= cloud_updated {
                LinkedSyncAction::UpdateCloud
            } else {
                LinkedSyncAction::UpdateLocal
            }
        },
    }
}

/// `ms` milliseconds in whole seconds, rounded toward zero.
pub open spec fn millis_to_secs(ms: i64) -> int {
    if ms >= 0 {
        ms / 1000
    } else {
        -((-ms) / 1000)
    }
}

/// Whole seconds of a millisecond timestamp, rounded toward zero.
pub fn secs_of_millis(ms: i64) -> (r: i64)
    ensures
        r == millis_to_secs(ms),
{
    ms / 1000
}

/// A local item survives a cloud deletion when it tracks sync state and
/// changed after its last sync.
pub open spec fn keep_on_cloud_delete<T: SyncableItem>(item: T) -> bool {
    item.spec_uses_sync_state() && unwrap_or_zero(item.spec_updated_at()) > unwrap_or_zero(
        item.spec_last_synced_at(),
    )
}

/// The value of `o`, or 0.
pub open spec fn unwrap_or_zero(o: Option<i64>) -> i64 {
    match o {
        Some(v) => v,
        None => 0,
    }
}

/// Whether a local item must survive the deletion of its cloud record.
pub fn should_keep_local_item_on_cloud_delete<T: SyncableItem>(item: &T) -> (r: bool)
    ensures
        r == keep_on_cloud_delete(*item),
{
    if !item.uses_sync_state() {
        return false;
    }
    let local_updated = match item.updated_at() {
        Some(v) => v,
        None => 0,
    };
    let last_synced_at = match item.last_synced_at() {
        Some(v) => v,
        None => 0,
    };
    local_updated > last_synced_at
}

// ---------------------------------------------------------------------------
// Handlers
// ---------------------------------------------------------------------------
/// What differs between the kinds of data that sync through the planner.
pub trait SyncTypeHandler {
    type Item: SyncableItem;

    /// Whether an unlinked local item may be linked to a cloud record of the
    /// same name.
    spec fn spec_links(&self, item: Self::Item) -> bool;

    /// Whether an unlinked local item may be linked to a cloud record of the
    /// same name.
    fn should_link_unlinked_local_by_name(&self, item: &Self::Item) -> (r: bool)
        ensures
            r == self.spec_links(*item),
    ;

    /// The `data_type` of this kind's cloud records.
    fn data_type(&self) -> &'static str;

    /// Name of the kind, for messages.
    fn display_name(&self) -> &'static str;

    /// Key of this kind's operation queue.
    fn queue_key(&self) -> &'static str;
}

/// Sync of LLM provider configurations.
pub struct LlmProviderSyncType;

impl SyncTypeHandler for LlmProviderSyncType {
    type Item = ProviderConfig;

    open spec fn spec_links(&self, item: ProviderConfig) -> bool {
        item.provider_type.spec_is_builtin()
    }

    /// Only the built-in provider links by name; a provider the user added
    /// must not be overwritten by an older cloud record of the same name.
    fn should_link_unlinked_local_by_name(&self, item: &ProviderConfig) -> (r: bool) {
        item.provider_type.is_builtin()
    }

    fn data_type(&self) -> (r: &'static str)
        ensures
            r@ == "llm_provider"@,
    {
        "llm_provider"
    }

    fn display_name(&self) -> (r: &'static str)
        ensures
            r@ == "LLM 提供商"@,
    {
        "LLM 提供商"
    }

    fn queue_key(&self) -> (r: &'static str)
        ensures
            r@ == "llm_provider"@,
    {
        "llm_provider"
    }
}

/// Sync of workspaces.
pub struct WorkspaceSyncType;

impl SyncTypeHandler for WorkspaceSyncType {
    type Item = Workspace;

    open spec fn spec_links(&self, item: Workspace) -> bool {
        true
    }

    fn should_link_unlinked_local_by_name(&self, item: &Workspace) -> (r: bool) {
        true
    }

    fn data_type(&self) -> (r: &'static str)
        ensures
            r@ == "workspace"@,
    {
        "workspace"
    }

    fn display_name(&self) -> (r: &'static str)
        ensures
            r@ == "工作空间"@,
    {
        "工作空间"
    }

    fn queue_key(&self) -> (r: &'static str)
        ensures
            r@ == "workspace"@,
    {
        "workspace"
    }
}

/// Sync of certificates.
pub struct CertificateSyncType;

impl SyncTypeHandler for CertificateSyncType {
    type Item = Certificate;

    open spec fn spec_links(&self, item: Certificate) -> bool {
        true
    }

    fn should_link_unlinked_local_by_name(&self, item: &Certificate) -> (r: bool) {
        true
    }

    fn data_type(&self) -> (r: &'static str)
        ensures
            r@ == "certificate"@,
    {
        "certificate"
    }

    fn display_name(&self) -> (r: &'static str)
        ensures
            r@ == "证书"@,
    {
        "证书"
    }

    fn queue_key(&self) -> (r: &'static str)
        ensures
            r@ == "certificate"@,
    {
        "certificate"
    }
}

// ---------------------------------------------------------------------------
// Lookups
// ---------------------------------------------------------------------------
/// The last cloud record of `cs` with id `id`.
pub open spec fn last_cloud(cs: Seq<CloudSyncData>, id: Seq<char>) -> Option<CloudSyncData>
    decreases cs.len(),
{
    if cs.len() == 0 {
        None
    } else if cs.last().id@ == id {
        Some(cs.last())
    } else {
        last_cloud(cs.drop_last(), id)
    }
}

/// The name recorded for `id` (the last entry for it).
pub open spec fn name_of(names: Seq<(String, String)>, id: Seq<char>) -> Option<Seq<char>>
    decreases names.len(),
{
    if names.len() == 0 {
        None
    } else if names.last().0@ == id {
        Some(names.last().1@)
    } else {
        name_of(names.drop_last(), id)
    }
}

/// Some cloud record is recorded under the name `n`.
pub open spec fn has_name_value(names: Seq<(String, String)>, n: Seq<char>) -> bool {
    exists|i: int| 0 <= i < names.len() && (#[trigger] names[i]).1@ == n
}

/// Some local item (synced or not) is linked to the cloud id `id`.
pub open spec fn linked_locally<T: SyncableItem>(ls: Seq<T>, id: Seq<char>) -> bool {
    exists|i: int| 0 <= i < ls.len() && (#[trigger] ls[i]).spec_cloud_id() == Some(id)
}

/// `id` is among `ids`.
pub open spec fn among(ids: Seq<String>, id: Seq<char>) -> bool {
    exists|i: int| 0 <= i < ids.len() && (#[trigger] ids[i])@ == id
}

/// The name of a cloud record as the plan sees it: the recorded name, else
/// its id.
pub open spec fn cloud_name(names: Seq<(String, String)>, c: CloudSyncData) -> Seq<char> {
    match name_of(names, c.id@) {
        Some(n) => n,
        None => c.id@,
    }
}

/// The last sync-enabled local item named `n` that may be linked by name
/// (and, when `unlinked_only`, has no cloud id).
pub open spec fn last_local_by_name<H: SyncTypeHandler>(
    h: H,
    ls: Seq<H::Item>,
    n: Seq<char>,
    unlinked_only: bool,
) -> Option<H::Item>
    decreases ls.len(),
{
    if ls.len() == 0 {
        None
    } else {
        let l = ls.last();
        if l.spec_sync_enabled() && h.spec_links(l) && l.spec_name() == n && (!unlinked_only
            || l.spec_cloud_id() is None) {
            Some(l)
        } else {
            last_local_by_name(h, ls.drop_last(), n, unlinked_only)
        }
    }
}

fn last_cloud_exec(cs: &Vec<CloudSyncData>, id: &str) -> (r: Option<usize>)
    ensures
        match r {
            Some(k) => k < cs@.len() && last_cloud(cs@, id@) == Some(cs@[k as int]),
            None => last_cloud(cs@, id@) is None,
        },
{
    let mut i = cs.len();
    assert(cs@.take(i as int) =~= cs@);
    while i > 0
        invariant
            i <= cs@.len(),
            last_cloud(cs@, id@) == last_cloud(cs@.take(i as int), id@),
        decreases i,
    {
        let ghost t = cs@.take(i as int);
        assert(t.drop_last() =~= cs@.take(i - 1));
        if str_eq(cs[i - 1].id.as_str(), id) {
            return Some(i - 1);
        }
        i = i - 1;
    }
    None
}

fn name_of_exec(names: &Vec<(String, String)>, id: &str) -> (r: Option<String>)
    ensures
        match r {
            Some(n) => name_of(names@, id@) == Some(n@),
            None => name_of(names@, id@) is None,
        },
{
    let mut i = names.len();
    assert(names@.take(i as int) =~= names@);
    while i > 0
        invariant
            i <= names@.len(),
            name_of(names@, id@) == name_of(names@.take(i as int), id@),
        decreases i,
    {
        let ghost t = names@.take(i as int);
        assert(t.drop_last() =~= names@.take(i - 1));
        if str_eq(names[i - 1].0.as_str(), id) {
            return Some(names[i - 1].1.clone());
        }
        i = i - 1;
    }
    None
}

fn has_name_value_exec(names: &Vec<(String, String)>, n: &str) -> (r: bool)
    ensures
        r == has_name_value(names@, n@),
{
    let mut i: usize = 0;
    while i < names.len()
        invariant
            i <= names@.len(),
            forall|k: int| 0 <= k < i ==> names@[k].1@ != n@,
        decreases names@.len() - i,
    {
        if str_eq(names[i].1.as_str(), n) {
            assert(names@[i as int].1@ == n@);
            return true;
        }
        i = i + 1;
    }
    false
}

fn linked_locally_exec<T: SyncableItem>(ls: &Vec<T>, id: &str) -> (r: bool)
    ensures
        r == linked_locally(ls@, id@),
{
    let mut i: usize = 0;
    while i < ls.len()
        invariant
            i <= ls@.len(),
            forall|k: int| 0 <= k < i ==> ls@[k].spec_cloud_id() != Some(id@),
        decreases ls@.len() - i,
    {
        if let Some(cid) = ls[i].cloud_id() {
            if str_eq(cid, id) {
                assert(ls@[i as int].spec_cloud_id() == Some(id@));
                return true;
            }
        }
        i = i + 1;
    }
    false
}

fn among_exec(ids: &Vec<String>, id: &str) -> (r: bool)
    ensures
        r == among(ids@, id@),
{
    let mut i: usize = 0;
    while i < ids.len()
        invariant
            i <= ids@.len(),
            forall|k: int| 0 <= k < i ==> ids@[k]@ != id@,
        decreases ids@.len() - i,
    {
        if str_eq(ids[i].as_str(), id) {
            assert(ids@[i as int]@ == id@);
            return true;
        }
        i = i + 1;
    }
    false
}

fn last_local_by_name_exec<H: SyncTypeHandler>(
    h: &H,
    ls: &Vec<H::Item>,
    n: &str,
    unlinked_only: bool,
) -> (r: Option<usize>)
    ensures
        match r {
            Some(k) => k < ls@.len() && last_local_by_name(*h, ls@, n@, unlinked_only) == Some(
                ls@[k as int],
            ),
            None => last_local_by_name(*h, ls@, n@, unlinked_only) is None,
        },
{
    let mut i = ls.len();
    assert(ls@.take(i as int) =~= ls@);
    while i > 0
        invariant
            i <= ls@.len(),
            last_local_by_name(*h, ls@, n@, unlinked_only) == last_local_by_name(
                *h,
                ls@.take(i as int),
                n@,
                unlinked_only,
            ),
        decreases i,
    {
        let ghost t = ls@.take(i as int);
        assert(t.drop_last() =~= ls@.take(i - 1));
        let l = &ls[i - 1];
        if l.sync_enabled() && h.should_link_unlinked_local_by_name(l) && str_eq(
            l.item_name(),
            n,
        ) && (!unlinked_only || l.cloud_id().is_none()) {
            return Some(i - 1);
        }
        i = i - 1;
    }
    None
}

// ---------------------------------------------------------------------------
// The plan
// ---------------------------------------------------------------------------
/// The work of one sync round.
#[derive(Debug)]
pub struct GenericSyncPlan<T> {
    /// Local items to create in the cloud.
    pub to_upload: Vec<T>,
    /// Local items that overwrite their cloud record.
    pub to_update_cloud: Vec<(T, CloudSyncData)>,
    /// Cloud records to create locally.
    pub to_download: Vec<CloudSyncData>,
    /// Cloud records that overwrite a local item.
    pub to_update_local: Vec<(CloudSyncData, T)>,
}

/// What the local pass of the planner collects: uploads, cloud updates and
/// local updates, in the order of the local items.
pub open spec fn plan_locals<H: SyncTypeHandler>(
    h: H,
    ls: Seq<H::Item>,
    cs: Seq<CloudSyncData>,
    names: Seq<(String, String)>,
) -> (Seq<H::Item>, Seq<(H::Item, CloudSyncData)>, Seq<(CloudSyncData, H::Item)>)
    decreases ls.len(),
{
    if ls.len() == 0 {
        (Seq::empty(), Seq::empty(), Seq::empty())
    } else {
        let p = plan_locals(h, ls.drop_last(), cs, names);
        let l = ls.last();
        if !l.spec_sync_enabled() {
            p
        } else {
            match l.spec_cloud_id() {
                Some(cid) => match last_cloud(cs, cid) {
                    Some(c) => if !c.spec_has_resolved_name() && trim(l.spec_name()).len() > 0 {
                        (p.0, p.1.push((l, c)), p.2)
                    } else {
                        match linked_action(
                            l.spec_uses_sync_state(),
                            unwrap_or_zero(l.spec_updated_at()),
                            l.spec_last_synced_at(),
                            millis_to_secs(c.updated_at),
                        ) {
                            LinkedSyncAction::UpdateCloud => (p.0, p.1.push((l, c)), p.2),
                            LinkedSyncAction::UpdateLocal => (p.0, p.1, p.2.push((c, l))),
                            LinkedSyncAction::Idle => p,
                        }
                    },
                    None => (p.0.push(l), p.1, p.2),
                },
                None => if !has_name_value(names, l.spec_name()) || !h.spec_links(l) {
                    (p.0.push(l), p.1, p.2)
                } else {
                    p
                },
            }
        }
    }
}

/// What the cloud pass of the planner collects for the records of `cs`:
/// local updates and downloads, in the order of the records.
pub open spec fn plan_clouds<H: SyncTypeHandler>(
    h: H,
    ls: Seq<H::Item>,
    cs_all: Seq<CloudSyncData>,
    cs: Seq<CloudSyncData>,
    pending: Seq<String>,
    names: Seq<(String, String)>,
) -> (Seq<(CloudSyncData, H::Item)>, Seq<CloudSyncData>)
    decreases cs.len(),
{
    if cs.len() == 0 {
        (Seq::empty(), Seq::empty())
    } else {
        let p = plan_clouds(h, ls, cs_all, cs.drop_last(), pending, names);
        let c = cs.last();
        if linked_locally(ls, c.id@) || among(pending, c.id@) {
            p
        } else {
            let n = cloud_name(names, c);
            match last_local_by_name(h, ls, n, true) {
                Some(l) => (p.0.push((c, l)), p.1),
                None => match last_local_by_name(h, ls, n, false) {
                    Some(l) => if (match l.spec_cloud_id() {
                        Some(cid) => last_cloud(cs_all, cid) is Some,
                        None => false,
                    }) {
                        p
                    } else {
                        (p.0.push((c, l)), p.1)
                    },
                    None => (p.0, p.1.push(c)),
                },
            }
        }
    }
}

/// The plan of a sync round for the sync-enabled local items `ls` and the
/// live cloud records `cs`.
pub open spec fn sync_plan<H: SyncTypeHandler>(
    h: H,
    pending: Seq<String>,
    ls: Seq<H::Item>,
    cs: Seq<CloudSyncData>,
    names: Seq<(String, String)>,
) -> (Seq<H::Item>, Seq<(H::Item, CloudSyncData)>, Seq<CloudSyncData>, Seq<(CloudSyncData, H::Item)>) {
    let pl = plan_locals(h, ls, cs, names);
    let pc = plan_clouds(h, ls, cs, cs, pending, names);
    (pl.0, pl.1, pc.1, pl.2 + pc.0)
}

/// The names the planner knows for cloud records `cs`, as (id, name)
/// pairs in the order of the records: the record's own name where it is
/// resolved, else the name decrypted for it (`ds`, by position), where any.
pub open spec fn names_for(cs: Seq<CloudSyncData>, ds: Seq<Option<String>>) -> Seq<(Seq<char>, Seq<char>)>
    decreases cs.len(),
{
    if cs.len() == 0 || ds.len() != cs.len() {
        Seq::empty()
    } else {
        let prev = names_for(cs.drop_last(), ds.drop_last());
        let c = cs.last();
        if c.spec_has_resolved_name() {
            prev.push((c.id@, c.name@))
        } else {
            match ds.last() {
                Some(n) => prev.push((c.id@, n@)),
                None => prev,
            }
        }
    }
}

/// Views (id, name) pairs as character sequences.
pub open spec fn pairs_view(v: Seq<(String, String)>) -> Seq<(Seq<char>, Seq<char>)> {
    v.map_values(|p: (String, String)| (p.0@, p.1@))
}

/// The name map of a sync round; see `names_for`. `decrypted_names[i]` is
/// the name decrypted from `cloud_data_list[i]`, where that succeeded.
pub fn build_name_map(cloud_data_list: &Vec<CloudSyncData>, decrypted_names: &Vec<Option<String>>) -> (r:
    Vec<(String, String)>)
    requires
        decrypted_names@.len() == cloud_data_list@.len(),
    ensures
        pairs_view(r@) == names_for(cloud_data_list@, decrypted_names@),
{
    let mut out: Vec<(String, String)> = Vec::new();
    let mut i: usize = 0;
    while i < cloud_data_list.len()
        invariant
            i <= cloud_data_list@.len(),
            decrypted_names@.len() == cloud_data_list@.len(),
            pairs_view(out@) == names_for(
                cloud_data_list@.take(i as int),
                decrypted_names@.take(i as int),
            ),
        decreases cloud_data_list@.len() - i,
    {
        let ghost before = out@;
        let c = &cloud_data_list[i];
        proof {
            assert(cloud_data_list@.take(i + 1).drop_last() =~= cloud_data_list@.take(i as int));
            assert(decrypted_names@.take(i + 1).drop_last() =~= decrypted_names@.take(i as int));
            assert(cloud_data_list@.take(i + 1).last() == *c);
            assert(decrypted_names@.take(i + 1).last() == decrypted_names@[i as int]);
        }
        if c.has_resolved_name() {
            out.push((c.id.clone(), c.name.clone()));
            proof {
                assert(pairs_view(out@) =~= pairs_view(before).push((c.id@, c.name@)));
            }
        } else {
            match &decrypted_names[i] {
                Some(n) => {
                    out.push((c.id.clone(), n.clone()));
                    proof {
                        assert(pairs_view(out@) =~= pairs_view(before).push((c.id@, n@)));
                    }
                },
                None => {},
            }
        }
        i = i + 1;
    }
    proof {
        assert(cloud_data_list@.take(cloud_data_list@.len() as int) =~= cloud_data_list@);
        assert(decrypted_names@.take(decrypted_names@.len() as int) =~= decrypted_names@);
    }
    out
}

/// A local item with sync disabled is never uploaded and never overwrites
/// its cloud record.
pub proof fn law_disabled_items_stay_local<H: SyncTypeHandler>(
    h: H,
    ls: Seq<H::Item>,
    cs: Seq<CloudSyncData>,
    names: Seq<(String, String)>,
)
    ensures
        forall|i: int|
            0 <= i < plan_locals(h, ls, cs, names).0.len() ==> (#[trigger] plan_locals(
                h,
                ls,
                cs,
                names,
            ).0[i]).spec_sync_enabled(),
        forall|i: int|
            0 <= i < plan_locals(h, ls, cs, names).1.len() ==> (#[trigger] plan_locals(
                h,
                ls,
                cs,
                names,
            ).1[i]).0.spec_sync_enabled(),
    decreases ls.len(),
{
    if ls.len() > 0 {
        law_disabled_items_stay_local(h, ls.drop_last(), cs, names);
        let p = plan_locals(h, ls.drop_last(), cs, names);
        let q = plan_locals(h, ls, cs, names);
        let l = ls.last();
        assert(q.0 == p.0 || (q.0 == p.0.push(l) && l.spec_sync_enabled()));
        assert(q.1 == p.1 || (q.1.len() == p.1.len() + 1 && q.1.drop_last() == p.1 && q.1.last().0
            == l && l.spec_sync_enabled()));
        assert forall|i: int| 0 <= i < q.0.len() implies (#[trigger] q.0[i]).spec_sync_enabled() by {
            if q.0 != p.0 && i == p.0.len() {
                assert(q.0[i] == l);
            } else {
                assert(q.0[i] == p.0[i]);
            }
        }
        assert forall|i: int| 0 <= i < q.1.len() implies (#[trigger] q.1[i]).0.spec_sync_enabled() by {
            if q.1 != p.1 && i == p.1.len() {
                assert(q.1[i] == q.1.last());
            } else {
                assert(q.1[i] == q.1.drop_last()[i] || q.1 == p.1);
            }
        }
    }
}

/// A cloud record is downloaded only where no local item is linked to it
/// and its deletion is not pending.
pub proof fn law_downloads_are_unlinked_and_not_pending<H: SyncTypeHandler>(
    h: H,
    ls: Seq<H::Item>,
    cs_all: Seq<CloudSyncData>,
    cs: Seq<CloudSyncData>,
    pending: Seq<String>,
    names: Seq<(String, String)>,
)
    ensures
        forall|i: int|
            0 <= i < plan_clouds(h, ls, cs_all, cs, pending, names).1.len() ==> {
                let c = #[trigger] plan_clouds(h, ls, cs_all, cs, pending, names).1[i];
                !linked_locally(ls, c.id@) && !among(pending, c.id@)
            },
    decreases cs.len(),
{
    if cs.len() > 0 {
        law_downloads_are_unlinked_and_not_pending(h, ls, cs_all, cs.drop_last(), pending, names);
        let p = plan_clouds(h, ls, cs_all, cs.drop_last(), pending, names);
        let q = plan_clouds(h, ls, cs_all, cs, pending, names);
        let c = cs.last();
        assert(q.1 == p.1 || (q.1 == p.1.push(c) && !linked_locally(ls, c.id@) && !among(
            pending,
            c.id@,
        )));
        assert forall|i: int| 0 <= i < q.1.len() implies {
            let d = #[trigger] q.1[i];
            !linked_locally(ls, d.id@) && !among(pending, d.id@)
        } by {
            if q.1 != p.1 && i == p.1.len() {
                assert(q.1[i] == c);
            } else {
                assert(q.1[i] == p.1[i]);
            }
        }
    }
}

/// Computes the plan of one sync round.
///
/// `pending_cloud_ids` are the cloud ids whose deletion is still pending,
/// `cloud_name_map` maps cloud ids to record names. Only sync-enabled local
/// items take part; a local item linked to a missing record is uploaded
/// again; an unlinked local item is uploaded unless a cloud record has its
/// name and the handler lets it link by name. A cloud record that no local
/// item is linked to and whose deletion is not pending is matched by name to
/// a local item (an unlinked one first) or downloaded.
pub fn calculate_sync_plan<H: SyncTypeHandler>(
    pending_cloud_ids: &Vec<String>,
    handler: &H,
    local_items: &Vec<H::Item>,
    cloud_data_list: &Vec<CloudSyncData>,
    cloud_name_map: &Vec<(String, String)>,
) -> (r: Result<GenericSyncPlan<H::Item>, SyncError>)
    ensures
        r matches Ok(plan) && {
            let s = sync_plan(
                *handler,
                pending_cloud_ids@,
                local_items@,
                cloud_data_list@,
                cloud_name_map@,
            );
            &&& plan.to_upload@ == s.0
            &&& plan.to_update_cloud@ == s.1
            &&& plan.to_download@ == s.2
            &&& plan.to_update_local@ == s.3
        },
{
    let ghost h = *handler;
    let ghost ls = local_items@;
    let ghost cs = cloud_data_list@;
    let ghost names = cloud_name_map@;
    let mut to_upload: Vec<H::Item> = Vec::new();
    let mut to_update_cloud: Vec<(H::Item, CloudSyncData)> = Vec::new();
    let mut to_update_local: Vec<(CloudSyncData, H::Item)> = Vec::new();
    let mut to_download: Vec<CloudSyncData> = Vec::new();
    let mut i: usize = 0;
    while i < local_items.len()
        invariant
            i <= ls.len(),
            ls == local_items@,
            cs == cloud_data_list@,
            names == cloud_name_map@,
            h == *handler,
            (to_upload@, to_update_cloud@, to_update_local@) == plan_locals(
                h,
                ls.take(i as int),
                cs,
                names,
            ),
        decreases ls.len() - i,
    {
        let ghost t = ls.take(i + 1);
        proof {
            assert(t.drop_last() =~= ls.take(i as int));
            assert(t.last() == ls[i as int]);
        }
        let l = &local_items[i];
        if l.sync_enabled() {
            match l.cloud_id() {
                Some(cid) => {
                    match last_cloud_exec(cloud_data_list, cid) {
                        Some(k) => {
                            let c = &cloud_data_list[k];
                            let name_chars = to_chars(l.item_name());
                            if c.needs_name_backfill() && trim_chars(&name_chars).len() > 0 {
                                to_update_cloud.push((l.copy_item(), c.clone()));
                            } else {
                                let local_updated = match l.updated_at() {
                                    Some(v) => v,
                                    None => 0,
                                };
                                let cloud_updated = secs_of_millis(c.updated_at);
                                match decide_linked_sync_action(
                                    l.uses_sync_state(),
                                    local_updated,
                                    l.last_synced_at(),
                                    cloud_updated,
                                ) {
                                    LinkedSyncAction::UpdateCloud => {
                                        to_update_cloud.push((l.copy_item(), c.clone()));
                                    },
                                    LinkedSyncAction::UpdateLocal => {
                                        to_update_local.push((c.clone(), l.copy_item()));
                                    },
                                    LinkedSyncAction::Idle => {},
                                }
                            }
                        },
                        None => {
                            to_upload.push(l.copy_item());
                        },
                    }
                },
                None => {
                    let has_cloud_match = has_name_value_exec(cloud_name_map, l.item_name());
                    if !has_cloud_match || !handler.should_link_unlinked_local_by_name(l) {
                        to_upload.push(l.copy_item());
                    }
                },
            }
        }
        i = i + 1;
    }
    assert(ls.take(ls.len() as int) =~= ls);
    let mut from_cloud: Vec<(CloudSyncData, H::Item)> = Vec::new();
    let mut j: usize = 0;
    while j < cloud_data_list.len()
        invariant
            j <= cs.len(),
            ls == local_items@,
            cs == cloud_data_list@,
            names == cloud_name_map@,
            h == *handler,
            (from_cloud@, to_download@) == plan_clouds(
                h,
                ls,
                cs,
                cs.take(j as int),
                pending_cloud_ids@,
                names,
            ),
        decreases cs.len() - j,
    {
        let ghost t = cs.take(j + 1);
        proof {
            assert(t.drop_last() =~= cs.take(j as int));
            assert(t.last() == cs[j as int]);
        }
        let c = &cloud_data_list[j];
        if !linked_locally_exec(local_items, c.id.as_str()) && !among_exec(
            pending_cloud_ids,
            c.id.as_str(),
        ) {
            let n = match name_of_exec(cloud_name_map, c.id.as_str()) {
                Some(n) => n,
                None => c.id.clone(),
            };
            match last_local_by_name_exec(handler, local_items, n.as_str(), true) {
                Some(k) => {
                    from_cloud.push((c.clone(), local_items[k].copy_item()));
                },
                None => match last_local_by_name_exec(handler, local_items, n.as_str(), false) {
                    Some(k) => {
                        let l = &local_items[k];
                        let valid = match l.cloud_id() {
                            Some(cid) => last_cloud_exec(cloud_data_list, cid).is_some(),
                            None => false,
                        };
                        if !valid {
                            from_cloud.push((c.clone(), l.copy_item()));
                        }
                    },
                    None => {
                        to_download.push(c.clone());
                    },
                },
            }
        }
        j = j + 1;
    }
    assert(cs.take(cs.len() as int) =~= cs);
    let ghost pl = plan_locals(h, ls, cs, names);
    let ghost locals_part = to_update_local@;
    let mut k: usize = 0;
    while k < from_cloud.len()
        invariant
            k <= from_cloud@.len(),
            to_update_local@ == locals_part + from_cloud@.take(k as int),
        decreases from_cloud@.len() - k,
    {
        let (c, l) = (&from_cloud[k].0, &from_cloud[k].1);
        to_update_local.push((c.clone(), l.copy_item()));
        assert(from_cloud@.take(k + 1) =~= from_cloud@.take(k as int).push(from_cloud@[k as int]));
        k = k + 1;
    }
    assert(from_cloud@.take(from_cloud@.len() as int) =~= from_cloud@);
    Ok(GenericSyncPlan { to_upload, to_update_cloud, to_download, to_update_local })
}

// ---------------------------------------------------------------------------
// Cloud deletions
// ---------------------------------------------------------------------------
/// The first local item linked to the cloud id `id`.
pub open spec fn first_linked<T: SyncableItem>(ls: Seq<T>, id: Seq<char>) -> Option<T>
    decreases ls.len(),
{
    if ls.len() == 0 {
        None
    } else if ls[0].spec_cloud_id() == Some(id) {
        Some(ls[0])
    } else {
        first_linked(ls.drop_first(), id)
    }
}

/// The local ids to delete because their cloud record was deleted: for each
/// deleted record, in order, the first local item linked to it, unless it
/// has no local id or changed since its last sync.
pub open spec fn soft_targets<T: SyncableItem>(cs: Seq<CloudSyncData>, ls: Seq<T>) -> Seq<i64>
    decreases cs.len(),
{
    if cs.len() == 0 {
        Seq::empty()
    } else {
        let prev = soft_targets(cs.drop_last(), ls);
        let c = cs.last();
        if c.deleted_at is Some {
            match first_linked(ls, c.id@) {
                Some(l) => match l.spec_local_id() {
                    Some(id) => if keep_on_cloud_delete(l) {
                        prev
                    } else {
                        prev.push(id)
                    },
                    None => prev,
                },
                None => prev,
            }
        } else {
            prev
        }
    }
}

fn first_linked_exec<T: SyncableItem>(ls: &Vec<T>, id: &str) -> (r: Option<usize>)
    ensures
        match r {
            Some(k) => k < ls@.len() && first_linked(ls@, id@) == Some(ls@[k as int]),
            None => first_linked(ls@, id@) is None,
        },
{
    let mut i: usize = 0;
    assert(ls@.skip(0) =~= ls@);
    while i < ls.len()
        invariant
            i <= ls@.len(),
            first_linked(ls@, id@) == first_linked(ls@.skip(i as int), id@),
        decreases ls@.len() - i,
    {
        let ghost t = ls@.skip(i as int);
        assert(t.drop_first() =~= ls@.skip(i + 1));
        assert(t[0] == ls@[i as int]);
        if let Some(cid) = ls[i].cloud_id() {
            if str_eq(cid, id) {
                return Some(i);
            }
        }
        i = i + 1;
    }
    None
}

/// The local items that cloud deletions remove, by local id.
pub fn soft_deletion_targets<T: SyncableItem>(
    cloud_data_list: &Vec<CloudSyncData>,
    local_items: &Vec<T>,
) -> (r: Vec<i64>)
    ensures
        r@ == soft_targets(cloud_data_list@, local_items@),
{
    let ghost cs = cloud_data_list@;
    let mut out: Vec<i64> = Vec::new();
    let mut i: usize = 0;
    while i < cloud_data_list.len()
        invariant
            i <= cs.len(),
            cs == cloud_data_list@,
            out@ == soft_targets(cs.take(i as int), local_items@),
        decreases cs.len() - i,
    {
        let ghost t = cs.take(i + 1);
        assert(t.drop_last() =~= cs.take(i as int));
        let c = &cloud_data_list[i];
        if c.deleted_at.is_some() {
            if let Some(k) = first_linked_exec(local_items, c.id.as_str()) {
                let l = &local_items[k];
                if let Some(id) = l.local_id() {
                    if !should_keep_local_item_on_cloud_delete(l) {
                        out.push(id);
                    }
                }
            }
        }
        i = i + 1;
    }
    assert(cs.take(cs.len() as int) =~= cs);
    out
}

/// What to do with a workspace whose cloud deletion is pending.
#[derive(Debug, Clone, Copy, PartialEq, Eq, Structural)]
pub enum PendingDeletionDecision {
    /// Delete the cloud record.
    DeleteCloud,
    /// Forget the pending deletion.
    DropPending,
    /// The cloud record changed after the deletion was recorded: restore the
    /// workspace locally, then forget the pending deletion.
    RestoreThenDropPending,
}

/// The decision for a pending workspace deletion, given the cloud record
/// (if still listed) and the last sync time the deletion was based on.
pub open spec fn pending_decision(
    current: Option<CloudSyncData>,
    base_last_synced_at: Option<i64>,
) -> PendingDeletionDecision {
    match current {
        None => PendingDeletionDecision::DeleteCloud,
        Some(c) => if c.deleted_at is Some {
            PendingDeletionDecision::DropPending
        } else {
            match base_last_synced_at {
                None => PendingDeletionDecision::DeleteCloud,
                Some(base) => if millis_to_secs(c.updated_at) > base {
                    PendingDeletionDecision::RestoreThenDropPending
                } else {
                    PendingDeletionDecision::DeleteCloud
                },
            }
        },
    }
}

/// Whether a connection that lost its workspace when the workspace was
/// deleted locally goes back to the restored workspace: it is still in no
/// workspace and was not changed after the deletion was recorded.
pub fn should_restore_connection(
    workspace_id: Option<i64>,
    updated_at: Option<i64>,
    pending_created_at: i64,
) -> (r: bool)
    ensures
        r == (workspace_id is None && unwrap_or_zero(updated_at) <= pending_created_at),
{
    let updated = match updated_at {
        Some(t) => t,
        None => 0,
    };
    workspace_id.is_none() && updated <= pending_created_at
}

/// Decides what to do with a pending workspace deletion.
pub fn decide_pending_deletion(
    current_cloud: Option<&CloudSyncData>,
    base_last_synced_at: Option<i64>,
) -> (r: PendingDeletionDecision)
    ensures
        r == pending_decision(
            match current_cloud {
                Some(c) => Some(*c),
                None => None,
            },
            base_last_synced_at,
        ),
{
    let current = match current_cloud {
        None => return PendingDeletionDecision::DeleteCloud,
        Some(c) => c,
    };
    if current.deleted_at.is_some() {
        return PendingDeletionDecision::DropPending;
    }
    let base = match base_last_synced_at {
        None => return PendingDeletionDecision::DeleteCloud,
        Some(b) => b,
    };
    if secs_of_millis(current.updated_at) > base {
        PendingDeletionDecision::RestoreThenDropPending
    } else {
        PendingDeletionDecision::DeleteCloud
    }
}

// ---------------------------------------------------------------------------
// Operations from a plan
// ---------------------------------------------------------------------------
/// The operations for the uploads of a plan: those with a local id.
pub open spec fn upload_ops<T: SyncableItem>(us: Seq<T>) -> Seq<SyncOperation>
    decreases us.len(),
{
    if us.len() == 0 {
        Seq::empty()
    } else {
        let prev = upload_ops(us.drop_last());
        match us.last().spec_local_id() {
            Some(id) => prev.push(SyncOperation::Upload { local_id: id }),
            None => prev,
        }
    }
}

/// The operations for the cloud updates of a plan: those with a local id.
pub open spec fn update_cloud_ops<T: SyncableItem>(us: Seq<(T, CloudSyncData)>) -> Seq<
    SyncOperation,
>
    decreases us.len(),
{
    if us.len() == 0 {
        Seq::empty()
    } else {
        let prev = update_cloud_ops(us.drop_last());
        match us.last().0.spec_local_id() {
            Some(id) => prev.push(
                SyncOperation::UpdateCloud { local_id: id, cloud_id: us.last().1.id },
            ),
            None => prev,
        }
    }
}

/// The operations for the downloads of a plan.
pub open spec fn download_ops(ds: Seq<CloudSyncData>) -> Seq<SyncOperation>
    decreases ds.len(),
{
    if ds.len() == 0 {
        Seq::empty()
    } else {
        download_ops(ds.drop_last()).push(SyncOperation::Download(ds.last().id))
    }
}

/// The operations for the local updates of a plan: those with a local id.
pub open spec fn update_local_ops<T: SyncableItem>(us: Seq<(CloudSyncData, T)>) -> Seq<
    SyncOperation,
>
    decreases us.len(),
{
    if us.len() == 0 {
        Seq::empty()
    } else {
        let prev = update_local_ops(us.drop_last());
        match us.last().1.spec_local_id() {
            Some(id) => prev.push(
                SyncOperation::UpdateLocal { local_id: id, cloud_id: us.last().0.id },
            ),
            None => prev,
        }
    }
}

/// The operations of a plan: uploads, cloud updates, downloads, then local
/// updates, each in plan order.
pub open spec fn plan_ops<T: SyncableItem>(plan: GenericSyncPlan<T>) -> Seq<SyncOperation> {
    upload_ops(plan.to_upload@) + update_cloud_ops(plan.to_update_cloud@) + download_ops(
        plan.to_download@,
    ) + update_local_ops(plan.to_update_local@)
}

/// The messages for the uploads of a plan that have no local id.
pub open spec fn upload_missing<T: SyncableItem>(us: Seq<T>, kind: Seq<char>) -> Seq<Seq<char>>
    decreases us.len(),
{
    if us.len() == 0 {
        Seq::empty()
    } else {
        let prev = upload_missing(us.drop_last(), kind);
        match us.last().spec_local_id() {
            Some(_) => prev,
            None => prev.push(failure_text("上传"@, kind, us.last().spec_name(), "缺少本地 ID"@)),
        }
    }
}

/// The messages for the cloud updates of a plan that have no local id.
pub open spec fn update_cloud_missing<T: SyncableItem>(
    us: Seq<(T, CloudSyncData)>,
    kind: Seq<char>,
) -> Seq<Seq<char>>
    decreases us.len(),
{
    if us.len() == 0 {
        Seq::empty()
    } else {
        let prev = update_cloud_missing(us.drop_last(), kind);
        match us.last().0.spec_local_id() {
            Some(_) => prev,
            None => prev.push(
                failure_text("更新云端"@, kind, us.last().0.spec_name(), "缺少本地 ID"@),
            ),
        }
    }
}

/// The messages for the local updates of a plan that have no local id,
/// naming the cloud record by its recorded name.
pub open spec fn update_local_missing<T: SyncableItem>(
    us: Seq<(CloudSyncData, T)>,
    names: Seq<(String, String)>,
    kind: Seq<char>,
) -> Seq<Seq<char>>
    decreases us.len(),
{
    if us.len() == 0 {
        Seq::empty()
    } else {
        let prev = update_local_missing(us.drop_last(), names, kind);
        match us.last().1.spec_local_id() {
            Some(_) => prev,
            None => prev.push(
                failure_text("更新本地"@, kind, cloud_name(names, us.last().0), "缺少本地 ID"@),
            ),
        }
    }
}

/// The messages of a plan's entries that have no local id, in plan order.
pub open spec fn plan_missing<T: SyncableItem>(
    plan: GenericSyncPlan<T>,
    names: Seq<(String, String)>,
    kind: Seq<char>,
) -> Seq<Seq<char>> {
    upload_missing(plan.to_upload@, kind) + update_cloud_missing(plan.to_update_cloud@, kind)
        + update_local_missing(plan.to_update_local@, names, kind)
}

/// The characters of each string.
pub open spec fn texts(v: Seq<String>) -> Seq<Seq<char>> {
    v.map_values(|s: String| s@)
}

/// Turns a plan into queue operations; entries without a local id are
/// reported instead, by a message naming the item (the cloud record's
/// recorded name for local updates) and the kind of data.
pub fn plan_operations<T: SyncableItem>(
    plan: &GenericSyncPlan<T>,
    cloud_name_map: &Vec<(String, String)>,
    kind_name: &str,
) -> (r: (Vec<SyncOperation>, Vec<String>))
    ensures
        r.0@ == plan_ops(*plan),
        texts(r.1@) == plan_missing(*plan, cloud_name_map@, kind_name@),
{
    let ghost kind = kind_name@;
    let mut ops: Vec<SyncOperation> = Vec::new();
    let mut missing: Vec<String> = Vec::new();
    let mut i: usize = 0;
    while i < plan.to_upload.len()
        invariant
            i <= plan.to_upload@.len(),
            ops@ == upload_ops(plan.to_upload@.take(i as int)),
            texts(missing@) == upload_missing(plan.to_upload@.take(i as int), kind),
            kind == kind_name@,
        decreases plan.to_upload@.len() - i,
    {
        let ghost t = plan.to_upload@.take(i + 1);
        assert(t.drop_last() =~= plan.to_upload@.take(i as int));
        let item = &plan.to_upload[i];
        match item.local_id() {
            Some(id) => ops.push(SyncOperation::Upload { local_id: id }),
            None => {
                let m = failure_message("上传", kind_name, item.item_name(), "缺少本地 ID");
                let ghost before = missing@;
                missing.push(m);
                assert(texts(missing@) =~= texts(before).push(m@));
            },
        }
        i = i + 1;
    }
    assert(plan.to_upload@.take(plan.to_upload@.len() as int) =~= plan.to_upload@);
    let ghost a = ops@;
    let ghost ma = texts(missing@);
    let mut j: usize = 0;
    while j < plan.to_update_cloud.len()
        invariant
            j <= plan.to_update_cloud@.len(),
            ops@ == a + update_cloud_ops(plan.to_update_cloud@.take(j as int)),
            texts(missing@) == ma + update_cloud_missing(plan.to_update_cloud@.take(j as int), kind),
            kind == kind_name@,
        decreases plan.to_update_cloud@.len() - j,
    {
        let ghost t = plan.to_update_cloud@.take(j + 1);
        assert(t.drop_last() =~= plan.to_update_cloud@.take(j as int));
        let (item, cloud) = (&plan.to_update_cloud[j].0, &plan.to_update_cloud[j].1);
        match item.local_id() {
            Some(id) => ops.push(
                SyncOperation::UpdateCloud { local_id: id, cloud_id: cloud.id.clone() },
            ),
            None => {
                let m = failure_message("更新云端", kind_name, item.item_name(), "缺少本地 ID");
                let ghost before = missing@;
                missing.push(m);
                assert(texts(missing@) =~= texts(before).push(m@));
            },
        }
        j = j + 1;
    }
    assert(plan.to_update_cloud@.take(plan.to_update_cloud@.len() as int)
        =~= plan.to_update_cloud@);
    let ghost b = ops@;
    let mut k: usize = 0;
    while k < plan.to_download.len()
        invariant
            k <= plan.to_download@.len(),
            ops@ == b + download_ops(plan.to_download@.take(k as int)),
        decreases plan.to_download@.len() - k,
    {
        let ghost t = plan.to_download@.take(k + 1);
        assert(t.drop_last() =~= plan.to_download@.take(k as int));
        ops.push(SyncOperation::Download(plan.to_download[k].id.clone()));
        k = k + 1;
    }
    assert(plan.to_download@.take(plan.to_download@.len() as int) =~= plan.to_download@);
    let ghost c = ops@;
    let ghost mb = texts(missing@);
    let mut m: usize = 0;
    while m < plan.to_update_local.len()
        invariant
            m <= plan.to_update_local@.len(),
            ops@ == c + update_local_ops(plan.to_update_local@.take(m as int)),
            texts(missing@) == mb + update_local_missing(
                plan.to_update_local@.take(m as int),
                cloud_name_map@,
                kind,
            ),
            kind == kind_name@,
        decreases plan.to_update_local@.len() - m,
    {
        let ghost t = plan.to_update_local@.take(m + 1);
        assert(t.drop_last() =~= plan.to_update_local@.take(m as int));
        let (cloud, item) = (&plan.to_update_local[m].0, &plan.to_update_local[m].1);
        match item.local_id() {
            Some(id) => ops.push(
                SyncOperation::UpdateLocal { local_id: id, cloud_id: cloud.id.clone() },
            ),
            None => {
                let name = match name_of_exec(cloud_name_map, cloud.id.as_str()) {
                    Some(n) => n,
                    None => cloud.id.clone(),
                };
                let msg = failure_message("更新本地", kind_name, name.as_str(), "缺少本地 ID");
                let ghost before = missing@;
                missing.push(msg);
                assert(texts(missing@) =~= texts(before).push(msg@));
            },
        }
        m = m + 1;
    }
    assert(plan.to_update_local@.take(plan.to_update_local@.len() as int)
        =~= plan.to_update_local@);
    (ops, missing)
}

proof fn lemma_uploads_accounted<T: SyncableItem>(us: Seq<T>, kind: Seq<char>)
    ensures
        upload_ops(us).len() + upload_missing(us, kind).len() == us.len(),
    decreases us.len(),
{
    if us.len() > 0 {
        lemma_uploads_accounted(us.drop_last(), kind);
    }
}

proof fn lemma_cloud_updates_accounted<T: SyncableItem>(us: Seq<(T, CloudSyncData)>, kind: Seq<char>)
    ensures
        update_cloud_ops(us).len() + update_cloud_missing(us, kind).len() == us.len(),
    decreases us.len(),
{
    if us.len() > 0 {
        lemma_cloud_updates_accounted(us.drop_last(), kind);
    }
}

proof fn lemma_downloads_accounted(ds: Seq<CloudSyncData>)
    ensures
        download_ops(ds).len() == ds.len(),
    decreases ds.len(),
{
    if ds.len() > 0 {
        lemma_downloads_accounted(ds.drop_last());
    }
}

proof fn lemma_local_updates_accounted<T: SyncableItem>(
    us: Seq<(CloudSyncData, T)>,
    names: Seq<(String, String)>,
    kind: Seq<char>,
)
    ensures
        update_local_ops(us).len() + update_local_missing(us, names, kind).len() == us.len(),
    decreases us.len(),
{
    if us.len() > 0 {
        lemma_local_updates_accounted(us.drop_last(), names, kind);
    }
}

/// Every entry of a plan becomes an operation or is reported: the
/// operations and the reports together are as many as the plan's entries.
pub proof fn law_plan_entries_accounted<T: SyncableItem>(
    plan: GenericSyncPlan<T>,
    names: Seq<(String, String)>,
    kind: Seq<char>,
)
    ensures
        plan_ops(plan).len() + plan_missing(plan, names, kind).len() == plan.to_upload@.len()
            + plan.to_update_cloud@.len() + plan.to_download@.len() + plan.to_update_local@.len(),
{
    lemma_uploads_accounted(plan.to_upload@, kind);
    lemma_cloud_updates_accounted(plan.to_update_cloud@, kind);
    lemma_downloads_accounted(plan.to_download@);
    lemma_local_updates_accounted(plan.to_update_local@, names, kind);
}

} // verus!
