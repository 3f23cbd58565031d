//! Restoring the backup bundle of a blob vault: which cloud items become new
//! local items, which refresh the local item linked to them, and when each
//! kind of data last changed.
use crate::models::{clone_opt_string, opt_view, Certificate, StoredConnection, SyncableItem, Workspace};
use crate::sync_plan::unwrap_or_zero;
use crate::text::str_eq;
use vstd::prelude::*;

verus! {

/// What restoring one item of a bundle does locally.
#[derive(Debug)]
pub enum BundleAction<T> {
    /// Insert a new local item.
    Insert(T),
    /// Write back the local item, refreshed from the cloud copy.
    Update(T),
}

/// A kind of data that a bundle carries.
pub trait BundleItem: SyncableItem {
    /// The local item `self` after taking over the contents of its cloud
    /// copy `cloud`, synced at `now`.
    spec fn spec_refreshed(&self, cloud: Self, now: i64) -> Self;

    /// A new local item made from the cloud copy `self`, synced at `now`;
    /// it keeps the cloud link only when `keep_link`.
    spec fn spec_fresh(&self, now: i64, keep_link: bool) -> Self;

    /// Whether a cloud copy without a cloud id is restored too (when no
    /// local item has its name).
    spec fn spec_restores_unlinked() -> bool;

    /// See `spec_refreshed`.
    fn refreshed(&self, cloud: &Self, now: i64) -> (r: Self)
        ensures
            r == self.spec_refreshed(*cloud, now),
    ;

    /// See `spec_fresh`.
    fn fresh(&self, now: i64, keep_link: bool) -> (r: Self)
        ensures
            r == self.spec_fresh(now, keep_link),
    ;

    /// See `spec_restores_unlinked`.
    fn restores_unlinked() -> (r: bool)
        ensures
            r == Self::spec_restores_unlinked(),
    ;
}

// ---------------------------------------------------------------------------
// The restore rule
// ---------------------------------------------------------------------------
/// The local item linked to cloud id `id`; of several, the last one.
pub open spec fn last_linked<T: SyncableItem>(ls: Seq<T>, id: Seq<char>) -> Option<T>
    decreases ls.len(),
{
    if ls.len() == 0 {
        None
    } else if ls.last().spec_cloud_id() == Some(id) {
        Some(ls.last())
    } else {
        last_linked(ls.drop_last(), id)
    }
}

/// Some local item is named `n`.
pub open spec fn named_locally<T: SyncableItem>(ls: Seq<T>, n: Seq<char>) -> bool {
    exists|i: int| 0 <= i < ls.len() && (#[trigger] ls[i]).spec_name() == n
}

/// What restoring the cloud copy `c` does, given the local items `ls` as
/// they were before the restore: a linked local item is refreshed when the
/// copy changed later than it (a missing time counts as 0) and is left alone
/// otherwise; a copy linked to no local item is inserted; a copy without a
/// cloud id is inserted, unlinked, only by kinds that restore such copies
/// and only when no local item has its name.
pub open spec fn restore_action<T: BundleItem>(c: T, ls: Seq<T>, now: i64) -> Option<
    BundleAction<T>,
> {
    match c.spec_cloud_id() {
        Some(id) => match last_linked(ls, id) {
            Some(l) => if unwrap_or_zero(c.spec_updated_at()) > unwrap_or_zero(
                l.spec_updated_at(),
            ) {
                Some(BundleAction::Update(l.spec_refreshed(c, now)))
            } else {
                None
            },
            None => Some(BundleAction::Insert(c.spec_fresh(now, true))),
        },
        None => if T::spec_restores_unlinked() && !named_locally(ls, c.spec_name()) {
            Some(BundleAction::Insert(c.spec_fresh(now, false)))
        } else {
            None
        },
    }
}

/// Restoring a linked cloud copy `c` of a workspace refreshes the local
/// workspace linked to it only when `c` changed later, and the refreshed
/// workspace takes `c`'s name and change time, keeps the local id and the
/// link, and is synced at `now`.
pub proof fn law_workspace_restore_takes_cloud_copy(c: Workspace, ls: Seq<Workspace>, now: i64)
    ensures
        restore_action(c, ls, now) matches Some(BundleAction::Update(w)) ==> {
            &&& c.cloud_id is Some
            &&& last_linked(ls, c.spec_cloud_id()->0) matches Some(l) && {
                &&& unwrap_or_zero(c.updated_at) > unwrap_or_zero(l.updated_at)
                &&& w.id == l.id
                &&& w.created_at == l.created_at
            }
            &&& w.name == c.name
            &&& w.updated_at == c.updated_at
            &&& w.last_synced_at == Some(now)
            &&& opt_view(w.cloud_id) == opt_view(c.cloud_id)
        },
{
    if let Some(id) = c.spec_cloud_id() {
        lemma_last_linked_has_id(ls, id);
    }
}

/// Restoring a linked cloud copy `c` of a connection refreshes the local
/// connection linked to it only when `c` changed later, and the refreshed
/// connection takes `c`'s name, parameters, remark and change time, keeps
/// the local id and the link, and is synced at `now`.
pub proof fn law_connection_restore_takes_cloud_copy(
    c: StoredConnection,
    ls: Seq<StoredConnection>,
    now: i64,
)
    ensures
        restore_action(c, ls, now) matches Some(BundleAction::Update(w)) ==> {
            &&& c.cloud_id is Some
            &&& last_linked(ls, c.spec_cloud_id()->0) matches Some(l) && {
                &&& unwrap_or_zero(c.updated_at) > unwrap_or_zero(l.updated_at)
                &&& w.id == l.id
            }
            &&& w.name == c.name
            &&& w.params == c.params
            &&& w.remark == c.remark
            &&& w.updated_at == c.updated_at
            &&& w.last_synced_at == Some(now)
            &&& opt_view(w.cloud_id) == opt_view(c.cloud_id)
        },
{
    if let Some(id) = c.spec_cloud_id() {
        lemma_last_linked_has_id(ls, id);
    }
}

/// Restoring a linked cloud copy `c` of a certificate refreshes the local
/// certificate linked to it only when `c` changed later, and the refreshed
/// certificate takes `c`'s name, kind, parameters, remark and change time,
/// keeps the local id and the link, and is synced at `now`.
pub proof fn law_certificate_restore_takes_cloud_copy(c: Certificate, ls: Seq<Certificate>, now: i64)
    ensures
        restore_action(c, ls, now) matches Some(BundleAction::Update(w)) ==> {
            &&& c.cloud_id is Some
            &&& last_linked(ls, c.spec_cloud_id()->0) matches Some(l) && {
                &&& unwrap_or_zero(c.updated_at) > unwrap_or_zero(l.updated_at)
                &&& w.id == l.id
            }
            &&& w.name == c.name
            &&& w.kind == c.kind
            &&& w.params == c.params
            &&& w.remark == c.remark
            &&& w.updated_at == c.updated_at
            &&& w.last_synced_at == Some(now)
            &&& opt_view(w.cloud_id) == opt_view(c.cloud_id)
        },
{
    if let Some(id) = c.spec_cloud_id() {
        lemma_last_linked_has_id(ls, id);
    }
}

/// The item `last_linked` finds is linked to `id`.
pub proof fn lemma_last_linked_has_id<T: SyncableItem>(ls: Seq<T>, id: Seq<char>)
    ensures
        last_linked(ls, id) matches Some(l) ==> l.spec_cloud_id() == Some(id),
    decreases ls.len(),
{
    if ls.len() > 0 && ls.last().spec_cloud_id() != Some(id) {
        lemma_last_linked_has_id(ls.drop_last(), id);
    }
}

/// The actions of restoring the cloud copies `cs`, in order.
pub open spec fn restore_actions<T: BundleItem>(cs: Seq<T>, ls: Seq<T>, now: i64) -> Seq<
    BundleAction<T>,
>
    decreases cs.len(),
{
    if cs.len() == 0 {
        Seq::empty()
    } else {
        let prev = restore_actions(cs.drop_last(), ls, now);
        match restore_action(cs.last(), ls, now) {
            Some(a) => prev.push(a),
            None => prev,
        }
    }
}

fn last_linked_index<T: SyncableItem>(ls: &Vec<T>, id: &str) -> (r: Option<usize>)
    ensures
        match r {
            Some(i) => i < ls@.len() && last_linked(ls@, id@) == Some(ls@[i as int]),
            None => last_linked(ls@, id@) is None,
        },
{
    let mut i = ls.len();
    assert(ls@.take(i as int) =~= ls@);
    while i > 0
        invariant
            i <= ls@.len(),
            last_linked(ls@, id@) == last_linked(ls@.take(i as int), id@),
        decreases i,
    {
        let ghost t = ls@.take(i as int);
        assert(t.drop_last() =~= ls@.take(i - 1));
        match ls[i - 1].cloud_id() {
            Some(c) => {
                if str_eq(c, id) {
                    return Some(i - 1);
                }
            },
            None => {},
        }
        i = i - 1;
    }
    None
}

fn named_locally_exec<T: SyncableItem>(ls: &Vec<T>, n: &str) -> (r: bool)
    ensures
        r == named_locally(ls@, n@),
{
    let mut i: usize = 0;
    while i < ls.len()
        invariant
            i <= ls@.len(),
            forall|k: int| 0 <= k < i ==> (#[trigger] ls@[k]).spec_name() != n@,
        decreases ls@.len() - i,
    {
        if str_eq(ls[i].item_name(), n) {
            return true;
        }
        i = i + 1;
    }
    false
}

/// What restoring `c` does; see `restore_action`.
pub fn restore_one<T: BundleItem>(c: &T, locals: &Vec<T>, now: i64) -> (r: Option<BundleAction<T>>)
    ensures
        r == restore_action(*c, locals@, now),
{
    match c.cloud_id() {
        Some(id) => match last_linked_index(locals, id) {
            Some(k) => {
                let l = &locals[k];
                let cloud_updated = match c.updated_at() {
                    Some(t) => t,
                    None => 0,
                };
                let local_updated = match l.updated_at() {
                    Some(t) => t,
                    None => 0,
                };
                if cloud_updated > local_updated {
                    Some(BundleAction::Update(l.refreshed(c, now)))
                } else {
                    None
                }
            },
            None => Some(BundleAction::Insert(c.fresh(now, true))),
        },
        None => {
            if T::restores_unlinked() && !named_locally_exec(locals, c.item_name()) {
                Some(BundleAction::Insert(c.fresh(now, false)))
            } else {
                None
            }
        },
    }
}

/// The actions of restoring the cloud copies of one kind of data from a
/// bundle against the local items as they were before the restore.
pub fn restore_plan<T: BundleItem>(cloud: &Vec<T>, locals: &Vec<T>, now: i64) -> (r: Vec<
    BundleAction<T>,
>)
    ensures
        r@ == restore_actions(cloud@, locals@, now),
{
    let mut out: Vec<BundleAction<T>> = Vec::new();
    let mut i: usize = 0;
    while i < cloud.len()
        invariant
            i <= cloud@.len(),
            out@ == restore_actions(cloud@.take(i as int), locals@, now),
        decreases cloud@.len() - i,
    {
        let ghost t = cloud@.take(i + 1);
        assert(t.drop_last() =~= cloud@.take(i as int));
        match restore_one(&cloud[i], locals, now) {
            Some(a) => out.push(a),
            None => {},
        }
        i = i + 1;
    }
    assert(cloud@.take(cloud@.len() as int) =~= cloud@);
    out
}

// ---------------------------------------------------------------------------
// Counting
// ---------------------------------------------------------------------------
/// How many actions insert a new item.
pub open spec fn inserts<T>(acts: Seq<BundleAction<T>>) -> nat
    decreases acts.len(),
{
    if acts.len() == 0 {
        0
    } else {
        inserts(acts.drop_last()) + if acts.last() is Insert {
            1nat
        } else {
            0nat
        }
    }
}

/// How many actions refresh an existing item.
pub open spec fn updates<T>(acts: Seq<BundleAction<T>>) -> nat
    decreases acts.len(),
{
    if acts.len() == 0 {
        0
    } else {
        updates(acts.drop_last()) + if acts.last() is Update {
            1nat
        } else {
            0nat
        }
    }
}

/// Every action inserts or refreshes.
pub proof fn lemma_counts_add_up<T>(acts: Seq<BundleAction<T>>)
    ensures
        inserts(acts) + updates(acts) == acts.len(),
    decreases acts.len(),
{
    if acts.len() > 0 {
        lemma_counts_add_up(acts.drop_last());
    }
}

/// How many actions insert and how many refresh: the counts a restore
/// reports as downloaded and updated.
pub fn restore_counts<T>(acts: &Vec<BundleAction<T>>) -> (r: (usize, usize))
    ensures
        r.0 == inserts(acts@),
        r.1 == updates(acts@),
{
    let mut ins: usize = 0;
    let mut upd: usize = 0;
    let mut i: usize = 0;
    while i < acts.len()
        invariant
            i <= acts@.len(),
            ins == inserts(acts@.take(i as int)),
            upd == updates(acts@.take(i as int)),
        decreases acts@.len() - i,
    {
        let ghost t = acts@.take(i + 1);
        assert(t.drop_last() =~= acts@.take(i as int));
        proof {
            lemma_counts_add_up(t);
        }
        match &acts[i] {
            BundleAction::Insert(_) => ins = ins + 1,
            BundleAction::Update(_) => upd = upd + 1,
        }
        i = i + 1;
    }
    assert(acts@.take(acts@.len() as int) =~= acts@);
    (ins, upd)
}

// ---------------------------------------------------------------------------
// When a kind of data last changed
// ---------------------------------------------------------------------------
/// The latest change time among the items that record one.
pub open spec fn latest_opt<T: SyncableItem>(items: Seq<T>) -> Option<i64>
    decreases items.len(),
{
    if items.len() == 0 {
        None
    } else {
        let prev = latest_opt(items.drop_last());
        match items.last().spec_updated_at() {
            None => prev,
            Some(t) => match prev {
                None => Some(t),
                Some(p) => Some(if t > p {
                    t
                } else {
                    p
                }),
            },
        }
    }
}

/// The latest change time of the items, 0 when none records one: the time
/// a bundle records for a kind of data.
pub fn latest_update<T: SyncableItem>(items: &Vec<T>) -> (r: i64)
    ensures
        r == unwrap_or_zero(latest_opt(items@)),
{
    let mut best: Option<i64> = None;
    let mut i: usize = 0;
    while i < items.len()
        invariant
            i <= items@.len(),
            best == latest_opt(items@.take(i as int)),
        decreases items@.len() - i,
    {
        let ghost t = items@.take(i + 1);
        assert(t.drop_last() =~= items@.take(i as int));
        match items[i].updated_at() {
            None => {},
            Some(u) => {
                best = match best {
                    None => Some(u),
                    Some(p) => Some(
                        if u > p {
                            u
                        } else {
                            p
                        },
                    ),
                };
            },
        }
        i = i + 1;
    }
    assert(items@.take(items@.len() as int) =~= items@);
    match best {
        Some(t) => t,
        None => 0,
    }
}

// ---------------------------------------------------------------------------
// The kinds a bundle carries
// ---------------------------------------------------------------------------
impl BundleItem for StoredConnection {
    /// Takes over the name, parameters, workspace, selected databases,
    /// remark, owner and change time of the cloud copy.
    open spec fn spec_refreshed(&self, cloud: Self, now: i64) -> Self {
        StoredConnection {
            id: self.id,
            name: cloud.name,
            connection_type: self.connection_type,
            sort_order: self.sort_order,
            workspace_id: cloud.workspace_id,
            params: cloud.params,
            selected_databases: cloud.selected_databases,
            remark: cloud.remark,
            sync_enabled: self.sync_enabled,
            cloud_id: self.cloud_id,
            last_synced_at: Some(now),
            created_at: self.created_at,
            updated_at: cloud.updated_at,
            owner_id: cloud.owner_id,
        }
    }

    open spec fn spec_fresh(&self, now: i64, keep_link: bool) -> Self {
        StoredConnection {
            id: None,
            cloud_id: if keep_link {
                self.cloud_id
            } else {
                None
            },
            last_synced_at: Some(now),
            ..*self
        }
    }

    open spec fn spec_restores_unlinked() -> bool {
        true
    }

    fn refreshed(&self, cloud: &Self, now: i64) -> (r: Self) {
        StoredConnection {
            id: self.id,
            name: cloud.name.clone(),
            connection_type: self.connection_type,
            sort_order: self.sort_order,
            workspace_id: cloud.workspace_id,
            params: cloud.params.clone(),
            selected_databases: clone_opt_string(&cloud.selected_databases),
            remark: clone_opt_string(&cloud.remark),
            sync_enabled: self.sync_enabled,
            cloud_id: clone_opt_string(&self.cloud_id),
            last_synced_at: Some(now),
            created_at: self.created_at,
            updated_at: cloud.updated_at,
            owner_id: clone_opt_string(&cloud.owner_id),
        }
    }

    fn fresh(&self, now: i64, keep_link: bool) -> (r: Self) {
        let mut c = self.clone();
        c.id = None;
        if !keep_link {
            c.cloud_id = None;
        }
        c.last_synced_at = Some(now);
        c
    }

    fn restores_unlinked() -> (r: bool) {
        true
    }
}

impl BundleItem for Workspace {
    /// Takes over the name and change time of the cloud copy.
    open spec fn spec_refreshed(&self, cloud: Self, now: i64) -> Self {
        Workspace {
            name: cloud.name,
            updated_at: cloud.updated_at,
            last_synced_at: Some(now),
            ..*self
        }
    }

    open spec fn spec_fresh(&self, now: i64, keep_link: bool) -> Self {
        Workspace {
            id: None,
            cloud_id: if keep_link {
                self.cloud_id
            } else {
                None
            },
            last_synced_at: Some(now),
            ..*self
        }
    }

    open spec fn spec_restores_unlinked() -> bool {
        false
    }

    fn refreshed(&self, cloud: &Self, now: i64) -> (r: Self) {
        let mut w = self.clone();
        w.name = cloud.name.clone();
        w.updated_at = cloud.updated_at;
        w.last_synced_at = Some(now);
        w
    }

    fn fresh(&self, now: i64, keep_link: bool) -> (r: Self) {
        let mut w = self.clone();
        w.id = None;
        if !keep_link {
            w.cloud_id = None;
        }
        w.last_synced_at = Some(now);
        w
    }

    fn restores_unlinked() -> (r: bool) {
        false
    }
}

impl BundleItem for Certificate {
    /// Takes over the name, kind, parameters, remark and change time of the
    /// cloud copy.
    open spec fn spec_refreshed(&self, cloud: Self, now: i64) -> Self {
        Certificate {
            name: cloud.name,
            kind: cloud.kind,
            params: cloud.params,
            remark: cloud.remark,
            updated_at: cloud.updated_at,
            last_synced_at: Some(now),
            ..*self
        }
    }

    open spec fn spec_fresh(&self, now: i64, keep_link: bool) -> Self {
        Certificate {
            id: None,
            cloud_id: if keep_link {
                self.cloud_id
            } else {
                None
            },
            last_synced_at: Some(now),
            ..*self
        }
    }

    open spec fn spec_restores_unlinked() -> bool {
        false
    }

    fn refreshed(&self, cloud: &Self, now: i64) -> (r: Self) {
        let mut c = self.clone();
        c.name = cloud.name.clone();
        c.kind = cloud.kind;
        c.params = cloud.params.clone();
        c.remark = clone_opt_string(&cloud.remark);
        c.updated_at = cloud.updated_at;
        c.last_synced_at = Some(now);
        c
    }

    fn fresh(&self, now: i64, keep_link: bool) -> (r: Self) {
        let mut c = self.clone();
        c.id = None;
        if !keep_link {
            c.cloud_id = None;
        }
        c.last_synced_at = Some(now);
        c
    }

    fn restores_unlinked() -> (r: bool) {
        false
    }
}

} // verus!
