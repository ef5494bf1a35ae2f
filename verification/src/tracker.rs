//! Two-tier checkpoint store mapping subjects to workflow instances.
//!
//! The durable tier holds every instance row, keyed by instance identifier;
//! it stands for the relational store, and the embedding process mirrors
//! every write of it to its database before acting on the result. The cache
//! tier is a bounded in-memory copy of active rows, keyed by subject. A
//! process crash erases the cache and nothing else: `restart` models it.
//!
//! Every write goes through the durable tier first (write-through), so a
//! save that has returned is never lost by a crash.

use vstd::prelude::*;

use crate::instance::WorkflowInstance;

verus! {

/// The row is an active instance of the subject.
pub open spec fn active_match(row: WorkflowInstance, contact: Seq<char>) -> bool {
    row.contact_id@ == contact && row.spec_is_active()
}

/// The first active row for the subject, in row order.
pub open spec fn active_for(rows: Seq<WorkflowInstance>, contact: Seq<char>) -> Option<
    WorkflowInstance,
>
    decreases rows.len(),
{
    if rows.len() == 0 {
        None
    } else if active_match(rows[0], contact) {
        Some(rows[0])
    } else {
        active_for(rows.drop_first(), contact)
    }
}

/// When no row is an active match, the lookup yields nothing.
pub proof fn lemma_active_for_none(rows: Seq<WorkflowInstance>, contact: Seq<char>)
    requires
        forall|k: int| 0 <= k < rows.len() ==> !active_match(#[trigger] rows[k], contact),
    ensures
        active_for(rows, contact) is None,
    decreases rows.len(),
{
    if rows.len() > 0 {
        lemma_active_for_none(rows.drop_first(), contact);
    }
}

/// The lookup yields the first active match.
pub proof fn lemma_active_for_first(rows: Seq<WorkflowInstance>, contact: Seq<char>, i: int)
    requires
        0 <= i < rows.len(),
        active_match(rows[i], contact),
        forall|k: int| 0 <= k < i ==> !active_match(#[trigger] rows[k], contact),
    ensures
        active_for(rows, contact) == Some(rows[i]),
    decreases rows.len(),
{
    if i > 0 {
        lemma_active_for_first(rows.drop_first(), contact, i - 1);
    }
}

/// When exactly one row matches, the lookup yields it.
pub proof fn lemma_active_for_unique(rows: Seq<WorkflowInstance>, contact: Seq<char>, i: int)
    requires
        0 <= i < rows.len(),
        active_match(rows[i], contact),
        forall|k: int| 0 <= k < rows.len() && k != i ==> !active_match(#[trigger] rows[k], contact),
    ensures
        active_for(rows, contact) == Some(rows[i]),
{
    lemma_active_for_first(rows, contact, i);
}

/// Replacing a row that does not concern the subject, with one that does not
/// either, leaves the subject's lookup unchanged.
pub proof fn lemma_active_for_update_other(
    rows: Seq<WorkflowInstance>,
    i: int,
    inst: WorkflowInstance,
    contact: Seq<char>,
)
    requires
        0 <= i < rows.len(),
        !active_match(rows[i], contact),
        !active_match(inst, contact),
    ensures
        active_for(rows.update(i, inst), contact) == active_for(rows, contact),
    decreases rows.len(),
{
    if i == 0 {
        assert(rows.update(0, inst).drop_first() =~= rows.drop_first());
    } else {
        if active_match(rows[0], contact) {
            assert(rows.update(i, inst)[0] == rows[0]);
        } else {
            assert(rows.update(i, inst).drop_first() =~= rows.drop_first().update(i - 1, inst));
            lemma_active_for_update_other(rows.drop_first(), i - 1, inst, contact);
        }
    }
}

/// Appending a row that does not concern the subject leaves the subject's
/// lookup unchanged.
pub proof fn lemma_active_for_push_other(
    rows: Seq<WorkflowInstance>,
    inst: WorkflowInstance,
    contact: Seq<char>,
)
    requires
        !active_match(inst, contact),
    ensures
        active_for(rows.push(inst), contact) == active_for(rows, contact),
    decreases rows.len(),
{
    let p = rows.push(inst);
    if rows.len() == 0 {
        assert(p.len() == 1);
        assert(p[0] == inst);
        assert(p.drop_first().len() == 0);
        assert(active_for(p.drop_first(), contact) is None);
        assert(active_for(p, contact) is None);
        assert(active_for(rows, contact) is None);
    } else {
        assert(p[0] == rows[0]);
        assert(p.drop_first() =~= rows.drop_first().push(inst));
        lemma_active_for_push_other(rows.drop_first(), inst, contact);
        if active_match(rows[0], contact) {
            assert(active_for(p, contact) == Some(p[0]));
        } else {
            assert(active_for(p, contact) == active_for(p.drop_first(), contact));
        }
    }
}

/// Some row carries the instance identifier.
pub open spec fn has_row(rows: Seq<WorkflowInstance>, id: Seq<char>) -> bool {
    exists|i: int| 0 <= i < rows.len() && rows[i].id@ == id
}

/// The index of the row carrying the identifier. Meaningful when `has_row`
/// holds and identifiers are unique.
pub open spec fn row_index(rows: Seq<WorkflowInstance>, id: Seq<char>) -> int {
    choose|i: int| 0 <= i < rows.len() && rows[i].id@ == id
}

/// The row carrying the identifier.
pub open spec fn row_for(rows: Seq<WorkflowInstance>, id: Seq<char>) -> Option<WorkflowInstance> {
    if has_row(rows, id) {
        Some(rows[row_index(rows, id)])
    } else {
        None
    }
}

/// The row a save leaves when it hits an existing row: the stored row's
/// identity and audit fields survive (definition, subject, creation stamp);
/// only the progress fields (current node, state data, status, timer, update
/// stamp) take the argument's values.
pub open spec fn merged(stored: WorkflowInstance, inst: WorkflowInstance) -> WorkflowInstance {
    WorkflowInstance {
        definition_id: stored.definition_id,
        contact_id: stored.contact_id,
        created_at: stored.created_at,
        ..inst
    }
}

/// The row a save of `inst` leaves in the store: a fresh insert as given, or
/// the merge with the row already under its identifier.
pub open spec fn saved_row(rows: Seq<WorkflowInstance>, inst: WorkflowInstance) -> WorkflowInstance {
    if has_row(rows, inst.id@) {
        merged(rows[row_index(rows, inst.id@)], inst)
    } else {
        inst
    }
}

/// Insert the instance: a new row when its identifier is fresh, else an
/// update of the existing row that keeps that row's identity and audit
/// fields.
pub open spec fn upsert(rows: Seq<WorkflowInstance>, inst: WorkflowInstance) -> Seq<
    WorkflowInstance,
> {
    if has_row(rows, inst.id@) {
        rows.update(row_index(rows, inst.id@), saved_row(rows, inst))
    } else {
        rows.push(inst)
    }
}

/// No two rows share an instance identifier.
pub open spec fn row_ids_unique(rows: Seq<WorkflowInstance>) -> bool {
    forall|i: int, j: int| 0 <= i < j < rows.len() ==> rows[i].id@ != rows[j].id@
}

/// For every subject, at most one row is active.
pub open spec fn at_most_one_active(rows: Seq<WorkflowInstance>) -> bool {
    forall|i: int, j: int|
        0 <= i < j < rows.len() && rows[i].spec_is_active() && rows[j].spec_is_active()
            ==> rows[i].contact_id@ != rows[j].contact_id@
}

/// Well-formedness of the durable tier: unique row identifiers, at most one
/// active row per subject, and each row internally consistent.
pub open spec fn rows_wf(rows: Seq<WorkflowInstance>) -> bool {
    &&& row_ids_unique(rows)
    &&& at_most_one_active(rows)
    &&& forall|i: int| 0 <= i < rows.len() ==> #[trigger] rows[i].wf()
}

/// Saving `inst` keeps the store's invariants: if it is active, any already
/// active row for its subject must be the row it replaces; and the row it
/// replaces, if any, belongs to the same subject (an instance never changes
/// subject).
pub open spec fn save_admissible(rows: Seq<WorkflowInstance>, inst: WorkflowInstance) -> bool {
    &&& (inst.spec_is_active() ==> forall|i: int|
        0 <= i < rows.len() && (#[trigger] rows[i]).spec_is_active() && rows[i].contact_id@
            == inst.contact_id@ ==> rows[i].id@ == inst.id@)
    &&& (forall|i: int|
        0 <= i < rows.len() && (#[trigger] rows[i]).id@ == inst.id@ ==> rows[i].contact_id@
            == inst.contact_id@)
}

/// Two-tier store of workflow instances: a bounded cache over a durable
/// row set.
pub struct InstanceStateTracker {
    cache: Vec<WorkflowInstance>,
    rows: Vec<WorkflowInstance>,
    capacity: usize,
}

impl InstanceStateTracker {
    /// The durable tier.
    pub closed spec fn spec_rows(self) -> Seq<WorkflowInstance> {
        self.rows@
    }

    /// The cache tier.
    pub closed spec fn spec_cache(self) -> Seq<WorkflowInstance> {
        self.cache@
    }

    /// Every cached entry is the active durable row of its subject, and no
    /// subject is cached twice.
    pub open spec fn cache_ok(self) -> bool {
        &&& forall|i: int|
            0 <= i < self.spec_cache().len() ==> (#[trigger] self.spec_cache()[i]).spec_is_active()
                && active_for(self.spec_rows(), self.spec_cache()[i].contact_id@) == Some(
                self.spec_cache()[i],
            )
        &&& forall|i: int, j: int|
            0 <= i < j < self.spec_cache().len() ==> self.spec_cache()[i].contact_id@
                != self.spec_cache()[j].contact_id@
    }

    /// Well-formedness of the whole store.
    pub open spec fn wf(self) -> bool {
        &&& rows_wf(self.spec_rows())
        &&& self.cache_ok()
    }

    /// An empty store with the default cache bound.
    pub fn new() -> (r: InstanceStateTracker)
        ensures
            r.wf(),
            r.spec_rows() =~= Seq::<WorkflowInstance>::empty(),
            r.spec_cache() =~= Seq::<WorkflowInstance>::empty(),
    {
        InstanceStateTracker { cache: Vec::new(), rows: Vec::new(), capacity: 1000 }
    }

    /// A process crash and restart: the cache is erased, the durable tier
    /// survives untouched.
    pub fn restart(&mut self)
        requires
            old(self).wf(),
        ensures
            final(self).wf(),
            final(self).spec_rows() == old(self).spec_rows(),
            final(self).spec_cache() =~= Seq::<WorkflowInstance>::empty(),
    {
        self.cache = Vec::new();
    }

    /// Drop the cached entry of one subject; the durable tier is untouched.
    pub fn invalidate(&mut self, contact_id: &String)
        requires
            old(self).wf(),
        ensures
            final(self).wf(),
            final(self).spec_rows() == old(self).spec_rows(),
            forall|i: int|
                0 <= i < final(self).spec_cache().len() ==> (#[trigger] final(self).spec_cache()[i]).contact_id@ != contact_id@,
            forall|c: Seq<char>|
                c != contact_id@ ==> cached_for(final(self).spec_cache(), c) == cached_for(
                    old(self).spec_cache(),
                    c,
                ),
    {
        let idx = self.cache_index(contact_id);
        match idx {
            Some(i) => {
                let ghost pre = self.cache@;
                self.cache.remove(i);
                proof {
                    lemma_cached_for_remove(pre, i as int, contact_id@);
                }
            },
            None => (),
        }
    }

    /// Load the active instance of a subject: from the cache when present,
    /// else from the durable tier, populating the cache on a hit.
    pub fn get_active_instance(&mut self, contact_id: &String) -> (r: Option<WorkflowInstance>)
        requires
            old(self).wf(),
        ensures
            final(self).wf(),
            final(self).spec_rows() == old(self).spec_rows(),
            r == active_for(old(self).spec_rows(), contact_id@),
    {
        let hit = self.cache_index(contact_id);
        match hit {
            Some(i) => {
                return Some(self.cache[i].duplicate());
            },
            None => (),
        }
        let n = self.rows.len();
        let mut i: usize = 0;
        while i < n
            invariant
                n == self.rows@.len(),
                i <= n,
                forall|k: int| 0 <= k < i ==> !active_match(#[trigger] self.rows@[k], contact_id@),
                old(self).wf(),
                *self == *old(self),
                forall|k: int|
                    0 <= k < self.spec_cache().len() ==> (#[trigger] self.spec_cache()[k]).contact_id@
                        != contact_id@,
            decreases n - i,
        {
            if self.rows[i].contact_id == *contact_id && self.rows[i].is_active() {
                proof {
                    lemma_active_for_first(self.rows@, contact_id@, i as int);
                }
                let found = self.rows[i].duplicate();
                if self.cache.len() < self.capacity {
                    let ghost pre = self.cache@;
                    self.cache.push(found.duplicate());
                    proof {
                        assert(forall|k: int| 0 <= k < pre.len() ==> self.cache@[k] == pre[k]);
                        assert(self.cache@[pre.len() as int] == found);
                        assert(found.contact_id@ == contact_id@);
                        let c2 = self.cache@;
                        assert forall|k: int|
                            0 <= k < c2.len() implies (#[trigger] c2[k]).spec_is_active()
                            && active_for(self.rows@, c2[k].contact_id@) == Some(c2[k]) by {
                            if k < pre.len() {
                                assert(c2[k] == pre[k]);
                            } else {
                                assert(c2[k] == found);
                            }
                        }
                        assert forall|p: int, q: int| 0 <= p < q < c2.len() implies c2[p].contact_id@
                            != c2[q].contact_id@ by {
                            if q == pre.len() {
                                assert(c2[p] == pre[p]);
                                assert(pre[p].contact_id@ != contact_id@);
                            }
                        }
                    }
                }
                return Some(found);
            }
            i = i + 1;
        }
        proof {
            lemma_active_for_none(self.rows@, contact_id@);
        }
        None
    }

    /// Persist an instance: write-through to the durable tier first, then
    /// refresh the cache. A fresh identifier appends a row; an existing one
    /// updates that row's progress fields while its identity and audit
    /// fields (definition, subject, creation stamp) survive.
    pub fn save_instance(&mut self, inst: &WorkflowInstance)
        requires
            old(self).wf(),
            inst.wf(),
            save_admissible(old(self).spec_rows(), *inst),
        ensures
            final(self).wf(),
            final(self).spec_rows() == upsert(old(self).spec_rows(), *inst),
    {
        // Drop any stale cache entry for the subject while the invariant
        // still relates cache and rows.
        self.invalidate(&inst.contact_id);
        let pos = self.row_pos(&inst.id);
        let ghost pre_rows = self.rows@;
        let written: WorkflowInstance = match pos {
            Some(i) => {
                let row = WorkflowInstance {
                    definition_id: self.rows[i].definition_id.clone(),
                    contact_id: self.rows[i].contact_id.clone(),
                    created_at: self.rows[i].created_at.clone(),
                    ..inst.duplicate()
                };
                self.rows.set(i, row.duplicate());
                proof {
                    let w = row_index(pre_rows, inst.id@);
                    assert(pre_rows[w].id@ == inst.id@);
                    assert(w == i as int);
                    assert(row == saved_row(pre_rows, *inst));
                    assert(self.rows@ =~= upsert(pre_rows, *inst));
                    lemma_save_keeps_rows_wf(pre_rows, *inst);
                    assert(pre_rows[i as int].contact_id@ == inst.contact_id@);
                    assert(row.contact_id@ == inst.contact_id@);
                    assert forall|k: int|
                        0 <= k < self.cache@.len() implies (
                    #[trigger] self.cache@[k]).spec_is_active() && active_for(
                        self.rows@,
                        self.cache@[k].contact_id@,
                    ) == Some(self.cache@[k]) by {
                        assert(self.cache@[k].contact_id@ != inst.contact_id@);
                        lemma_active_for_update_other(
                            pre_rows,
                            i as int,
                            saved_row(pre_rows, *inst),
                            self.cache@[k].contact_id@,
                        );
                    }
                }
                row
            },
            None => {
                let row = inst.duplicate();
                self.rows.push(row.duplicate());
                proof {
                    assert(row == saved_row(pre_rows, *inst));
                    assert(self.rows@ =~= upsert(pre_rows, *inst));
                    lemma_save_keeps_rows_wf(pre_rows, *inst);
                    assert forall|k: int|
                        0 <= k < self.cache@.len() implies (
                    #[trigger] self.cache@[k]).spec_is_active() && active_for(
                        self.rows@,
                        self.cache@[k].contact_id@,
                    ) == Some(self.cache@[k]) by {
                        assert(self.cache@[k].contact_id@ != inst.contact_id@);
                        lemma_active_for_push_other(pre_rows, *inst, self.cache@[k].contact_id@);
                    }
                }
                row
            },
        };
        // Refresh the cache with the row the store now holds.
        if written.is_active() {
            if self.cache.len() < self.capacity {
                let ghost pre_cache = self.cache@;
                self.cache.push(written.duplicate());
                proof {
                    assert(forall|k: int| 0 <= k < pre_cache.len() ==> self.cache@[k] == pre_cache[k]);
                    assert(self.cache@[pre_cache.len() as int] == written);
                    assert(written.contact_id@ == inst.contact_id@);
                    lemma_saved_row_is_active_lookup(pre_rows, *inst);
                }
            }
        }
    }

    /// Load the durable row with the instance identifier, whatever its
    /// status. Terminal rows stay for audit, so a completed instance is
    /// still found here.
    pub fn load_instance(&self, id: &String) -> (r: Option<WorkflowInstance>)
        requires
            self.wf(),
        ensures
            r == row_for(self.spec_rows(), id@),
    {
        match self.row_pos(id) {
            Some(i) => {
                proof {
                    let w = row_index(self.spec_rows(), id@);
                    assert(self.spec_rows()[w].id@ == id@);
                    assert(w == i as int);
                }
                Some(self.rows[i].duplicate())
            },
            None => None,
        }
    }

    /// A copy of every durable row, in row order, for mirroring to an
    /// outside store.
    pub fn snapshot(&self) -> (r: Vec<WorkflowInstance>)
        ensures
            r@ == self.spec_rows(),
    {
        let n = self.rows.len();
        let mut out: Vec<WorkflowInstance> = Vec::new();
        let mut i: usize = 0;
        while i < n
            invariant
                n == self.rows@.len(),
                i <= n,
                out@.len() == i,
                forall|k: int| 0 <= k < i ==> out@[k] == self.rows@[k],
            decreases n - i,
        {
            out.push(self.rows[i].duplicate());
            i = i + 1;
        }
        proof {
            assert(out@ =~= self.spec_rows());
        }
        out
    }

    /// Whether some durable row carries the instance identifier.
    pub fn has_instance_id(&self, id: &String) -> (r: bool)
        requires
            self.wf(),
        ensures
            r == has_row(self.spec_rows(), id@),
    {
        match self.row_pos(id) {
            Some(_) => true,
            None => false,
        }
    }

    /// The index of the row carrying the instance identifier, if one exists.
    fn row_pos(&self, id: &String) -> (r: Option<usize>)
        requires
            row_ids_unique(self.spec_rows()),
        ensures
            r matches Some(i) ==> i < self.spec_rows().len() && self.spec_rows()[i as int].id@
                == id@ && has_row(self.spec_rows(), id@),
            r is None ==> !has_row(self.spec_rows(), id@),
    {
        let n = self.rows.len();
        let mut i: usize = 0;
        while i < n
            invariant
                n == self.rows@.len(),
                i <= n,
                forall|k: int| 0 <= k < i ==> (#[trigger] self.rows@[k]).id@ != id@,
            decreases n - i,
        {
            if self.rows[i].id == *id {
                return Some(i);
            }
            i = i + 1;
        }
        None
    }

    /// The index of the cached entry for the subject, if one exists.
    fn cache_index(&self, contact_id: &String) -> (r: Option<usize>)
        ensures
            r matches Some(i) ==> i < self.spec_cache().len() && self.spec_cache()[i as int].contact_id@
                == contact_id@,
            r is None ==> forall|i: int|
                0 <= i < self.spec_cache().len() ==> (#[trigger] self.spec_cache()[i]).contact_id@
                    != contact_id@,
    {
        let n = self.cache.len();
        let mut i: usize = 0;
        while i < n
            invariant
                n == self.cache@.len(),
                i <= n,
                forall|k: int| 0 <= k < i ==> (#[trigger] self.cache@[k]).contact_id@ != contact_id@,
            decreases n - i,
        {
            if self.cache[i].contact_id == *contact_id {
                return Some(i);
            }
            i = i + 1;
        }
        None
    }
}

/// When the lookup yields nothing, no row is an active match.
pub proof fn lemma_active_for_none_inv(rows: Seq<WorkflowInstance>, contact: Seq<char>)
    requires
        active_for(rows, contact) is None,
    ensures
        forall|k: int| 0 <= k < rows.len() ==> !active_match(#[trigger] rows[k], contact),
    decreases rows.len(),
{
    if rows.len() > 0 {
        lemma_active_for_none_inv(rows.drop_first(), contact);
        assert forall|k: int| 0 <= k < rows.len() implies !active_match(
            #[trigger] rows[k],
            contact,
        ) by {
            if k > 0 {
                assert(rows.drop_first()[k - 1] == rows[k]);
            }
        }
    }
}

/// What the lookup yields is a row of the store.
pub proof fn lemma_active_for_found_index(rows: Seq<WorkflowInstance>, contact: Seq<char>)
    requires
        active_for(rows, contact) is Some,
    ensures
        exists|ix: int|
            0 <= ix < rows.len() && rows[ix] == active_for(rows, contact)->0 && active_match(
                #[trigger] rows[ix],
                contact,
            ),
    decreases rows.len(),
{
    if rows.len() > 0 {
        if active_match(rows[0], contact) {
            assert(rows[0] == active_for(rows, contact)->0 && active_match(rows[0], contact));
        } else {
            lemma_active_for_found_index(rows.drop_first(), contact);
            let ix = choose|ix: int|
                0 <= ix < rows.drop_first().len() && rows.drop_first()[ix] == active_for(
                    rows.drop_first(),
                    contact,
                )->0 && active_match(#[trigger] rows.drop_first()[ix], contact);
            assert(rows[ix + 1] == rows.drop_first()[ix]);
        }
    }
}

/// Saving an admissible, well-formed instance keeps the durable tier
/// well formed.
pub proof fn lemma_save_keeps_rows_wf(rows: Seq<WorkflowInstance>, inst: WorkflowInstance)
    requires
        rows_wf(rows),
        inst.wf(),
        save_admissible(rows, inst),
    ensures
        rows_wf(upsert(rows, inst)),
{
    let r2 = upsert(rows, inst);
    if has_row(rows, inst.id@) {
        let i = row_index(rows, inst.id@);
        assert(0 <= i < rows.len() && rows[i].id@ == inst.id@);
        let mi = saved_row(rows, inst);
        assert(r2 == rows.update(i, mi));
        assert(mi.id@ == inst.id@);
        assert(mi.contact_id@ == rows[i].contact_id@ && rows[i].contact_id@ == inst.contact_id@);
        assert(mi.spec_is_active() == inst.spec_is_active());
        assert(mi.wf());
        assert forall|p: int, q: int| 0 <= p < q < r2.len() implies r2[p].id@ != r2[q].id@ by {
            if p == i {
                assert(r2[q] == rows[q]);
                assert(rows[i].id@ != rows[q].id@);
            } else if q == i {
                assert(r2[p] == rows[p]);
                assert(rows[p].id@ != rows[i].id@);
            } else {
                assert(r2[p] == rows[p] && r2[q] == rows[q]);
            }
        }
        assert forall|p: int, q: int|
            0 <= p < q < r2.len() && r2[p].spec_is_active() && r2[q].spec_is_active() implies
        r2[p].contact_id@ != r2[q].contact_id@ by {
            if p == i {
                assert(r2[q] == rows[q]);
                if r2[q].contact_id@ == inst.contact_id@ && r2[q].spec_is_active()
                    && inst.spec_is_active() {
                    assert(rows[q].id@ == inst.id@);
                    assert(rows[i].id@ != rows[q].id@);
                }
            } else if q == i {
                assert(r2[p] == rows[p]);
                if r2[p].contact_id@ == inst.contact_id@ && r2[p].spec_is_active()
                    && inst.spec_is_active() {
                    assert(rows[p].id@ == inst.id@);
                    assert(rows[p].id@ != rows[i].id@);
                }
            } else {
                assert(r2[p] == rows[p] && r2[q] == rows[q]);
            }
        }
        assert(forall|k: int| 0 <= k < r2.len() ==> #[trigger] r2[k].wf());
    } else {
        assert(r2 == rows.push(inst));
        assert(forall|k: int| 0 <= k < rows.len() ==> r2[k] == rows[k]);
        assert(r2[rows.len() as int] == inst);
        assert forall|p: int, q: int| 0 <= p < q < r2.len() implies r2[p].id@ != r2[q].id@ by {
            if q == rows.len() {
                assert(r2[p] == rows[p]);
                assert(!has_row(rows, inst.id@));
                assert(rows[p].id@ != inst.id@);
            }
        }
        assert forall|p: int, q: int|
            0 <= p < q < r2.len() && r2[p].spec_is_active() && r2[q].spec_is_active() implies
        r2[p].contact_id@ != r2[q].contact_id@ by {
            if q == rows.len() {
                assert(r2[p] == rows[p]);
                if rows[p].spec_is_active() && rows[p].contact_id@ == inst.contact_id@
                    && inst.spec_is_active() {
                    assert(rows[p].id@ == inst.id@);
                    assert(!has_row(rows, inst.id@));
                }
            }
        }
        assert(forall|k: int| 0 <= k < r2.len() ==> #[trigger] r2[k].wf());
    }
}

/// After an admissible save of an active instance, the subject's lookup
/// yields exactly the row the save left.
pub proof fn lemma_saved_row_is_active_lookup(rows: Seq<WorkflowInstance>, inst: WorkflowInstance)
    requires
        rows_wf(rows),
        save_admissible(rows, inst),
        inst.spec_is_active(),
    ensures
        active_for(upsert(rows, inst), inst.contact_id@) == Some(saved_row(rows, inst)),
{
    let r2 = upsert(rows, inst);
    let contact = inst.contact_id@;
    if has_row(rows, inst.id@) {
        let i = row_index(rows, inst.id@);
        assert(0 <= i < rows.len() && rows[i].id@ == inst.id@);
        assert(r2[i] == saved_row(rows, inst));
        assert(r2[i].contact_id@ == rows[i].contact_id@ && rows[i].contact_id@ == inst.contact_id@);
        assert(r2[i].spec_is_active());
        assert forall|k: int| 0 <= k < r2.len() && k != i implies !active_match(
            #[trigger] r2[k],
            contact,
        ) by {
            assert(r2[k] == rows[k]);
            if rows[k].spec_is_active() && rows[k].contact_id@ == contact {
                assert(rows[k].id@ == inst.id@);
                assert(rows[k].id@ != rows[i].id@);
            }
        }
        lemma_active_for_unique(r2, contact, i);
    } else {
        let i = rows.len() as int;
        assert(r2[i] == inst);
        assert forall|k: int| 0 <= k < r2.len() && k != i implies !active_match(
            #[trigger] r2[k],
            contact,
        ) by {
            assert(r2[k] == rows[k]);
            if rows[k].spec_is_active() && rows[k].contact_id@ == contact {
                assert(rows[k].id@ == inst.id@);
                assert(has_row(rows, inst.id@));
            }
        }
        lemma_active_for_unique(r2, contact, i);
    }
}

/// The durable row under the instance's identifier, after a save, is the row
/// the save left.
pub proof fn lemma_saved_row_for_id(rows: Seq<WorkflowInstance>, inst: WorkflowInstance)
    requires
        row_ids_unique(rows),
    ensures
        row_for(upsert(rows, inst), inst.id@) == Some(saved_row(rows, inst)),
{
    let r2 = upsert(rows, inst);
    if has_row(rows, inst.id@) {
        let i = row_index(rows, inst.id@);
        assert(0 <= i < rows.len() && rows[i].id@ == inst.id@);
        assert(r2[i] == saved_row(rows, inst));
        assert(r2[i].id@ == inst.id@);
        assert(has_row(r2, inst.id@));
        let w = row_index(r2, inst.id@);
        assert(0 <= w < r2.len() && r2[w].id@ == inst.id@);
        if w != i {
            assert(r2[w] == rows[w]);
            assert(rows[w].id@ != rows[i].id@);
        }
    } else {
        let i = rows.len() as int;
        assert(r2[i] == inst);
        assert(has_row(r2, inst.id@));
        let w = row_index(r2, inst.id@);
        assert(0 <= w < r2.len() && r2[w].id@ == inst.id@);
        if w != i {
            assert(r2[w] == rows[w]);
            assert(has_row(rows, inst.id@));
        }
    }
}

/// Highlander law: one durable truth survives a crash. A successful save
/// followed by a process restart and a reload yields the instance exactly as
/// it was saved: same current node, status and state data (and timer, update
/// stamp, identifier and subject); an update keeps the stored row's
/// definition and creation stamp. The restart erases only the cache, so the
/// lookups below are what `load_instance` and `get_active_instance` report
/// afterwards.
pub proof fn lemma_checkpoint_survives_restart(rows: Seq<WorkflowInstance>, inst: WorkflowInstance)
    requires
        rows_wf(rows),
        inst.wf(),
        save_admissible(rows, inst),
    ensures
        row_for(upsert(rows, inst), inst.id@) == Some(saved_row(rows, inst)),
        saved_row(rows, inst).current_node_id == inst.current_node_id,
        saved_row(rows, inst).status == inst.status,
        saved_row(rows, inst).state_data == inst.state_data,
        saved_row(rows, inst).next_execution_time == inst.next_execution_time,
        saved_row(rows, inst).updated_at == inst.updated_at,
        saved_row(rows, inst).id == inst.id,
        saved_row(rows, inst).contact_id@ == inst.contact_id@,
        has_row(rows, inst.id@) ==> saved_row(rows, inst).definition_id == rows[row_index(
            rows,
            inst.id@,
        )].definition_id && saved_row(rows, inst).created_at == rows[row_index(
            rows,
            inst.id@,
        )].created_at,
        inst.spec_is_active() ==> active_for(upsert(rows, inst), inst.contact_id@) == Some(
            saved_row(rows, inst),
        ),
{
    lemma_saved_row_for_id(rows, inst);
    if has_row(rows, inst.id@) {
        let i = row_index(rows, inst.id@);
        assert(0 <= i < rows.len() && rows[i].id@ == inst.id@);
        assert(rows[i].contact_id@ == inst.contact_id@);
    }
    if inst.spec_is_active() {
        lemma_saved_row_is_active_lookup(rows, inst);
    }
}

/// Saving the terminal state of the subject's only active instance leaves
/// the subject with no active instance.
pub proof fn lemma_complete_clears_active(rows: Seq<WorkflowInstance>, inst: WorkflowInstance)
    requires
        rows_wf(rows),
        inst.wf(),
        save_admissible(rows, inst),
        !inst.spec_is_active(),
        forall|k: int|
            0 <= k < rows.len() && active_match(#[trigger] rows[k], inst.contact_id@)
                ==> rows[k].id@ == inst.id@,
    ensures
        active_for(upsert(rows, inst), inst.contact_id@) is None,
{
    let r2 = upsert(rows, inst);
    let contact = inst.contact_id@;
    if has_row(rows, inst.id@) {
        let i = row_index(rows, inst.id@);
        assert(0 <= i < rows.len() && rows[i].id@ == inst.id@);
        assert forall|k: int| 0 <= k < r2.len() implies !active_match(#[trigger] r2[k], contact) by {
            if k == i {
                assert(r2[k] == saved_row(rows, inst));
                assert(!r2[k].spec_is_active());
            } else {
                assert(r2[k] == rows[k]);
                if active_match(rows[k], contact) {
                    assert(rows[k].id@ == inst.id@);
                    assert(rows[k].id@ != rows[i].id@);
                }
            }
        }
        lemma_active_for_none(r2, contact);
    } else {
        assert forall|k: int| 0 <= k < r2.len() implies !active_match(#[trigger] r2[k], contact) by {
            if k == rows.len() {
                assert(r2[k] == inst);
            } else {
                assert(r2[k] == rows[k]);
                if active_match(rows[k], contact) {
                    assert(rows[k].id@ == inst.id@);
                    assert(has_row(rows, inst.id@));
                }
            }
        }
        lemma_active_for_none(r2, contact);
    }
}

/// How many rows are active for the subject.
pub open spec fn active_count(rows: Seq<WorkflowInstance>, contact: Seq<char>) -> nat
    decreases rows.len(),
{
    if rows.len() == 0 {
        0
    } else {
        active_count(rows.drop_first(), contact) + (if active_match(rows[0], contact) {
            1nat
        } else {
            0nat
        })
    }
}

/// With no active match anywhere, the count is zero.
proof fn lemma_active_count_zero(rows: Seq<WorkflowInstance>, contact: Seq<char>)
    requires
        forall|k: int| 0 <= k < rows.len() ==> !active_match(#[trigger] rows[k], contact),
    ensures
        active_count(rows, contact) == 0,
    decreases rows.len(),
{
    if rows.len() > 0 {
        lemma_active_count_zero(rows.drop_first(), contact);
    }
}

/// At-most-one-active law: a well-formed store reports zero or one active
/// instance for every subject, never more.
pub proof fn lemma_at_most_one_active_count(rows: Seq<WorkflowInstance>, contact: Seq<char>)
    requires
        at_most_one_active(rows),
    ensures
        active_count(rows, contact) <= 1,
    decreases rows.len(),
{
    if rows.len() > 0 {
        let rest = rows.drop_first();
        if active_match(rows[0], contact) {
            assert forall|k: int| 0 <= k < rest.len() implies !active_match(
                #[trigger] rest[k],
                contact,
            ) by {
                assert(rest[k] == rows[k + 1]);
            }
            lemma_active_count_zero(rest, contact);
        } else {
            assert(at_most_one_active(rest)) by {
                assert forall|p: int, q: int|
                    0 <= p < q < rest.len() && rest[p].spec_is_active()
                        && rest[q].spec_is_active() implies rest[p].contact_id@
                    != rest[q].contact_id@ by {
                    assert(rest[p] == rows[p + 1] && rest[q] == rows[q + 1]);
                }
            }
            lemma_at_most_one_active_count(rest, contact);
        }
    }
}

/// The first cached entry for the subject, in cache order.
pub open spec fn cached_for(cache: Seq<WorkflowInstance>, contact: Seq<char>) -> Option<
    WorkflowInstance,
>
    decreases cache.len(),
{
    if cache.len() == 0 {
        None
    } else if cache[0].contact_id@ == contact {
        Some(cache[0])
    } else {
        cached_for(cache.drop_first(), contact)
    }
}

/// Removing an entry keyed to one subject leaves lookups of other subjects
/// unchanged.
proof fn lemma_cached_for_remove(cache: Seq<WorkflowInstance>, i: int, removed: Seq<char>)
    requires
        0 <= i < cache.len(),
        cache[i].contact_id@ == removed,
        forall|p: int, q: int|
            0 <= p < q < cache.len() ==> cache[p].contact_id@ != cache[q].contact_id@,
    ensures
        forall|c: Seq<char>|
            c != removed ==> cached_for(cache.remove(i), c) == cached_for(cache, c),
    decreases cache.len(),
{
    assert forall|c: Seq<char>| c != removed implies cached_for(cache.remove(i), c) == cached_for(
        cache,
        c,
    ) by {
        lemma_cached_for_remove_one(cache, i, c);
    }
}

/// Removing one entry whose subject differs from `c` leaves the lookup of
/// `c` unchanged.
proof fn lemma_cached_for_remove_one(cache: Seq<WorkflowInstance>, i: int, c: Seq<char>)
    requires
        0 <= i < cache.len(),
        cache[i].contact_id@ != c,
    ensures
        cached_for(cache.remove(i), c) == cached_for(cache, c),
    decreases cache.len(),
{
    if i == 0 {
        assert(cache.remove(0) =~= cache.drop_first());
    } else {
        if cache[0].contact_id@ == c {
            assert(cache.remove(i)[0] == cache[0]);
        } else {
            assert(cache.remove(i).drop_first() =~= cache.drop_first().remove(i - 1));
            lemma_cached_for_remove_one(cache.drop_first(), i - 1, c);
        }
    }
}

} // verus!
