//! The root supervisor: one worker per account, one-for-one restart.
//!
//! The registry of live workers is mutated only by these transition
//! functions, which the embedding process calls from the supervisor's own
//! message loop — a single writer by construction. The runtime that hosts
//! the actors performs the returned effect (spawn or stop a worker) and
//! reports back through `register_spawned` and `handle_supervisor_evt`.
//! A worker handle is an opaque comparable number standing for a live
//! mailbox.

use vstd::prelude::*;

use crate::messages::{SupervisionEvent, SupervisorMessage, SupervisorStatus};

verus! {

/// What the runtime is asked to do after a supervisor transition.
#[derive(Clone, PartialEq, Eq, Debug)]
pub enum SupervisorEffect {
    /// Nothing to do.
    NoEffect,
    /// Spawn a linked worker for the account, then report its handle
    /// through `register_spawned`.
    SpawnWorker { account_id: String },
    /// Stop the worker behind the handle.
    StopWorker { handle: u64 },
}

/// The first registered handle for the account, in registry order.
pub open spec fn reg_lookup(accounts: Seq<(String, u64)>, id: Seq<char>) -> Option<u64>
    decreases accounts.len(),
{
    if accounts.len() == 0 {
        None
    } else if accounts[0].0@ == id {
        Some(accounts[0].1)
    } else {
        reg_lookup(accounts.drop_first(), id)
    }
}

/// No two entries share an account, and no two entries share a handle.
pub open spec fn reg_wf(accounts: Seq<(String, u64)>) -> bool {
    &&& forall|i: int, j: int| 0 <= i < j < accounts.len() ==> accounts[i].0@ != accounts[j].0@
    &&& forall|i: int, j: int| 0 <= i < j < accounts.len() ==> accounts[i].1 != accounts[j].1
}

/// State of the supervisor: the account-to-worker registry.
pub struct SupervisorState {
    pub accounts: Vec<(String, u64)>,
}

impl Default for SupervisorState {
    /// An empty registry.
    fn default() -> (r: SupervisorState)
        ensures
            r.accounts@ =~= Seq::<(String, u64)>::empty(),
    {
        SupervisorState { accounts: Vec::new() }
    }
}

/// The root of the actor hierarchy.
pub struct SystemSupervisor;

impl SystemSupervisor {
    /// A supervisor value.
    pub fn new() -> (r: SystemSupervisor) {
        SystemSupervisor
    }
}

impl SupervisorState {
    /// Well-formedness: accounts and handles are unique.
    pub open spec fn wf(self) -> bool {
        reg_wf(self.accounts@)
    }

    /// The index of the entry for the account, if one exists.
    fn position_of(&self, account_id: &String) -> (r: Option<usize>)
        ensures
            r matches Some(i) ==> i < self.accounts@.len() && self.accounts@[i as int].0@
                == account_id@,
            r is None ==> forall|k: int|
                0 <= k < self.accounts@.len() ==> (#[trigger] self.accounts@[k]).0@ != account_id@,
    {
        let n = self.accounts.len();
        let mut i: usize = 0;
        while i < n
            invariant
                n == self.accounts@.len(),
                i <= n,
                forall|k: int| 0 <= k < i ==> (#[trigger] self.accounts@[k]).0@ != account_id@,
            decreases n - i,
        {
            if self.accounts[i].0 == *account_id {
                return Some(i);
            }
            i = i + 1;
        }
        None
    }

    /// Decide what one supervisor message does. Spawning an account that is
    /// already registered is a no-op: the account's existing handle, which a
    /// caller should be answered with, stays reachable as
    /// `reg_lookup(accounts, account_id)`. Removing an account deregisters
    /// it at once and asks the runtime to stop the worker; removal is
    /// idempotent.
    pub fn handle_message(&mut self, message: &SupervisorMessage) -> (r: SupervisorEffect)
        requires
            old(self).wf(),
        ensures
            final(self).wf(),
            match *message {
                SupervisorMessage::SpawnAccount { account_id } => final(self).accounts@ == old(self).accounts@ && if reg_lookup(old(self).accounts@, account_id@) is Some {
                    r == SupervisorEffect::NoEffect
                } else {
                    r == (SupervisorEffect::SpawnWorker { account_id })
                },
                SupervisorMessage::RemoveAccount { account_id } => match reg_lookup(
                    old(self).accounts@,
                    account_id@,
                ) {
                    Some(h) => r == (SupervisorEffect::StopWorker { handle: h }) && final(self).accounts@.len() == old(self).accounts@.len() - 1 && reg_lookup(
                        final(self).accounts@,
                        account_id@,
                    ) is None && (forall|c: Seq<char>|
                        c != account_id@ ==> reg_lookup(final(self).accounts@, c) == reg_lookup(
                            old(self).accounts@,
                            c,
                        )),
                    None => r == SupervisorEffect::NoEffect && final(self).accounts@ == old(self).accounts@,
                },
                SupervisorMessage::GetStatus => r == SupervisorEffect::NoEffect && final(self).accounts@ == old(self).accounts@,
            },
    {
        match message {
            SupervisorMessage::SpawnAccount { account_id } => {
                match self.position_of(account_id) {
                    Some(i) => {
                        proof {
                            lemma_reg_lookup_at(self.accounts@, account_id@, i as int);
                        }
                        SupervisorEffect::NoEffect
                    },
                    None => {
                        proof {
                            lemma_reg_lookup_none(self.accounts@, account_id@);
                        }
                        SupervisorEffect::SpawnWorker { account_id: account_id.clone() }
                    },
                }
            },
            SupervisorMessage::RemoveAccount { account_id } => {
                match self.position_of(account_id) {
                    Some(i) => {
                        proof {
                            lemma_reg_lookup_at(self.accounts@, account_id@, i as int);
                        }
                        let handle = self.accounts[i].1;
                        let ghost pre = self.accounts@;
                        self.accounts.remove(i);
                        proof {
                            lemma_reg_remove(pre, i as int);
                        }
                        SupervisorEffect::StopWorker { handle }
                    },
                    None => {
                        proof {
                            lemma_reg_lookup_none(self.accounts@, account_id@);
                        }
                        SupervisorEffect::NoEffect
                    },
                }
            },
            SupervisorMessage::GetStatus => SupervisorEffect::NoEffect,
        }
    }

    /// Record a worker the runtime spawned on this supervisor's behalf.
    pub fn register_spawned(&mut self, account_id: String, handle: u64)
        requires
            old(self).wf(),
            reg_lookup(old(self).accounts@, account_id@) is None,
            forall|k: int|
                0 <= k < old(self).accounts@.len() ==> (#[trigger] old(self).accounts@[k]).1
                    != handle,
        ensures
            final(self).wf(),
            final(self).accounts@ == old(self).accounts@.push((account_id, handle)),
            reg_lookup(final(self).accounts@, account_id@) == Some(handle),
            forall|c: Seq<char>|
                c != account_id@ ==> reg_lookup(final(self).accounts@, c) == reg_lookup(
                    old(self).accounts@,
                    c,
                ),
    {
        let ghost pre = self.accounts@;
        let ghost gid = account_id@;
        proof {
            lemma_reg_lookup_none_inv(pre, gid);
        }
        self.accounts.push((account_id, handle));
        proof {
            assert(forall|k: int| 0 <= k < pre.len() ==> self.accounts@[k] == pre[k]);
            assert(self.accounts@[pre.len() as int].0@ == gid);
            lemma_reg_lookup_at(self.accounts@, gid, pre.len() as int);
            assert forall|c: Seq<char>| c != gid implies reg_lookup(self.accounts@, c)
                == reg_lookup(pre, c) by {
                lemma_reg_push_other(pre, self.accounts@[pre.len() as int], c);
            }
        }
    }

    /// React to a lifecycle event. A termination deregisters the worker and
    /// asks the runtime to respawn the same account at once; a failure
    /// changes nothing, since the termination that follows performs the
    /// restart; failures in one worker never touch another's entry.
    pub fn handle_supervisor_evt(&mut self, event: &SupervisionEvent) -> (r: SupervisorEffect)
        requires
            old(self).wf(),
        ensures
            final(self).wf(),
            match *event {
                SupervisionEvent::ActorTerminated { handle } => match handle_entry(
                    old(self).accounts@,
                    handle,
                ) {
                    Some(entry) => r == (SupervisorEffect::SpawnWorker { account_id: entry.0 })
                        && final(self).accounts@.len() == old(self).accounts@.len() - 1
                        && reg_lookup(final(self).accounts@, entry.0@) is None && (forall|
                        c: Seq<char>,
                    |
                        c != entry.0@ ==> reg_lookup(final(self).accounts@, c) == reg_lookup(
                            old(self).accounts@,
                            c,
                        )),
                    None => r == SupervisorEffect::NoEffect && final(self).accounts@ == old(self).accounts@,
                },
                _ => r == SupervisorEffect::NoEffect && final(self).accounts@ == old(self).accounts@,
            },
    {
        match event {
            SupervisionEvent::ActorTerminated { handle } => {
                let pos = self.handle_position(*handle);
                match pos {
                    Some(i) => {
                        let account_id = self.accounts[i].0.clone();
                        let ghost pre = self.accounts@;
                        self.accounts.remove(i);
                        proof {
                            lemma_handle_entry_at(pre, *handle, i as int);
                            lemma_reg_remove(pre, i as int);
                        }
                        SupervisorEffect::SpawnWorker { account_id }
                    },
                    None => {
                        proof {
                            lemma_handle_entry_none(self.accounts@, *handle);
                        }
                        SupervisorEffect::NoEffect
                    },
                }
            },
            _ => SupervisorEffect::NoEffect,
        }
    }

    /// The index of the entry with the handle, if one exists.
    fn handle_position(&self, handle: u64) -> (r: Option<usize>)
        ensures
            r matches Some(i) ==> i < self.accounts@.len() && self.accounts@[i as int].1 == handle,
            r is None ==> forall|k: int|
                0 <= k < self.accounts@.len() ==> (#[trigger] self.accounts@[k]).1 != handle,
    {
        let n = self.accounts.len();
        let mut i: usize = 0;
        while i < n
            invariant
                n == self.accounts@.len(),
                i <= n,
                forall|k: int| 0 <= k < i ==> (#[trigger] self.accounts@[k]).1 != handle,
            decreases n - i,
        {
            if self.accounts[i].1 == handle {
                return Some(i);
            }
            i = i + 1;
        }
        None
    }

    /// A read-only snapshot of the registered account identifiers, in
    /// registry order.
    pub fn status(&self) -> (r: SupervisorStatus)
        ensures
            r.active_accounts@.len() == self.accounts@.len(),
            forall|k: int|
                0 <= k < self.accounts@.len() ==> (#[trigger] r.active_accounts@[k])@
                    == self.accounts@[k].0@,
    {
        let n = self.accounts.len();
        let mut ids: Vec<String> = Vec::new();
        let mut i: usize = 0;
        while i < n
            invariant
                n == self.accounts@.len(),
                i <= n,
                ids@.len() == i,
                forall|k: int|
                    0 <= k < i ==> (#[trigger] ids@[k])@ == self.accounts@[k].0@,
            decreases n - i,
        {
            ids.push(self.accounts[i].0.clone());
            i = i + 1;
        }
        SupervisorStatus { active_accounts: ids }
    }
}

/// The entry holding the handle, when one exists. Meaningful when handles
/// are unique.
pub open spec fn handle_entry(accounts: Seq<(String, u64)>, handle: u64) -> Option<(String, u64)> {
    if exists|k: int| 0 <= k < accounts.len() && accounts[k].1 == handle {
        Some(accounts[choose|k: int| 0 <= k < accounts.len() && accounts[k].1 == handle])
    } else {
        None
    }
}

/// When no entry carries the account, the lookup yields nothing.
proof fn lemma_reg_lookup_none(accounts: Seq<(String, u64)>, id: Seq<char>)
    requires
        forall|k: int| 0 <= k < accounts.len() ==> (#[trigger] accounts[k]).0@ != id,
    ensures
        reg_lookup(accounts, id) is None,
    decreases accounts.len(),
{
    if accounts.len() > 0 {
        lemma_reg_lookup_none(accounts.drop_first(), id);
    }
}

/// When the lookup yields nothing, no entry carries the account.
proof fn lemma_reg_lookup_none_inv(accounts: Seq<(String, u64)>, id: Seq<char>)
    requires
        reg_lookup(accounts, id) is None,
    ensures
        forall|k: int| 0 <= k < accounts.len() ==> (#[trigger] accounts[k]).0@ != id,
    decreases accounts.len(),
{
    if accounts.len() > 0 {
        lemma_reg_lookup_none_inv(accounts.drop_first(), id);
        assert forall|k: int| 0 <= k < accounts.len() implies (#[trigger] accounts[k]).0@ != id by {
            if k > 0 {
                assert(accounts.drop_first()[k - 1] == accounts[k]);
            }
        }
    }
}

/// With unique accounts, the lookup yields the entry at any index that
/// carries the account.
proof fn lemma_reg_lookup_at(accounts: Seq<(String, u64)>, id: Seq<char>, i: int)
    requires
        forall|p: int, q: int| 0 <= p < q < accounts.len() ==> accounts[p].0@ != accounts[q].0@,
        0 <= i < accounts.len(),
        accounts[i].0@ == id,
    ensures
        reg_lookup(accounts, id) == Some(accounts[i].1),
    decreases accounts.len(),
{
    if i > 0 {
        assert(accounts[0].0@ != id);
        assert forall|p: int, q: int|
            0 <= p < q < accounts.drop_first().len() implies accounts.drop_first()[p].0@
            != accounts.drop_first()[q].0@ by {
            assert(accounts.drop_first()[p] == accounts[p + 1]);
            assert(accounts.drop_first()[q] == accounts[q + 1]);
        }
        lemma_reg_lookup_at(accounts.drop_first(), id, i - 1);
    }
}

/// Appending an entry for another account leaves this account's lookup
/// unchanged.
proof fn lemma_reg_push_other(accounts: Seq<(String, u64)>, entry: (String, u64), id: Seq<char>)
    requires
        entry.0@ != id,
    ensures
        reg_lookup(accounts.push(entry), id) == reg_lookup(accounts, id),
    decreases accounts.len(),
{
    let p = accounts.push(entry);
    if accounts.len() == 0 {
        assert(p[0] == entry);
        assert(p.drop_first().len() == 0);
        assert(reg_lookup(p.drop_first(), id) is None);
    } else {
        assert(p[0] == accounts[0]);
        assert(p.drop_first() =~= accounts.drop_first().push(entry));
        lemma_reg_push_other(accounts.drop_first(), entry, id);
    }
}

/// Removing one entry deregisters exactly its account: its lookup becomes
/// empty and every other account's lookup is unchanged; well-formedness
/// survives.
proof fn lemma_reg_remove(accounts: Seq<(String, u64)>, i: int)
    requires
        reg_wf(accounts),
        0 <= i < accounts.len(),
    ensures
        reg_wf(accounts.remove(i)),
        reg_lookup(accounts.remove(i), accounts[i].0@) is None,
        forall|c: Seq<char>|
            c != accounts[i].0@ ==> reg_lookup(accounts.remove(i), c) == reg_lookup(accounts, c),
{
    let rest = accounts.remove(i);
    assert forall|p: int, q: int| 0 <= p < q < rest.len() implies rest[p].0@ != rest[q].0@
        && rest[p].1 != rest[q].1 by {
        let pp = if p < i { p } else { p + 1 };
        let qq = if q < i { q } else { q + 1 };
        assert(rest[p] == accounts[pp]);
        assert(rest[q] == accounts[qq]);
    }
    assert forall|k: int| 0 <= k < rest.len() implies (#[trigger] rest[k]).0@ != accounts[i].0@ by {
        let kk = if k < i { k } else { k + 1 };
        assert(rest[k] == accounts[kk]);
    }
    lemma_reg_lookup_none(rest, accounts[i].0@);
    assert forall|c: Seq<char>| c != accounts[i].0@ implies reg_lookup(rest, c) == reg_lookup(
        accounts,
        c,
    ) by {
        lemma_reg_remove_other(accounts, i, c);
    }
}

/// Removing an entry of another account leaves this account's lookup
/// unchanged.
proof fn lemma_reg_remove_other(accounts: Seq<(String, u64)>, i: int, c: Seq<char>)
    requires
        0 <= i < accounts.len(),
        accounts[i].0@ != c,
    ensures
        reg_lookup(accounts.remove(i), c) == reg_lookup(accounts, c),
    decreases accounts.len(),
{
    if i == 0 {
        assert(accounts.remove(0) =~= accounts.drop_first());
    } else {
        if accounts[0].0@ == c {
            assert(accounts.remove(i)[0] == accounts[0]);
        } else {
            assert(accounts.remove(i).drop_first() =~= accounts.drop_first().remove(i - 1));
            lemma_reg_remove_other(accounts.drop_first(), i - 1, c);
        }
    }
}

/// With unique handles, the entry at any index carrying the handle is the
/// entry the handle names.
proof fn lemma_handle_entry_at(accounts: Seq<(String, u64)>, handle: u64, i: int)
    requires
        reg_wf(accounts),
        0 <= i < accounts.len(),
        accounts[i].1 == handle,
    ensures
        handle_entry(accounts, handle) == Some(accounts[i]),
{
    assert(exists|k: int| 0 <= k < accounts.len() && accounts[k].1 == handle);
    let w = choose|k: int| 0 <= k < accounts.len() && accounts[k].1 == handle;
    if w != i {
        assert(accounts[w].1 != accounts[i].1);
    }
}

/// When no entry carries the handle, the handle names nothing.
proof fn lemma_handle_entry_none(accounts: Seq<(String, u64)>, handle: u64)
    requires
        forall|k: int| 0 <= k < accounts.len() ==> (#[trigger] accounts[k]).1 != handle,
    ensures
        handle_entry(accounts, handle) is None,
{
}

/// Restart isolation law: killing one worker touches no other entry. When
/// the entry at `ix` terminates and the same account is respawned under a
/// fresh handle, every other account keeps exactly its old handle, the
/// killed account is reachable again under the fresh handle, and the
/// registry is exactly as large as before. That the respawned handle differs
/// from every registered one is the actor runtime's guarantee — a handle
/// names a live mailbox, and the dead worker's was deregistered — taken here
/// as the hypothesis.
pub proof fn lemma_restart_isolation(accounts: Seq<(String, u64)>, ix: int, fresh: u64)
    requires
        reg_wf(accounts),
        0 <= ix < accounts.len(),
        forall|k: int| 0 <= k < accounts.len() ==> (#[trigger] accounts[k]).1 != fresh,
    ensures
        ({
            let killed = accounts[ix];
            let respawned = accounts.remove(ix).push((killed.0, fresh));
            &&& respawned.len() == accounts.len()
            &&& reg_wf(respawned)
            &&& reg_lookup(respawned, killed.0@) == Some(fresh)
            &&& forall|c: Seq<char>|
                c != killed.0@ ==> reg_lookup(respawned, c) == reg_lookup(accounts, c)
        }),
{
    let killed = accounts[ix];
    let rest = accounts.remove(ix);
    lemma_reg_remove(accounts, ix);
    let respawned = rest.push((killed.0, fresh));
    assert forall|k: int| 0 <= k < rest.len() implies (#[trigger] rest[k]).1 != fresh by {
        let kk = if k < ix { k } else { k + 1 };
        assert(rest[k] == accounts[kk]);
    }
    assert forall|p: int, q: int| 0 <= p < q < respawned.len() implies respawned[p].0@
        != respawned[q].0@ && respawned[p].1 != respawned[q].1 by {
        if q == rest.len() {
            assert(respawned[p] == rest[p]);
            assert(respawned[q] == (killed.0, fresh));
            assert(rest[p].0@ != killed.0@);
        } else {
            assert(respawned[p] == rest[p] && respawned[q] == rest[q]);
        }
    }
    assert(respawned[rest.len() as int].0@ == killed.0@);
    lemma_reg_lookup_at(respawned, killed.0@, rest.len() as int);
    assert forall|c: Seq<char>| c != killed.0@ implies reg_lookup(respawned, c) == reg_lookup(
        accounts,
        c,
    ) by {
        lemma_reg_push_other(rest, (killed.0, fresh), c);
    }
}

} // verus!
