//! The worker actor bound to one account.
//!
//! A worker holds only ephemeral runtime flags. Anything required to resume
//! a workflow correctly after a crash lives in the checkpoint store, never
//! only here: a respawned worker starts from empty flags and treats its next
//! event as cold.

use vstd::prelude::*;

use crate::instance::clone_opt_string;
use crate::messages::AccountMessage;

verus! {

/// Ephemeral, per-worker runtime flags.
pub struct AccountState {
    pub account_id: String,
    pub is_running: bool,
    pub current_flow_id: Option<String>,
}

impl Default for AccountState {
    /// Empty flags: no account bound, nothing running.
    fn default() -> (r: AccountState)
        ensures
            r.account_id@ == Seq::<char>::empty(),
            !r.is_running,
            r.current_flow_id is None,
    {
        AccountState { account_id: String::new(), is_running: false, current_flow_id: None }
    }
}

impl AccountState {
    /// The flags a freshly spawned (or respawned) worker starts from: bound
    /// to its account, with no memory of any prior run.
    pub fn fresh(account_id: String) -> (r: AccountState)
        ensures
            r.account_id == account_id,
            !r.is_running,
            r.current_flow_id is None,
    {
        AccountState { account_id, is_running: false, current_flow_id: None }
    }

    /// Apply one mailbox message to the flags. `Start` binds the flow and
    /// marks the worker running; `Stop` clears both without touching any
    /// durable instance; `Signal` and `Heartbeat` leave the flags unchanged.
    pub fn handle(&mut self, message: &AccountMessage)
        ensures
            final(self).account_id == old(self).account_id,
            match *message {
                AccountMessage::Start { flow_id } => final(self).is_running && final(self).current_flow_id == Some(flow_id),
                AccountMessage::Stop => !final(self).is_running && final(self).current_flow_id
                    is None,
                AccountMessage::Signal { .. } => *final(self) == *old(self),
                AccountMessage::Heartbeat => *final(self) == *old(self),
            },
    {
        match message {
            AccountMessage::Start { flow_id } => {
                self.is_running = true;
                self.current_flow_id = Some(flow_id.clone());
            },
            AccountMessage::Stop => {
                self.is_running = false;
                self.current_flow_id = None;
            },
            AccountMessage::Signal { .. } => (),
            AccountMessage::Heartbeat => (),
        }
    }

    /// Copy the flags. Written out so that the copy is known to carry the
    /// same value.
    pub fn duplicate(&self) -> (r: AccountState)
        ensures
            r == *self,
    {
        AccountState {
            account_id: self.account_id.clone(),
            is_running: self.is_running,
            current_flow_id: clone_opt_string(&self.current_flow_id),
        }
    }
}

/// The worker actor: behaviour only, all of whose state is an
/// `AccountState`.
pub struct AccountActor;

impl AccountActor {
    /// A worker actor value.
    pub fn new() -> (r: AccountActor) {
        AccountActor
    }
}

} // verus!
