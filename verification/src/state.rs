//! The serialisable state of a persisted worker-side state machine.
//!
//! Each variant is one suspend point of the lifecycle; the record is written
//! to the durable store so that execution resumes from data, not from a live
//! stack. Timestamps are kept as whole seconds since the epoch.

use vstd::prelude::*;

use crate::instance::clone_opt_string;
use crate::runtime::{fresh_instance_id, now_seconds};

verus! {

/// Execution status of a persisted state machine.
#[derive(Clone, Copy, PartialEq, Eq, Structural, Debug)]
pub enum WorkflowStatus {
    Running,
    Paused,
    Completed,
    Failed,
}

impl Default for WorkflowStatus {
    /// A fresh run is running.
    fn default() -> (r: WorkflowStatus)
        ensures
            r is Running,
    {
        WorkflowStatus::Running
    }
}

/// The step a persisted run is in.
#[derive(Clone, Debug)]
pub enum WorkflowState {
    /// Waiting for inbound messages.
    Idle { last_check_time: i64 },
    /// A message arrived; its intent is being determined.
    AnalyzingContext { message_content: String, sender_id: String },
    /// A reply is being typed, humanlike, one character at a time.
    TypingReply { target_text: String, chars_typed: usize },
    /// A send was issued; its confirmation is awaited until the deadline.
    AwaitingConfirmation { message_hash: String, timeout_at: i64 },
    /// Something needs a human; the run is parked.
    ErrorState { error_code: String, snapshot_path: Option<String> },
}

impl Default for WorkflowState {
    /// Idle as of now.
    fn default() -> (r: WorkflowState)
        ensures
            r is Idle,
    {
        WorkflowState::Idle { last_check_time: now_seconds() }
    }
}

impl WorkflowState {
    /// Copy the state. Written out so that the copy is known to carry the
    /// same value.
    pub fn duplicate(&self) -> (r: WorkflowState)
        ensures
            r == *self,
    {
        match self {
            WorkflowState::Idle { last_check_time } => WorkflowState::Idle {
                last_check_time: *last_check_time,
            },
            WorkflowState::AnalyzingContext { message_content, sender_id } =>
                WorkflowState::AnalyzingContext {
                message_content: message_content.clone(),
                sender_id: sender_id.clone(),
            },
            WorkflowState::TypingReply { target_text, chars_typed } => WorkflowState::TypingReply {
                target_text: target_text.clone(),
                chars_typed: *chars_typed,
            },
            WorkflowState::AwaitingConfirmation { message_hash, timeout_at } =>
                WorkflowState::AwaitingConfirmation {
                message_hash: message_hash.clone(),
                timeout_at: *timeout_at,
            },
            WorkflowState::ErrorState { error_code, snapshot_path } => WorkflowState::ErrorState {
                error_code: error_code.clone(),
                snapshot_path: clone_opt_string(snapshot_path),
            },
        }
    }
}

/// A complete persisted run record of one account.
#[derive(Clone, Debug)]
pub struct WorkflowInstance {
    pub id: String,
    pub account_id: String,
    pub flow_definition_id: String,
    pub state: WorkflowState,
    pub status: WorkflowStatus,
    pub created_at: i64,
    pub updated_at: i64,
}

impl WorkflowInstance {
    /// A fresh record for the account and flow: idle, running, stamped with
    /// the current time and a random identifier.
    pub fn new(account_id: &String, flow_definition_id: &String) -> (r: WorkflowInstance)
        ensures
            r.account_id@ == account_id@,
            r.flow_definition_id@ == flow_definition_id@,
            r.state is Idle,
            r.status is Running,
            r.created_at == r.updated_at,
    {
        let now = now_seconds();
        WorkflowInstance {
            id: fresh_instance_id(),
            account_id: account_id.clone(),
            flow_definition_id: flow_definition_id.clone(),
            state: WorkflowState::Idle { last_check_time: now },
            status: WorkflowStatus::Running,
            created_at: now,
            updated_at: now,
        }
    }
}

} // verus!
