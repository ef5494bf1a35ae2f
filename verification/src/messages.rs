//! Message protocol of the actor system.
//!
//! All messages are closed tagged-variant types, matched exhaustively, so a
//! new kind of message is enforced at every match site.

use vstd::prelude::*;

verus! {

/// Source of a perception signal.
#[derive(Clone, Copy, PartialEq, Eq, Structural, Debug)]
pub enum SignalSource {
    /// Direct component-tree read: highest accuracy.
    Fiber,
    /// Document observation: fallback.
    Dom,
    /// Vision: emergency fallback.
    Ocr,
}

/// Messages a worker actor accepts through its mailbox. The mailbox is
/// processed strictly one message at a time.
#[derive(Clone, Debug)]
pub enum AccountMessage {
    /// Start a workflow.
    Start { flow_id: String },
    /// Stop all activities; durable instance state is not touched.
    Stop,
    /// A perception signal from the bridge.
    Signal { source: SignalSource, payload: Vec<u8> },
    /// Liveness probe; no effect.
    Heartbeat,
}

/// Messages the supervisor accepts.
#[derive(Clone, Debug)]
pub enum SupervisorMessage {
    /// Spawn a worker for an account; a no-op if one is registered.
    SpawnAccount { account_id: String },
    /// Stop and deregister an account's worker; idempotent.
    RemoveAccount { account_id: String },
    /// Ask for a snapshot of the registered account identifiers.
    GetStatus,
}

/// A snapshot of the supervisor's registry.
#[derive(Clone, Debug)]
pub struct SupervisorStatus {
    pub active_accounts: Vec<String>,
}

/// A lifecycle event about one worker, delivered to the supervisor by the
/// runtime that hosts the actors.
#[derive(Clone, Copy, PartialEq, Eq, Structural, Debug)]
pub enum SupervisionEvent {
    /// The worker with this handle came up.
    ActorStarted { handle: u64 },
    /// The worker with this handle is gone; the supervisor respawns it.
    ActorTerminated { handle: u64 },
    /// The worker with this handle failed; the termination that follows
    /// performs the actual restart.
    ActorFailed { handle: u64 },
}

} // verus!
