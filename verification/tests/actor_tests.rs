use teleflow::account::{AccountActor, AccountState};
use teleflow::messages::{AccountMessage, SignalSource, SupervisionEvent, SupervisorMessage};
use teleflow::supervisor::{SupervisorEffect, SupervisorState, SystemSupervisor};

#[test]
fn worker_flags_follow_the_mailbox() {
    let _actor = AccountActor::new();
    let mut state = AccountState::fresh("acct1".to_string());
    assert!(!state.is_running);
    assert_eq!(state.current_flow_id, None);

    state.handle(&AccountMessage::Start { flow_id: "workflow_123".to_string() });
    assert!(state.is_running);
    assert_eq!(state.current_flow_id, Some("workflow_123".to_string()));

    state.handle(&AccountMessage::Heartbeat);
    assert!(state.is_running);

    state.handle(
        &AccountMessage::Signal { source: SignalSource::Fiber, payload: vec![1, 2, 3] },
    );
    assert!(state.is_running);
    assert_eq!(state.account_id, "acct1");

    state.handle(&AccountMessage::Stop);
    assert!(!state.is_running);
    assert_eq!(state.current_flow_id, None);
}

#[test]
fn supervisor_spawns_each_account_once() {
    let _sup = SystemSupervisor::new();
    let mut state = SupervisorState::default();

    let effect = state.handle_message(
        &SupervisorMessage::SpawnAccount { account_id: "a1".to_string() },
    );
    assert_eq!(effect, SupervisorEffect::SpawnWorker { account_id: "a1".to_string() });
    state.register_spawned("a1".to_string(), 7);

    // Spawning again is a no-op.
    let effect = state.handle_message(
        &SupervisorMessage::SpawnAccount { account_id: "a1".to_string() },
    );
    assert_eq!(effect, SupervisorEffect::NoEffect);

    let status = state.status();
    assert_eq!(status.active_accounts, vec!["a1".to_string()]);
}

#[test]
fn supervisor_remove_is_idempotent() {
    let mut state = SupervisorState::default();
    state.register_spawned("a1".to_string(), 7);

    let effect = state.handle_message(
        &SupervisorMessage::RemoveAccount { account_id: "a1".to_string() },
    );
    assert_eq!(effect, SupervisorEffect::StopWorker { handle: 7 });
    assert!(state.status().active_accounts.is_empty());

    let effect = state.handle_message(
        &SupervisorMessage::RemoveAccount { account_id: "a1".to_string() },
    );
    assert_eq!(effect, SupervisorEffect::NoEffect);
}

#[test]
fn terminated_worker_is_respawned_for_the_same_account() {
    let mut state = SupervisorState::default();
    state.register_spawned("a1".to_string(), 7);
    state.register_spawned("a2".to_string(), 8);

    // a1's worker dies; the supervisor deregisters it and asks for a respawn.
    let effect = state.handle_supervisor_evt(&SupervisionEvent::ActorTerminated { handle: 7 });
    assert_eq!(effect, SupervisorEffect::SpawnWorker { account_id: "a1".to_string() });
    assert_eq!(state.status().active_accounts, vec!["a2".to_string()]);

    // The runtime spawns a fresh worker; the registry count is restored and
    // the sibling is untouched.
    state.register_spawned("a1".to_string(), 9);
    let ids = state.status().active_accounts;
    assert_eq!(ids.len(), 2);
    assert!(ids.contains(&"a1".to_string()));
    assert!(ids.contains(&"a2".to_string()));
}

#[test]
fn failures_change_nothing_until_termination() {
    let mut state = SupervisorState::default();
    state.register_spawned("a1".to_string(), 7);

    let effect = state.handle_supervisor_evt(&SupervisionEvent::ActorFailed { handle: 7 });
    assert_eq!(effect, SupervisorEffect::NoEffect);
    assert_eq!(state.status().active_accounts, vec!["a1".to_string()]);

    let effect = state.handle_supervisor_evt(&SupervisionEvent::ActorStarted { handle: 7 });
    assert_eq!(effect, SupervisorEffect::NoEffect);
    assert_eq!(state.status().active_accounts, vec!["a1".to_string()]);
}

#[test]
fn termination_of_an_unknown_handle_is_ignored() {
    let mut state = SupervisorState::default();
    state.register_spawned("a1".to_string(), 7);
    let effect = state.handle_supervisor_evt(&SupervisionEvent::ActorTerminated { handle: 99 });
    assert_eq!(effect, SupervisorEffect::NoEffect);
    assert_eq!(state.status().active_accounts, vec!["a1".to_string()]);
}
