use teleflow::engine::{Action, WorkflowEngine};
use teleflow::error::{DefinitionError, EngineError};
use teleflow::instance::{InstanceStatus, WorkflowInstance};
use teleflow::models::Message;
use teleflow::schema::{Edge, EdgeCondition, Node, NodeConfig, NodeType, WorkflowDefinition};

fn node(id: &str, kind: NodeType, config: NodeConfig) -> Node {
    Node { id: id.to_string(), kind, config }
}

fn edge(id: &str, source: &str, target: &str, condition: Option<EdgeCondition>) -> Edge {
    Edge {
        id: id.to_string(),
        source: source.to_string(),
        target: target.to_string(),
        condition,
    }
}

fn definition(id: &str, nodes: Vec<Node>, edges: Vec<Edge>) -> WorkflowDefinition {
    WorkflowDefinition {
        id: id.to_string(),
        name: "Test WF".to_string(),
        version: "1.0".to_string(),
        nodes,
        edges,
        created_at: String::new(),
        updated_at: String::new(),
    }
}

/// The greeting flow: Start -> SendMessage("Hello") -> WaitForResponse, with
/// a keyword edge from the wait node to End.
fn greeting_definition() -> WorkflowDefinition {
    definition(
        "wf1",
        vec![
            node("start", NodeType::Start, NodeConfig::Start),
            node(
                "msg1",
                NodeType::SendMessage,
                NodeConfig::SendMessage { content: "Hello".to_string() },
            ),
            node(
                "wait",
                NodeType::WaitForResponse,
                NodeConfig::WaitForResponse { timeout_seconds: None },
            ),
            node("end", NodeType::End, NodeConfig::End),
        ],
        vec![
            edge("e1", "start", "msg1", None),
            edge("e2", "msg1", "wait", None),
            edge(
                "e3",
                "wait",
                "end",
                Some(EdgeCondition::KeywordMatch { keyword: "yes".to_string() }),
            ),
        ],
    )
}

fn proto(id: &str, definition_id: &str, contact_id: &str) -> WorkflowInstance {
    WorkflowInstance {
        id: id.to_string(),
        definition_id: definition_id.to_string(),
        contact_id: contact_id.to_string(),
        current_node_id: None,
        state_data: Some("{}".to_string()),
        status: InstanceStatus::Running,
        next_execution_time: None,
        created_at: "2025-01-01T00:00:00Z".to_string(),
        updated_at: "2025-01-01T00:00:00Z".to_string(),
    }
}

fn message(sender: &str, content: &str) -> Message {
    Message {
        id: "m1".to_string(),
        conversation_id: "c1".to_string(),
        sender_id: sender.to_string(),
        content: content.to_string(),
        message_type: "text".to_string(),
        status: "received".to_string(),
        created_at: "2025-01-01T00:00:00Z".to_string(),
    }
}

#[test]
fn scenario_start_reaches_wait_and_sends_hello() {
    let mut engine = WorkflowEngine::new();
    engine.save_definition(greeting_definition()).unwrap();

    let actions = engine.start_workflow(&"wf1".to_string(), &"u1".to_string()).unwrap();
    assert_eq!(actions, vec![Action::Send { content: "Hello".to_string() }]);

    let inst = engine.get_active_instance(&"u1".to_string()).unwrap();
    assert_eq!(inst.current_node_id, Some("wait".to_string()));
    assert_eq!(inst.status, InstanceStatus::WaitingForResponse);
}

#[test]
fn scenario_unmatched_event_is_not_consumed() {
    let mut engine = WorkflowEngine::new();
    engine.save_definition(greeting_definition()).unwrap();
    engine.start_workflow(&"wf1".to_string(), &"u1".to_string()).unwrap();

    let (consumed, actions) = engine.process_message(&message("u1", "no")).unwrap();
    assert!(!consumed);
    assert!(actions.is_empty());

    let inst = engine.get_active_instance(&"u1".to_string()).unwrap();
    assert_eq!(inst.current_node_id, Some("wait".to_string()));
    assert_eq!(inst.status, InstanceStatus::WaitingForResponse);
}

#[test]
fn scenario_matched_event_completes_instance() {
    let mut engine = WorkflowEngine::new();
    engine.save_definition(greeting_definition()).unwrap();
    engine.start_with(proto("i1", "wf1", "u1"), 1000).unwrap();

    let (consumed, actions) = engine.process_message(&message("u1", "yes please")).unwrap();
    assert!(consumed);
    assert!(actions.is_empty());

    assert!(engine.get_active_instance(&"u1".to_string()).is_none());
    let row = engine.tracker().load_instance(&"i1".to_string()).unwrap();
    assert_eq!(row.status, InstanceStatus::Completed);
    assert_eq!(row.current_node_id, None);
}

#[test]
fn scenario_unconditional_cycle_is_reported() {
    let def = definition(
        "looping",
        vec![
            node("start", NodeType::Start, NodeConfig::Start),
            node(
                "msg",
                NodeType::SendMessage,
                NodeConfig::SendMessage { content: "again".to_string() },
            ),
        ],
        vec![
            edge("e1", "start", "msg", None),
            edge("e2", "msg", "msg", Some(EdgeCondition::Always)),
        ],
    );
    let mut engine = WorkflowEngine::new();
    engine.save_definition(def).unwrap();

    let r = engine.start_workflow(&"looping".to_string(), &"u1".to_string());
    assert_eq!(
        r.unwrap_err(),
        EngineError::Definition(DefinitionError::PossibleInfiniteLoop)
    );
    // The creation write survives: the instance sits at its last persisted
    // node, the start node.
    let inst = engine.get_active_instance(&"u1".to_string()).unwrap();
    assert_eq!(inst.current_node_id, Some("start".to_string()));
    assert_eq!(inst.status, InstanceStatus::Running);
}

#[test]
fn second_start_fails_concurrency_violation() {
    let mut engine = WorkflowEngine::new();
    engine.save_definition(greeting_definition()).unwrap();
    engine.start_workflow(&"wf1".to_string(), &"u1".to_string()).unwrap();

    let again = engine.start_workflow(&"wf1".to_string(), &"u1".to_string());
    assert_eq!(again.unwrap_err(), EngineError::ConcurrencyViolation);
    // No second row: the first instance is untouched.
    let inst = engine.get_active_instance(&"u1".to_string()).unwrap();
    assert_eq!(inst.current_node_id, Some("wait".to_string()));
}

#[test]
fn start_with_unknown_definition_fails() {
    let mut engine = WorkflowEngine::new();
    let r = engine.start_workflow(&"missing".to_string(), &"u1".to_string());
    assert_eq!(r.unwrap_err(), EngineError::DefinitionNotFound);
}

#[test]
fn start_without_start_node_fails() {
    let def = definition(
        "no_start",
        vec![node("end", NodeType::End, NodeConfig::End)],
        vec![],
    );
    let mut engine = WorkflowEngine::new();
    engine.save_definition(def).unwrap();
    let r = engine.start_workflow(&"no_start".to_string(), &"u1".to_string());
    assert_eq!(
        r.unwrap_err(),
        EngineError::Definition(DefinitionError::NoStartNode)
    );
}

#[test]
fn start_with_two_start_nodes_fails() {
    let def = definition(
        "two_starts",
        vec![
            node("s1", NodeType::Start, NodeConfig::Start),
            node("s2", NodeType::Start, NodeConfig::Start),
            node("end", NodeType::End, NodeConfig::End),
        ],
        vec![edge("e1", "s1", "end", None), edge("e2", "s2", "end", None)],
    );
    let mut engine = WorkflowEngine::new();
    engine.save_definition(def).unwrap();
    let r = engine.start_workflow(&"two_starts".to_string(), &"u1".to_string());
    assert_eq!(
        r.unwrap_err(),
        EngineError::Definition(DefinitionError::AmbiguousStart)
    );
}

#[test]
fn message_node_without_outgoing_edge_fails() {
    let def = definition(
        "stuck",
        vec![
            node("start", NodeType::Start, NodeConfig::Start),
            node(
                "msg",
                NodeType::SendMessage,
                NodeConfig::SendMessage { content: "Hi".to_string() },
            ),
        ],
        vec![edge("e1", "start", "msg", None)],
    );
    let mut engine = WorkflowEngine::new();
    engine.save_definition(def).unwrap();
    let r = engine.start_workflow(&"stuck".to_string(), &"u1".to_string());
    assert_eq!(
        r.unwrap_err(),
        EngineError::Definition(DefinitionError::NoEligibleEdge)
    );
}

#[test]
fn duplicate_node_identifier_is_rejected() {
    let def = definition(
        "dup",
        vec![
            node("start", NodeType::Start, NodeConfig::Start),
            node("start", NodeType::End, NodeConfig::End),
        ],
        vec![],
    );
    let mut engine = WorkflowEngine::new();
    let r = engine.save_definition(def);
    assert_eq!(r.unwrap_err(), DefinitionError::DuplicateNode);
}

#[test]
fn dangling_edge_is_rejected_at_load() {
    let def = definition(
        "dangling",
        vec![node("start", NodeType::Start, NodeConfig::Start)],
        vec![edge("e1", "start", "ghost", None)],
    );
    let mut engine = WorkflowEngine::new();
    let r = engine.save_definition(def);
    assert_eq!(r.unwrap_err(), DefinitionError::DanglingEdge);
}

#[test]
fn bad_pattern_is_rejected_at_load() {
    let def = definition(
        "badpat",
        vec![
            node("start", NodeType::Start, NodeConfig::Start),
            node(
                "wait",
                NodeType::WaitForResponse,
                NodeConfig::WaitForResponse { timeout_seconds: None },
            ),
            node("end", NodeType::End, NodeConfig::End),
        ],
        vec![
            edge("e1", "start", "wait", None),
            edge(
                "e2",
                "wait",
                "end",
                Some(EdgeCondition::RegexMatch { pattern: "foo(bar".to_string() }),
            ),
        ],
    );
    let mut engine = WorkflowEngine::new();
    let r = engine.save_definition(def);
    assert_eq!(r.unwrap_err(), DefinitionError::InvalidPattern);
}

#[test]
fn duplicate_instance_identifier_is_rejected() {
    let mut engine = WorkflowEngine::new();
    engine.save_definition(greeting_definition()).unwrap();
    engine.start_with(proto("i1", "wf1", "u1"), 1000).unwrap();
    let r = engine.start_with(proto("i1", "wf1", "u2"), 1000);
    assert_eq!(r.unwrap_err(), EngineError::DuplicateInstanceId);
}

#[test]
fn regex_edge_matches_digits() {
    let def = definition(
        "rex",
        vec![
            node("start", NodeType::Start, NodeConfig::Start),
            node(
                "wait",
                NodeType::WaitForResponse,
                NodeConfig::WaitForResponse { timeout_seconds: None },
            ),
            node("end", NodeType::End, NodeConfig::End),
        ],
        vec![
            edge("e1", "start", "wait", None),
            edge(
                "e2",
                "wait",
                "end",
                Some(EdgeCondition::RegexMatch { pattern: r"\d\d\d".to_string() }),
            ),
        ],
    );
    let mut engine = WorkflowEngine::new();
    engine.save_definition(def).unwrap();
    engine.start_workflow(&"rex".to_string(), &"u1".to_string()).unwrap();

    let (consumed, _) = engine.process_message(&message("u1", "code ab12")).unwrap();
    assert!(!consumed);
    let (consumed, _) = engine.process_message(&message("u1", "code 123 now")).unwrap();
    assert!(consumed);
    assert!(engine.get_active_instance(&"u1".to_string()).is_none());
}

#[test]
fn fallback_edge_wins_only_when_nothing_matches() {
    let def = definition(
        "fb",
        vec![
            node("start", NodeType::Start, NodeConfig::Start),
            node(
                "wait",
                NodeType::WaitForResponse,
                NodeConfig::WaitForResponse { timeout_seconds: None },
            ),
            node(
                "yes",
                NodeType::SendMessage,
                NodeConfig::SendMessage { content: "good".to_string() },
            ),
            node(
                "other",
                NodeType::SendMessage,
                NodeConfig::SendMessage { content: "pardon".to_string() },
            ),
            node("end", NodeType::End, NodeConfig::End),
        ],
        vec![
            edge("e1", "start", "wait", None),
            edge(
                "e2",
                "wait",
                "other",
                Some(EdgeCondition::Fallback),
            ),
            edge(
                "e3",
                "wait",
                "yes",
                Some(EdgeCondition::KeywordMatch { keyword: "yes".to_string() }),
            ),
            edge("e4", "yes", "end", None),
            edge("e5", "other", "end", None),
        ],
    );
    let mut engine = WorkflowEngine::new();
    engine.save_definition(def).unwrap();

    // The keyword edge wins over the earlier fallback edge in the first pass.
    engine.start_with(proto("i1", "fb", "u1"), 0).unwrap();
    let (consumed, actions) = engine.process_message(&message("u1", "yes")).unwrap();
    assert!(consumed);
    assert_eq!(actions, vec![Action::Send { content: "good".to_string() }]);

    // With nothing matching, the first fallback edge is taken.
    engine.start_with(proto("i2", "fb", "u2"), 0).unwrap();
    let (consumed, actions) = engine.process_message(&message("u2", "hmm")).unwrap();
    assert!(consumed);
    assert_eq!(actions, vec![Action::Send { content: "pardon".to_string() }]);
}

#[test]
fn timeout_path_takes_only_timeout_edges() {
    let def = definition(
        "tmo",
        vec![
            node("start", NodeType::Start, NodeConfig::Start),
            node(
                "wait",
                NodeType::WaitForResponse,
                NodeConfig::WaitForResponse { timeout_seconds: Some(30) },
            ),
            node(
                "nudge",
                NodeType::SendMessage,
                NodeConfig::SendMessage { content: "still there?".to_string() },
            ),
            node("end", NodeType::End, NodeConfig::End),
        ],
        vec![
            edge("e1", "start", "wait", None),
            edge(
                "e2",
                "wait",
                "end",
                Some(EdgeCondition::KeywordMatch { keyword: "yes".to_string() }),
            ),
            edge("e3", "wait", "nudge", Some(EdgeCondition::Timeout)),
            edge("e4", "nudge", "end", None),
        ],
    );
    let mut engine = WorkflowEngine::new();
    engine.save_definition(def).unwrap();
    engine.start_with(proto("i1", "tmo", "u1"), 1000).unwrap();

    let inst = engine.get_active_instance(&"u1".to_string()).unwrap();
    assert_eq!(inst.next_execution_time, Some(1030));

    let (consumed, actions) = engine.process_timeout(&"u1".to_string()).unwrap();
    assert!(consumed);
    assert_eq!(actions, vec![Action::Send { content: "still there?".to_string() }]);
    assert!(engine.get_active_instance(&"u1".to_string()).is_none());
}

#[test]
fn add_tag_node_emits_tag_action() {
    let def = definition(
        "tagging",
        vec![
            node("start", NodeType::Start, NodeConfig::Start),
            node("tag", NodeType::AddTag, NodeConfig::AddTag { tag: "lead".to_string() }),
            node("end", NodeType::End, NodeConfig::End),
        ],
        vec![edge("e1", "start", "tag", None), edge("e2", "tag", "end", None)],
    );
    let mut engine = WorkflowEngine::new();
    engine.save_definition(def).unwrap();
    let actions = engine.start_workflow(&"tagging".to_string(), &"u1".to_string()).unwrap();
    assert_eq!(actions, vec![Action::Tag { tag: "lead".to_string() }]);
    assert!(engine.get_active_instance(&"u1".to_string()).is_none());
}

#[test]
fn checkpoint_survives_restart() {
    let mut engine = WorkflowEngine::new();
    engine.save_definition(greeting_definition()).unwrap();
    engine.start_with(proto("i1", "wf1", "u1"), 1000).unwrap();

    // A crash erases only the cache; the durable rows survive.
    engine.restart();

    let inst = engine.get_active_instance(&"u1".to_string()).unwrap();
    assert_eq!(inst.current_node_id, Some("wait".to_string()));
    assert_eq!(inst.status, InstanceStatus::WaitingForResponse);
    assert_eq!(inst.state_data, Some("{}".to_string()));
}

#[test]
fn redelivered_event_is_not_consumed_twice() {
    let mut engine = WorkflowEngine::new();
    engine.save_definition(greeting_definition()).unwrap();
    engine.start_with(proto("i1", "wf1", "u1"), 1000).unwrap();

    let msg = message("u1", "yes please");
    let (first, _) = engine.process_message(&msg).unwrap();
    let (second, actions) = engine.process_message(&msg).unwrap();
    assert!(first);
    assert!(!second);
    assert!(actions.is_empty());
    let row = engine.tracker().load_instance(&"i1".to_string()).unwrap();
    assert_eq!(row.status, InstanceStatus::Completed);
}

#[test]
fn events_for_unknown_subjects_are_ignored() {
    let mut engine = WorkflowEngine::new();
    engine.save_definition(greeting_definition()).unwrap();
    let (consumed, actions) = engine.process_message(&message("stranger", "yes")).unwrap();
    assert!(!consumed);
    assert!(actions.is_empty());
}

#[test]
fn conflicting_save_keeps_identity_and_audit_fields() {
    let mut tracker = teleflow::tracker::InstanceStateTracker::new();
    let mut first = proto("i1", "wf1", "u1");
    first.current_node_id = Some("start".to_string());
    first.created_at = "2025-01-01T00:00:00Z".to_string();
    first.updated_at = "2025-01-01T00:00:00Z".to_string();
    tracker.save_instance(&first);

    // A later save under the same identifier carries moved progress fields
    // and (wrongly) different identity fields; the stored row keeps its
    // definition, subject and creation stamp, and takes only the progress.
    let mut second = proto("i1", "wf_other", "u1");
    second.current_node_id = Some("wait".to_string());
    second.status = InstanceStatus::WaitingForResponse;
    second.next_execution_time = Some(99);
    second.created_at = "2026-06-06T06:06:06Z".to_string();
    second.updated_at = "2025-01-02T00:00:00Z".to_string();
    tracker.save_instance(&second);

    let row = tracker.load_instance(&"i1".to_string()).unwrap();
    assert_eq!(row.definition_id, "wf1");
    assert_eq!(row.contact_id, "u1");
    assert_eq!(row.created_at, "2025-01-01T00:00:00Z");
    assert_eq!(row.current_node_id, Some("wait".to_string()));
    assert_eq!(row.status, InstanceStatus::WaitingForResponse);
    assert_eq!(row.next_execution_time, Some(99));
    assert_eq!(row.updated_at, "2025-01-02T00:00:00Z");

    // The cache serves the merged row too.
    let active = tracker.get_active_instance(&"u1".to_string()).unwrap();
    assert_eq!(active.definition_id, "wf1");
    assert_eq!(active.created_at, "2025-01-01T00:00:00Z");
}
