use teleflow::error::CoreError;
use teleflow::instance::InstanceStatus;
use teleflow::models::{AccountStatus, Rule, TriggerType, evaluate_rules};
use teleflow::scripts::{ScriptContentItem, ScriptContentType};
use teleflow::state::{WorkflowState, WorkflowStatus, WorkflowInstance};
use teleflow::text::str_contains;
use teleflow::{get_accounts, get_system_status, get_workflow_nodes};

fn rule(id: &str, trigger_type: &str, pattern: &str, enabled: bool) -> Rule {
    Rule {
        id: id.to_string(),
        account_id: None,
        trigger_type: trigger_type.to_string(),
        trigger_pattern: pattern.to_string(),
        reply_text: Some("Hi there!".to_string()),
        delay_min_ms: 100,
        delay_max_ms: 500,
        is_enabled: enabled,
    }
}

#[test]
fn first_enabled_keyword_rule_wins() {
    let rules = vec![
        rule("r0", "Keyword", "hello", false),
        rule("r1", "Regex", "hello", true),
        rule("r2", "Keyword", "hello", true),
        rule("r3", "Keyword", "hello", true),
    ];
    let hit = evaluate_rules(&rules, &"Oh hello there".to_string()).unwrap();
    assert_eq!(hit.id, "r2");

    assert!(evaluate_rules(&rules, &"nothing matches".to_string()).is_none());
}

#[test]
fn substring_search_handles_multibyte_text() {
    assert!(str_contains("好的，没问题", "没问题"));
    assert!(!str_contains("好的", "没问题"));
    assert!(str_contains("anything", ""));
    assert!(!str_contains("", "x"));
}

#[test]
fn status_labels_round_trip() {
    assert_eq!(AccountStatus::Active.to_string(), "Active");
    assert_eq!(AccountStatus::from_label(&"Active".to_string()), AccountStatus::Active);
    assert_eq!(AccountStatus::from_label(&"Banned".to_string()), AccountStatus::Banned);
    assert_eq!(AccountStatus::from_label(&"???".to_string()), AccountStatus::Inactive);

    assert_eq!(TriggerType::Regex.to_string(), "Regex");
    assert_eq!(TriggerType::from_label(&"WelcomeMessage".to_string()), TriggerType::WelcomeMessage);
    assert_eq!(TriggerType::from_label(&"???".to_string()), TriggerType::Keyword);

    assert_eq!(InstanceStatus::WaitingForResponse.to_string(), "WaitingForResponse");
    assert!(InstanceStatus::Scheduled.is_active());
    assert!(!InstanceStatus::Failed.is_active());
}

#[test]
fn core_error_carries_its_message() {
    let err = CoreError::Db("no such table".to_string());
    assert_eq!(err.message().as_str(), "no such table");
    let response = teleflow::error::ErrorResponse::of_error(&err);
    assert_eq!(response.message, "no such table");
}

#[test]
fn script_content_constructors_fill_their_fields() {
    let text = ScriptContentItem::text(&"Welcome aboard".to_string());
    assert_eq!(text.content_type, 1);
    assert_eq!(text.value, "Welcome aboard");
    assert_eq!(text.name, "");

    let image = ScriptContentItem::image(&"/img/banner.png".to_string(), &"banner".to_string());
    assert_eq!(image.content_type, 2);
    assert_eq!(image.value, "/img/banner.png");
    assert_eq!(image.name, "banner");

    assert_eq!(ScriptContentType::default().code(), 1);
    assert_eq!(ScriptContentType::Image.code(), 2);
    assert_eq!(ScriptContentType::Mixed.code(), 3);
}

#[test]
fn persisted_run_records_start_idle_and_running() {
    let inst = WorkflowInstance::new(&"account_1".to_string(), &"flow_greeting".to_string());
    assert_eq!(inst.account_id, "account_1");
    assert_eq!(inst.flow_definition_id, "flow_greeting");
    assert!(matches!(inst.state, WorkflowState::Idle { .. }));
    assert_eq!(inst.status, WorkflowStatus::Running);
    assert_eq!(inst.created_at, inst.updated_at);
    assert_eq!(WorkflowStatus::default(), WorkflowStatus::Running);
}

#[test]
fn test_get_system_status() {
    let status = get_system_status();
    assert!(status.actors_online);
    assert!(status.persistence_ready);
}

#[test]
fn test_get_accounts() {
    let accounts = get_accounts();
    assert_eq!(accounts.len(), 2);
    assert_eq!(accounts[0].name, "@user1");
}

#[test]
fn stock_workflow_nodes_report_their_progress() {
    let nodes = get_workflow_nodes();
    assert_eq!(nodes.len(), 4);
    assert_eq!(nodes[0].status, "completed");
    assert_eq!(nodes[1].status, "current");
    assert_eq!(nodes[1].scripts_count, 5);
}
