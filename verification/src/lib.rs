//! Durable, actor-supervised workflow orchestration.
//!
//! The crate models a supervision tree that owns one worker per automated
//! subject. Each worker drives a persisted graph-based state machine (a
//! workflow instance) through a two-tier checkpoint store, so that progress
//! survives a process crash without being lost or duplicated.

use vstd::prelude::*;

pub mod account;
pub mod actions;
pub mod bridge;
pub mod definitions;
pub mod engine;
pub mod error;
pub mod intelligence;
pub mod instance;
pub mod messages;
pub mod models;
pub mod pattern;
pub mod runtime;
pub mod scripts;
pub mod signals;
pub mod schema;
pub mod state;
pub mod stealth;
pub mod supervisor;
pub mod text;
pub mod tracker;

verus! {

/// System status snapshot reported to the user interface.
pub struct SystemStatus {
    pub actors_online: bool,
    pub persistence_ready: bool,
    pub perception_ready: bool,
    pub intelligence_ready: bool,
    pub accounts_count: usize,
}

/// All subsystems of a freshly initialised process report ready.
pub fn get_system_status() -> (r: SystemStatus)
    ensures
        r.actors_online,
        r.persistence_ready,
        r.perception_ready,
        r.intelligence_ready,
        r.accounts_count == 2,
{
    SystemStatus {
        actors_online: true,
        persistence_ready: true,
        perception_ready: true,
        intelligence_ready: true,
        accounts_count: 2,
    }
}

/// Account summary shaped for the user interface.
pub struct AccountInfo {
    pub id: String,
    pub name: String,
    pub status: String,
}

/// Workflow-node summary shaped for the user interface.
pub struct WorkflowNode {
    pub id: String,
    pub name: String,
    pub status: String,
    pub scripts_count: usize,
}

/// The stock account list a freshly initialised process reports.
pub fn get_accounts() -> (r: Vec<AccountInfo>)
    ensures
        r@.len() == 2,
        r@[0].id@ == "1"@ && r@[0].name@ == "@user1"@ && r@[0].status@ == "online"@,
        r@[1].id@ == "2"@ && r@[1].name@ == "@user2"@ && r@[1].status@ == "offline"@,
{
    let mut accounts: Vec<AccountInfo> = Vec::new();
    accounts.push(
        AccountInfo { id: "1".to_owned(), name: "@user1".to_owned(), status: "online".to_owned() },
    );
    accounts.push(
        AccountInfo { id: "2".to_owned(), name: "@user2".to_owned(), status: "offline".to_owned() },
    );
    accounts
}

/// The stock node list of the current campaign flow.
pub fn get_workflow_nodes() -> (r: Vec<WorkflowNode>)
    ensures
        r@.len() == 4,
        r@[0].status@ == "completed"@ && r@[0].scripts_count == 3,
        r@[1].status@ == "current"@ && r@[1].scripts_count == 5,
        r@[2].status@ == "pending"@ && r@[2].scripts_count == 4,
        r@[3].status@ == "pending"@ && r@[3].scripts_count == 2,
{
    let mut nodes: Vec<WorkflowNode> = Vec::new();
    nodes.push(
        WorkflowNode {
            id: "1".to_owned(),
            name: "greet".to_owned(),
            status: "completed".to_owned(),
            scripts_count: 3,
        },
    );
    nodes.push(
        WorkflowNode {
            id: "2".to_owned(),
            name: "present".to_owned(),
            status: "current".to_owned(),
            scripts_count: 5,
        },
    );
    nodes.push(
        WorkflowNode {
            id: "3".to_owned(),
            name: "objections".to_owned(),
            status: "pending".to_owned(),
            scripts_count: 4,
        },
    );
    nodes.push(
        WorkflowNode {
            id: "4".to_owned(),
            name: "close".to_owned(),
            status: "pending".to_owned(),
            scripts_count: 2,
        },
    );
    nodes
}

} // verus!
