//! Workflow instances: the durable execution record of one subject running
//! one definition.

use vstd::prelude::*;

verus! {

/// The lifecycle status of a workflow instance.
///
/// Running, WaitingForResponse and Scheduled are the active statuses;
/// Completed and Failed are terminal, and a terminal instance is never
/// mutated again.
#[derive(Clone, Copy, PartialEq, Eq, Structural, Debug)]
pub enum InstanceStatus {
    Running,
    WaitingForResponse,
    Scheduled,
    Completed,
    Failed,
}

impl InstanceStatus {
    /// An active instance occupies its subject; a terminal one does not.
    pub open spec fn spec_is_active(self) -> bool {
        self is Running || self is WaitingForResponse || self is Scheduled
    }

    /// An active instance occupies its subject; a terminal one does not.
    pub fn is_active(&self) -> (r: bool)
        ensures
            r == self.spec_is_active(),
    {
        match self {
            InstanceStatus::Running => true,
            InstanceStatus::WaitingForResponse => true,
            InstanceStatus::Scheduled => true,
            InstanceStatus::Completed => false,
            InstanceStatus::Failed => false,
        }
    }

    /// The label under which the status is stored.
    pub fn to_string(&self) -> (r: String)
        ensures
            self is Running ==> r@ == "Running"@,
            self is WaitingForResponse ==> r@ == "WaitingForResponse"@,
            self is Scheduled ==> r@ == "Scheduled"@,
            self is Completed ==> r@ == "Completed"@,
            self is Failed ==> r@ == "Failed"@,
    {
        match self {
            InstanceStatus::Running => "Running".to_owned(),
            InstanceStatus::WaitingForResponse => "WaitingForResponse".to_owned(),
            InstanceStatus::Scheduled => "Scheduled".to_owned(),
            InstanceStatus::Completed => "Completed".to_owned(),
            InstanceStatus::Failed => "Failed".to_owned(),
        }
    }
}

/// The durable record of one subject's run of one definition.
pub struct WorkflowInstance {
    pub id: String,
    pub definition_id: String,
    pub contact_id: String,
    pub current_node_id: Option<String>,
    pub state_data: Option<String>,
    pub status: InstanceStatus,
    pub next_execution_time: Option<i64>,
    pub created_at: String,
    pub updated_at: String,
}

/// Copy an optional string. Written out so that the copy is known to carry
/// the same value.
pub fn clone_opt_string(s: &Option<String>) -> (r: Option<String>)
    ensures
        r == *s,
{
    match s {
        Some(v) => Some(v.clone()),
        None => None,
    }
}

impl WorkflowInstance {
    /// A current node exists exactly while the instance is not terminal.
    pub open spec fn wf(self) -> bool {
        self.current_node_id is Some <==> !(self.status is Completed || self.status is Failed)
    }

    /// The instance occupies its subject.
    pub open spec fn spec_is_active(self) -> bool {
        self.status.spec_is_active()
    }

    /// The instance occupies its subject.
    pub fn is_active(&self) -> (r: bool)
        ensures
            r == self.spec_is_active(),
    {
        self.status.is_active()
    }

    /// Copy the record. Written out so that the copy is known to carry the
    /// same value.
    pub fn duplicate(&self) -> (r: WorkflowInstance)
        ensures
            r == *self,
    {
        WorkflowInstance {
            id: self.id.clone(),
            definition_id: self.definition_id.clone(),
            contact_id: self.contact_id.clone(),
            current_node_id: clone_opt_string(&self.current_node_id),
            state_data: clone_opt_string(&self.state_data),
            status: self.status,
            next_execution_time: self.next_execution_time,
            created_at: self.created_at.clone(),
            updated_at: self.updated_at.clone(),
        }
    }
}

} // verus!
