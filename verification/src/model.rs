//! What the web interface shows.

use vstd::prelude::*;

use crate::time::Timestamp;
use crate::unique::Uuid;

verus! {

#[derive(Debug, PartialEq, Eq)]
pub struct QueueSummary {
    pub name: String,
    pub paused_at: Option<Timestamp>,
    pub pending_count: i64,
    pub ready_count: i64,
    pub routable_count: i64,
    pub unroutable_count: i64,
    pub running_count: i64,
    pub waiting_count: i64,
    pub terminal_count: i64,
}

#[derive(Debug, PartialEq, Eq)]
pub struct TaskSummary {
    pub id: Uuid,
    pub queue_name: String,
    pub task_name: String,
    pub state: String,
    pub attempt: i32,
    pub created_at: Timestamp,
    pub completed_at: Option<Timestamp>,
}

#[derive(Debug, PartialEq, Eq)]
pub struct Attempt {
    pub number: i32,
    pub state: String,
    pub started_at: Timestamp,
    pub finished_at: Option<Timestamp>,
    pub error: Option<String>,
}

#[derive(Debug, PartialEq, Eq)]
pub struct Checkpoint {
    pub step_name: String,
    pub occurrence: i32,
    pub value: String,
    pub created_at: Timestamp,
}

#[derive(Debug, PartialEq, Eq)]
pub struct Signal {
    pub name: String,
    pub occurrence: i32,
    pub value: String,
    pub created_at: Timestamp,
}

#[derive(Debug, PartialEq, Eq)]
pub struct AdministratorAudit {
    pub actor: String,
    pub action: String,
    pub occurred_at: Timestamp,
}

#[derive(Debug, PartialEq, Eq)]
pub struct TaskDetail {
    pub id: Uuid,
    pub parent_task_id: Option<Uuid>,
    pub queue_name: String,
    pub task_name: String,
    pub handler_version: i32,
    pub state: String,
    pub attempt: i32,
    pub max_attempts: i32,
    pub payload: String,
    pub result: Option<String>,
    pub error: Option<String>,
    pub run_at: Timestamp,
    pub created_at: Timestamp,
    pub completed_at: Option<Timestamp>,
    pub attempts: Vec<Attempt>,
    pub checkpoints: Vec<Checkpoint>,
    pub signals: Vec<Signal>,
    pub administrator_audit: Vec<AdministratorAudit>,
}

#[derive(Debug, PartialEq, Eq)]
pub struct ScheduleSummary {
    pub id: Uuid,
    pub name: String,
    pub kind: String,
    pub queue_name: String,
    pub task_name: String,
    pub next_run_at: Timestamp,
    pub paused_at: Option<Timestamp>,
}

#[derive(Debug, PartialEq, Eq)]
pub struct ScheduleOccurrence {
    pub scheduled_for: Timestamp,
    pub task_id: Uuid,
    pub state: String,
    pub created_at: Timestamp,
    pub completed_at: Option<Timestamp>,
}

#[derive(Debug, PartialEq, Eq)]
pub struct ScheduleDetail {
    pub schedule: ScheduleSummary,
    pub occurrences: Vec<ScheduleOccurrence>,
    pub administrator_audit: Vec<AdministratorAudit>,
}

#[derive(Debug, PartialEq, Eq)]
pub struct WorkerSummary {
    pub id: Uuid,
    pub queue_name: String,
    pub version: String,
    pub draining: bool,
    pub live: bool,
    pub heartbeat_at: Timestamp,
    pub expires_at: Timestamp,
}

#[derive(Debug, PartialEq, Eq)]
pub struct Capability {
    pub task_name: String,
    pub handler_version: i32,
}

#[derive(Debug, PartialEq, Eq)]
pub struct WorkerDetail {
    pub worker: WorkerSummary,
    pub capabilities: Vec<Capability>,
}

#[derive(Debug, PartialEq, Eq)]
pub struct Dashboard {
    pub queues: Vec<QueueSummary>,
    pub tasks: Vec<TaskSummary>,
    pub schedules: Vec<ScheduleSummary>,
    pub workers: Vec<WorkerSummary>,
}

} // verus!
