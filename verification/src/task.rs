//! Queues, tasks and what they hold.

use vstd::prelude::*;

use crate::identifier::{
    HandlerVersion, LeaseToken, QueueName, SignalName, StepName, TaskId, TaskName, WorkerId,
};
use crate::json::{Json, JsonObject};
use crate::number::NonZeroU64;
use crate::retry::RetryPolicy;
use crate::time::{Duration, Timestamp, NANOS_PER_SEC};

verus! {

/// What a queue is configured to do.
#[derive(Clone, Debug, PartialEq, Eq)]
pub struct QueueConfig {
    pub name: QueueName,
    pub terminal_retention: Duration,
    pub idempotency_retention: Duration,
    pub max_outstanding_tasks: Option<NonZeroU64>,
    pub starvation_timeout: Duration,
}

impl QueueConfig {
    /// Finished tasks are kept for a week, idempotency keys for thirty days; the queue holds any
    /// number of tasks, and one that waited five minutes is rescued.
    pub fn new(name: QueueName) -> (result: Self)
        ensures
            result.name == name,
            result.terminal_retention@ == 7 * 24 * 3_600 * NANOS_PER_SEC,
            result.idempotency_retention@ == 30 * 24 * 3_600 * NANOS_PER_SEC,
            result.max_outstanding_tasks is None,
            result.starvation_timeout@ == 5 * 60 * NANOS_PER_SEC,
    {
        QueueConfig {
            name,
            terminal_retention: Duration::from_hours(7 * 24),
            idempotency_retention: Duration::from_hours(30 * 24),
            max_outstanding_tasks: None,
            starvation_timeout: Duration::from_mins(5),
        }
    }
}

/// A queue as it is stored.
#[derive(Clone, Debug, PartialEq, Eq)]
pub struct Queue {
    pub name: QueueName,
    pub terminal_retention: Duration,
    pub idempotency_retention: Duration,
    pub max_outstanding_tasks: Option<NonZeroU64>,
    pub starvation_timeout: Duration,
    pub paused_at: Option<Timestamp>,
    pub created_at: Timestamp,
    pub updated_at: Timestamp,
}

/// One lease to be renewed.
#[derive(Clone, Copy, Debug, PartialEq, Eq, Structural)]
pub struct LeaseRenewal {
    pub task_id: TaskId,
    pub attempt: u16,
    pub lease_token: LeaseToken,
}

/// A worker as it is stored.
#[derive(Clone, Debug, PartialEq, Eq)]
pub struct WorkerRecord {
    pub id: WorkerId,
    pub queue_name: QueueName,
    pub version: String,
    pub draining: bool,
    pub started_at: Timestamp,
    pub heartbeat_at: Timestamp,
    pub expires_at: Timestamp,
    pub capabilities: Vec<(TaskName, HandlerVersion)>,
}

/// The stored value of a step.
#[derive(Clone, Debug, PartialEq, Eq)]
pub struct Checkpoint {
    pub task_id: TaskId,
    pub handler_version: HandlerVersion,
    pub step_name: StepName,
    pub occurrence: u32,
    pub value: Json,
    pub created_at: Timestamp,
}

/// A signal that was emitted for a task.
#[derive(Clone, Debug, PartialEq, Eq)]
pub struct Signal {
    pub task_id: TaskId,
    pub name: SignalName,
    pub occurrence: u32,
    pub value: Json,
    pub created_at: Timestamp,
}

#[derive(Clone, Copy, Debug, PartialEq, Eq, Structural)]
pub enum TaskState {
    Pending,
    Running,
    Waiting,
    Succeeded,
    Failed,
    Cancelled,
}

/// The word that stands for a state.
pub open spec fn state_text(state: TaskState) -> Seq<char> {
    match state {
        TaskState::Pending => "pending"@,
        TaskState::Running => "running"@,
        TaskState::Waiting => "waiting"@,
        TaskState::Succeeded => "succeeded"@,
        TaskState::Failed => "failed"@,
        TaskState::Cancelled => "cancelled"@,
    }
}

/// The states that a task does not leave on its own.
pub open spec fn is_terminal_state(state: TaskState) -> bool {
    state is Succeeded || state is Failed || state is Cancelled
}

/// No two states share a word.
pub proof fn state_texts_differ(left: TaskState, right: TaskState)
    ensures
        state_text(left) == state_text(right) ==> left == right,
{
    reveal_strlit("pending");
    reveal_strlit("running");
    reveal_strlit("waiting");
    reveal_strlit("succeeded");
    reveal_strlit("failed");
    reveal_strlit("cancelled");
    if state_text(left) == state_text(right) {
        assert(state_text(left)[0] == state_text(right)[0]);
        assert(state_text(left).len() == state_text(right).len());
    }
}

impl TaskState {
    pub fn as_str(self) -> (result: &'static str)
        ensures
            result@ == state_text(self),
    {
        match self {
            TaskState::Pending => "pending",
            TaskState::Running => "running",
            TaskState::Waiting => "waiting",
            TaskState::Succeeded => "succeeded",
            TaskState::Failed => "failed",
            TaskState::Cancelled => "cancelled",
        }
    }

    pub fn is_terminal(self) -> (result: bool)
        ensures
            result == is_terminal_state(self),
    {
        matches!(self, TaskState::Succeeded | TaskState::Failed | TaskState::Cancelled)
    }
}

/// How a task ended, or that it has not.
#[derive(Clone, Debug, PartialEq, Eq)]
pub struct TaskResult {
    pub state: TaskState,
    pub result: Option<Json>,
    pub error: Option<Json>,
    pub completed_at: Option<Timestamp>,
}

/// A task to be created.
#[derive(Clone, Debug, PartialEq, Eq)]
pub struct EnqueueRequest {
    pub task_name: TaskName,
    pub handler_version: HandlerVersion,
    pub payload: Json,
    pub queue_name: QueueName,
    pub run_at: Option<Timestamp>,
    pub priority: i16,
    pub max_attempts: u16,
    pub idempotency_key: Option<String>,
    pub headers: JsonObject,
}

impl EnqueueRequest {
    /// A request for the first version of a handler on the default queue, to run at once, up to
    /// five times.
    pub fn new(task_name: TaskName, payload: Json) -> (result: Self)
        ensures
            result.task_name == task_name,
            result.handler_version@ == 1,
            result.payload == payload,
            result.queue_name@ == "default"@,
            result.run_at is None,
            result.priority == 0,
            result.max_attempts == 5,
            result.idempotency_key is None,
            result.headers@ == Map::<Seq<char>, Json>::empty(),
    {
        EnqueueRequest {
            task_name,
            handler_version: HandlerVersion::default(),
            payload,
            queue_name: QueueName::default(),
            run_at: None,
            priority: 0,
            max_attempts: 5,
            idempotency_key: None,
            headers: JsonObject::new(),
        }
    }
}

/// Which task a request led to, and whether it is a new one.
#[derive(Clone, Copy, Debug, PartialEq, Eq, Structural)]
pub struct EnqueueResult {
    pub task_id: TaskId,
    pub created: bool,
}

/// A task as it is stored.
#[derive(Clone, Debug, PartialEq, Eq)]
pub struct Task {
    pub id: TaskId,
    pub parent_task_id: Option<TaskId>,
    pub queue_name: QueueName,
    pub task_name: TaskName,
    pub handler_version: HandlerVersion,
    pub payload: Json,
    pub headers: JsonObject,
    pub state: TaskState,
    pub priority: i16,
    pub run_at: Timestamp,
    pub attempt: u16,
    pub max_attempts: u16,
    pub retry_policy: Option<RetryPolicy>,
    pub lease_token: Option<LeaseToken>,
    pub lease_owner: Option<WorkerId>,
    pub lease_expires_at: Option<Timestamp>,
    pub created_at: Timestamp,
    pub updated_at: Timestamp,
    pub completed_at: Option<Timestamp>,
    pub result: Option<Json>,
    pub error: Option<Json>,
}

/// A task has ended when it succeeded, failed or was cancelled, and not while it is to run, runs or
/// waits; each state goes by its own word.
pub proof fn states_are_what_they_are_called(state: TaskState)
    ensures
        is_terminal_state(state) <==> state != TaskState::Pending && state != TaskState::Running
            && state != TaskState::Waiting,
        state is Pending <==> state_text(state) == "pending"@,
        state is Running <==> state_text(state) == "running"@,
        state is Waiting <==> state_text(state) == "waiting"@,
        state is Succeeded <==> state_text(state) == "succeeded"@,
        state is Failed <==> state_text(state) == "failed"@,
        state is Cancelled <==> state_text(state) == "cancelled"@,
{
    state_texts_differ(state, TaskState::Pending);
    state_texts_differ(state, TaskState::Running);
    state_texts_differ(state, TaskState::Waiting);
    state_texts_differ(state, TaskState::Succeeded);
    state_texts_differ(state, TaskState::Failed);
    state_texts_differ(state, TaskState::Cancelled);
}

} // verus!
