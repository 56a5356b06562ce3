//! What becomes of a task whose handler ran.

use vstd::prelude::*;

use crate::error::PostgresError;
use crate::identifier::LeaseToken;
use crate::json::Json;
use crate::metrics::{
    execution_reading, latency_reading, readings, record_execution, record_failed,
    record_lease_lost, record_queue_latency, record_retried, record_succeeded, transition_reading,
    Amount, Measurement, Reading,
};
use crate::registry::{bare_report, is_bare_report, HandlerError, HandlerRegistry, RegisteredHandler};
use crate::retry::{is_retry_delay, RetryPolicy};
use crate::task::{LeaseRenewal, Task, TaskState};
use crate::time::Duration;
use crate::worker::WorkerError;

verus! {

/// How a handler ended: with a result, with an error, with a panic, or not before its lease was
/// gone.
#[derive(Debug, PartialEq, Eq)]
pub enum HandlerOutcome {
    Returned(Json),
    Failed(HandlerError),
    Panicked,
    LeaseLost,
}

/// What is reported of a task once its handler has ended.
#[derive(Debug, PartialEq, Eq)]
pub enum ExecutionStep {
    /// The task is complete, with this result.
    Complete(Json),
    /// The task failed, and is tried again after a delay where there is one.
    Fail { error: Json, retry_after: Option<Duration>, panicked: bool },
    /// Nothing is reported to the database.
    Finish { outcome: &'static str },
}

/// Checks that a claimed task can be run: it is leased, and there is a handler for it.
pub fn admit_task<'a, H>(task: &Task, registry: &'a HandlerRegistry<H>) -> (result: Result<
    (LeaseRenewal, &'a RegisteredHandler<H>),
    WorkerError,
>)
    ensures
        match task.lease_token {
            None => result == Err::<(LeaseRenewal, &RegisteredHandler<H>), _>(
                WorkerError::MissingLeaseToken(task.id),
            ),
            Some(lease_token) => if registry@.dom().contains(
                (task.task_name@, task.handler_version@),
            ) {
                &&& result is Ok
                &&& result->Ok_0.0 == (LeaseRenewal {
                    task_id: task.id,
                    attempt: task.attempt,
                    lease_token,
                })
                &&& *result->Ok_0.1 == registry@[(task.task_name@, task.handler_version@)]
            } else {
                result == Err::<(LeaseRenewal, &RegisteredHandler<H>), _>(
                    WorkerError::MissingHandler,
                )
            },
        },
{
    let lease_token: LeaseToken = match task.lease_token {
        Some(lease_token) => lease_token,
        None => return Err(WorkerError::MissingLeaseToken(task.id)),
    };
    match registry.get(&task.task_name, task.handler_version) {
        Some(handler) => Ok(
            (LeaseRenewal { task_id: task.id, attempt: task.attempt, lease_token }, handler),
        ),
        None => Err(WorkerError::MissingHandler),
    }
}

/// How long a task waited before it was claimed: from its creation to its last change.
pub open spec fn queue_latency(task: Task) -> nat {
    if task.updated_at@ >= task.created_at@ {
        (task.updated_at@ - task.created_at@) as nat
    } else {
        0
    }
}

/// Measures how long a task waited.
pub fn measure_latency(task: &Task) -> (result: Measurement)
    ensures
        result@.amount matches Amount::Span(span) && span@ == queue_latency(*task) && result@
            == latency_reading(task.queue_name@, task.task_name@, span),
{
    let latency = task.updated_at.saturating_since(task.created_at);
    record_queue_latency(task.queue_name.as_str(), task.task_name.as_str(), latency)
}

/// The retry policy of a task: its own, or that of its handler.
pub open spec fn policy_of(task: Task, handler_policy: RetryPolicy) -> RetryPolicy {
    match task.retry_policy {
        Some(policy) => policy,
        None => handler_policy,
    }
}

/// Whether another attempt may help.
pub open spec fn may_retry(outcome: HandlerOutcome) -> bool {
    match outcome {
        HandlerOutcome::Failed(error) => !error.suspends() && error.retryable,
        HandlerOutcome::Panicked => true,
        _ => false,
    }
}

/// Whether a step is the one that follows an outcome, `delay` being the delay before another
/// attempt.
pub open spec fn is_step_for(
    step: ExecutionStep,
    outcome: HandlerOutcome,
    delay: Option<Duration>,
) -> bool {
    match outcome {
        HandlerOutcome::Returned(result) => step == ExecutionStep::Complete(result),
        HandlerOutcome::Failed(error) => if error.suspends() {
            step matches ExecutionStep::Finish { outcome } && outcome@ == "suspended"@
        } else {
            step == (ExecutionStep::Fail {
                error: error.error,
                retry_after: if error.retryable {
                    delay
                } else {
                    None
                },
                panicked: false,
            })
        },
        HandlerOutcome::Panicked => step matches ExecutionStep::Fail {
            error,
            retry_after,
            panicked,
        } && is_bare_report(error, "handler_panic"@) && retry_after == delay && panicked,
        HandlerOutcome::LeaseLost => step matches ExecutionStep::Finish { outcome } && outcome@
            == "lease_lost"@,
    }
}

/// What follows the end of a handler, given the delay before another attempt.
pub fn execution_step(outcome: HandlerOutcome, delay: Option<Duration>) -> (result: ExecutionStep)
    ensures
        is_step_for(result, outcome, delay),
{
    match outcome {
        HandlerOutcome::Returned(result) => ExecutionStep::Complete(result),
        HandlerOutcome::Failed(error) => {
            if error.is_suspended() {
                return ExecutionStep::Finish { outcome: "suspended" };
            }
            let retry_after = if error.retryable {
                delay
            } else {
                None
            };
            ExecutionStep::Fail { error: error.error, retry_after, panicked: false }
        },
        HandlerOutcome::Panicked => ExecutionStep::Fail {
            error: bare_report("handler_panic"),
            retry_after: delay,
            panicked: true,
        },
        HandlerOutcome::LeaseLost => ExecutionStep::Finish { outcome: "lease_lost" },
    }
}

/// Whether a step follows an outcome with some delay that a policy allows.
pub open spec fn is_step_under(
    step: ExecutionStep,
    outcome: HandlerOutcome,
    policy: RetryPolicy,
    attempt: u16,
    delay: Option<Duration>,
) -> bool {
    is_retry_delay(policy, attempt, delay) && is_step_for(step, outcome, delay)
}

/// What follows the end of a handler. A delay is drawn from the policy of the task, or of its
/// handler.
pub fn finish_execution(task: &Task, handler_policy: RetryPolicy, outcome: HandlerOutcome) -> (result:
    ExecutionStep)
    ensures
        exists|delay: Option<Duration>| #[trigger]
            is_step_under(
                result,
                outcome,
                policy_of(*task, handler_policy),
                task.attempt,
                delay,
            ),
{
    let policy = match task.retry_policy {
        Some(policy) => policy,
        None => handler_policy,
    };
    let delay = policy.delay_for(task.attempt);
    let step = execution_step(outcome, delay);
    assert(is_step_under(step, outcome, policy_of(*task, handler_policy), task.attempt, delay));
    step
}

/// A task whose policy is never to retry is not retried, and one whose handler says that nothing
/// helps is not either.
pub proof fn terminal_failures_are_not_retried(
    step: ExecutionStep,
    outcome: HandlerOutcome,
    policy: RetryPolicy,
    attempt: u16,
    delay: Option<Duration>,
)
    requires
        is_step_under(step, outcome, policy, attempt, delay),
        policy is Never || !may_retry(outcome),
    ensures
        step matches ExecutionStep::Fail { retry_after, .. } ==> retry_after is None,
{
}

/// A handler that stepped aside is neither completed nor failed.
pub proof fn suspended_handlers_are_left_alone(
    step: ExecutionStep,
    error: HandlerError,
    delay: Option<Duration>,
)
    requires
        error.suspends(),
        is_step_for(step, HandlerOutcome::Failed(error), delay),
    ensures
        step is Finish,
{
}

/// The measurements of a step that reports nothing to the database.
pub fn measure_finish(task: &Task, outcome: &'static str, elapsed: Duration) -> (result: Measurement)
    ensures
        result@ == execution_reading(task.queue_name@, task.task_name@, outcome@, elapsed),
{
    record_execution(task.queue_name.as_str(), task.task_name.as_str(), outcome, elapsed)
}

/// The measurements of a completed task. One that lost its lease was not completed.
pub open spec fn completion_readings(task: Task, completed: bool, elapsed: Duration) -> Seq<Reading> {
    if completed {
        seq![
            transition_reading("succeeded"@, task.queue_name@, Some(task.task_name@), 1),
            execution_reading(task.queue_name@, task.task_name@, "succeeded"@, elapsed),
        ]
    } else {
        seq![transition_reading("lease_lost"@, task.queue_name@, Some(task.task_name@), 1)]
    }
}

/// Measures what came of a completion.
pub fn after_complete(task: &Task, completed: bool, elapsed: Duration) -> (result: Vec<Measurement>)
    ensures
        readings(result@) == completion_readings(*task, completed, elapsed),
{
    let queue_name = task.queue_name.as_str();
    let task_name = task.task_name.as_str();
    let measurements = if completed {
        vec![
            record_succeeded(queue_name, task_name),
            record_execution(queue_name, task_name, "succeeded", elapsed),
        ]
    } else {
        vec![record_lease_lost(queue_name, task_name)]
    };
    assert(readings(measurements@) =~= completion_readings(*task, completed, elapsed));
    measurements
}

/// The measurements of the state that a failed task went to: back to pending is a retry. Without a
/// state there is nothing to measure.
pub open spec fn failure_state_readings(task: Task, state: Option<TaskState>) -> Seq<Reading> {
    match state {
        None => Seq::empty(),
        Some(TaskState::Pending) => seq![
            transition_reading("retried"@, task.queue_name@, Some(task.task_name@), 1),
        ],
        Some(_) => seq![
            transition_reading("failed"@, task.queue_name@, Some(task.task_name@), 1),
        ],
    }
}

/// The measurements of a failure: that the lease was lost, where the task has no state to go to,
/// then the state, then how the execution ended.
pub open spec fn failure_readings(
    task: Task,
    panicked: bool,
    state: Option<TaskState>,
    elapsed: Duration,
) -> Seq<Reading> {
    let lost = if state is None {
        seq![transition_reading("lease_lost"@, task.queue_name@, Some(task.task_name@), 1)]
    } else {
        Seq::empty()
    };
    lost + failure_state_readings(task, state) + seq![
        execution_reading(
            task.queue_name@,
            task.task_name@,
            failure_word(panicked, state),
            elapsed,
        ),
    ]
}

/// The word for how a failed execution ended.
pub open spec fn failure_word(panicked: bool, state: Option<TaskState>) -> Seq<char> {
    if panicked {
        "panic"@
    } else if state == Some(TaskState::Pending) {
        "retry"@
    } else {
        "failed"@
    }
}

/// Measures the state that a failed task went to.
pub fn record_failure_state(task: &Task, state: Option<TaskState>) -> (result: Vec<Measurement>)
    ensures
        readings(result@) == failure_state_readings(*task, state),
{
    let queue_name = task.queue_name.as_str();
    let task_name = task.task_name.as_str();
    let measurements = match state {
        None => Vec::new(),
        Some(TaskState::Pending) => vec![record_retried(queue_name, task_name)],
        Some(_) => vec![record_failed(queue_name, task_name)],
    };
    assert(readings(measurements@) =~= failure_state_readings(*task, state));
    measurements
}

/// Measures what came of a failure.
pub fn after_fail(task: &Task, panicked: bool, state: Option<TaskState>, elapsed: Duration) -> (result:
    Vec<Measurement>)
    ensures
        readings(result@) == failure_readings(*task, panicked, state, elapsed),
{
    let queue_name = task.queue_name.as_str();
    let task_name = task.task_name.as_str();
    let pending = match state {
        Some(TaskState::Pending) => true,
        _ => false,
    };
    let word: &'static str = if panicked {
        "panic"
    } else if pending {
        "retry"
    } else {
        "failed"
    };
    let mut measurements: Vec<Measurement> = Vec::new();
    if state.is_none() {
        measurements.push(record_lease_lost(queue_name, task_name));
    }
    let mut reached = record_failure_state(task, state);
    let ghost lost = measurements@;
    let ghost passed = reached@;
    measurements.append(&mut reached);
    measurements.push(record_execution(queue_name, task_name, word, elapsed));
    assert(readings(measurements@) =~= readings(lost) + readings(passed) + seq![
        measurements@.last()@,
    ]);
    assert(readings(measurements@) =~= failure_readings(*task, panicked, state, elapsed));
    measurements
}

/// Whether to warn about how the execution of a task ended: its report failed, so its lease will
/// be recovered.
pub fn handle_handler_result(result: Result<(), PostgresError>) -> (warning: Option<PostgresError>)
    ensures
        warning == match result {
            Ok(()) => None,
            Err(error) => Some(error),
        },
{
    match result {
        Ok(()) => None,
        Err(error) => Some(error),
    }
}

/// What is reported of a task follows from how its handler ended: its result, its own error, a
/// panic, or nothing when it stepped aside or its lease was gone. It is tried again after the delay
/// exactly when it panicked, or failed in a way that another attempt may get past.
pub proof fn reports_follow_the_handler(
    step: ExecutionStep,
    outcome: HandlerOutcome,
    delay: Option<Duration>,
)
    requires
        is_step_for(step, outcome, delay),
    ensures
        outcome matches HandlerOutcome::Returned(result) ==> step == ExecutionStep::Complete(result),
        outcome matches HandlerOutcome::Failed(error) ==> {
            &&& error.control == crate::registry::HandlerControl::Suspended ==> (step matches
                ExecutionStep::Finish { outcome: word } && word@ == "suspended"@)
            &&& error.control != crate::registry::HandlerControl::Suspended ==> (step matches
                ExecutionStep::Fail { error: reported, retry_after, panicked } && reported
                == error.error && !panicked && (error.retryable ==> retry_after == delay) && (
            !error.retryable ==> retry_after is None))
        },
        outcome is Panicked ==> (step matches ExecutionStep::Fail { error, retry_after, panicked }
            && panicked && retry_after == delay && error is Object),
        outcome is LeaseLost ==> (step matches ExecutionStep::Finish { outcome: word } && word@
            == "lease_lost"@),
        step is Complete <==> outcome is Returned,
{
}

/// A task is retried by its own policy; only one without a policy by that of its handler.
pub proof fn tasks_are_retried_by_their_own_policy(
    task: Task,
    handler_policy: RetryPolicy,
    step: ExecutionStep,
    outcome: HandlerOutcome,
    delay: Option<Duration>,
)
    requires
        is_step_under(step, outcome, policy_of(task, handler_policy), task.attempt, delay),
    ensures
        task.retry_policy matches Some(policy) ==> policy_of(task, handler_policy) == policy,
        task.retry_policy is None ==> policy_of(task, handler_policy) == handler_policy,
        is_retry_delay(policy_of(task, handler_policy), task.attempt, delay),
        is_step_for(step, outcome, delay),
        may_retry(outcome) <==> outcome is Panicked || (outcome matches HandlerOutcome::Failed(error)
            && error.retryable && error.control != crate::registry::HandlerControl::Suspended),
{
}

/// A task waited from its creation to its last change.
pub proof fn latencies_run_from_creation(task: Task)
    ensures
        task.updated_at@ >= task.created_at@ ==> task.created_at@ + queue_latency(task)
            == task.updated_at@,
        task.updated_at@ < task.created_at@ ==> queue_latency(task) == 0,
{
}

/// What is measured of a task that was reported on: one transition, to success, to a retry, to
/// failure, or to a lost lease, with its own queue and name; and how long it ran, unless a
/// completion came too late.
pub proof fn executions_are_measured_as_they_end(
    task: Task,
    completed: bool,
    panicked: bool,
    state: Option<TaskState>,
    elapsed: Duration,
)
    ensures
        completed ==> completion_readings(task, completed, elapsed) == seq![
            transition_reading("succeeded"@, task.queue_name@, Some(task.task_name@), 1),
            execution_reading(task.queue_name@, task.task_name@, "succeeded"@, elapsed),
        ],
        !completed ==> completion_readings(task, completed, elapsed) == seq![
            transition_reading("lease_lost"@, task.queue_name@, Some(task.task_name@), 1),
        ],
        failure_readings(task, panicked, state, elapsed) == seq![
            transition_reading(
                match state {
                    None => "lease_lost"@,
                    Some(TaskState::Pending) => "retried"@,
                    Some(_) => "failed"@,
                },
                task.queue_name@,
                Some(task.task_name@),
                1,
            ),
            execution_reading(
                task.queue_name@,
                task.task_name@,
                if panicked {
                    "panic"@
                } else if state == Some(TaskState::Pending) {
                    "retry"@
                } else {
                    "failed"@
                },
                elapsed,
            ),
        ],
        failure_state_readings(task, None).len() == 0,
{
    let measured = failure_readings(task, panicked, state, elapsed);
    assert(measured.len() == 2);
    assert(measured =~= seq![measured[0], measured[1]]);
}

/// A handler that panicked is reported as such, and nothing else is said of it.
pub proof fn panics_are_reported_as_panics(step: ExecutionStep, delay: Option<Duration>)
    requires
        is_step_for(step, HandlerOutcome::Panicked, delay),
    ensures
        step matches ExecutionStep::Fail { error: Json::Object(report), .. } && {
            &&& report@.dom() == set!["type"@]
            &&& report@["type"@] matches Json::Text(word) && word@ == "handler_panic"@
        },
{
}

/// A task that failed is counted as it goes on: to another attempt, or to its end.
pub proof fn failures_are_counted_by_their_state(task: Task, state: TaskState)
    ensures
        state == TaskState::Pending ==> failure_state_readings(task, Some(state)) == seq![
            transition_reading("retried"@, task.queue_name@, Some(task.task_name@), 1),
        ],
        state != TaskState::Pending ==> failure_state_readings(task, Some(state)) == seq![
            transition_reading("failed"@, task.queue_name@, Some(task.task_name@), 1),
        ],
        failure_state_readings(task, None) == Seq::<Reading>::empty(),
        failure_word(true, Some(state)) == "panic"@,
        state == TaskState::Pending ==> failure_word(false, Some(state)) == "retry"@,
        state != TaskState::Pending ==> failure_word(false, Some(state)) == "failed"@,
        failure_word(false, None) == "failed"@,
{
}

} // verus!
