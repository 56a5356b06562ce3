//! The command line: what its commands mean, and what they say.

use vstd::prelude::*;
use vstd::string::StringExecFns;

use crate::identifier::{
    is_name, name_error, NameError, QueueName, TaskId, MAX_QUEUE_NAME_BYTES,
};
use crate::number::NonZeroU64;
use crate::task::QueueConfig;
use crate::text::{decimal, decimal_text, same_text, str_debug, str_debug_text};
use crate::time::{Duration, NANOS_PER_SEC};
use crate::unique::uuid_text;

verus! {

/// What `cancel` says.
pub fn cancel_message(task_id: TaskId, cancelled: bool) -> (result: String)
    ensures
        result@ == "task "@ + uuid_text(task_id.uuid.value) + if cancelled {
            " cancelled"@
        } else {
            " is not cancellable"@
        },
{
    let mut message = "task ".to_owned();
    message.append(task_id.to_string().as_str());
    message.append(
        if cancelled {
            " cancelled"
        } else {
            " is not cancellable"
        },
    );
    message
}

/// What `retention` says.
pub fn retention_message(tasks: u64, idempotency_keys: u64) -> (result: String)
    ensures
        result@ == "deleted "@ + decimal_text(tasks as nat) + " terminal tasks and "@
            + decimal_text(idempotency_keys as nat) + " idempotency keys"@,
{
    let mut message = "deleted ".to_owned();
    message.append(decimal(tasks).as_str());
    message.append(" terminal tasks and ");
    message.append(decimal(idempotency_keys).as_str());
    message.append(" idempotency keys");
    message
}

/// The queue that `queue put` configures.
pub fn queue_config(
    name: QueueName,
    terminal_retention_seconds: u64,
    idempotency_retention_seconds: u64,
    max_outstanding_tasks: Option<NonZeroU64>,
    starvation_timeout_seconds: Option<u64>,
) -> (result: QueueConfig)
    ensures
        result.name == name,
        result.terminal_retention@ == terminal_retention_seconds * NANOS_PER_SEC,
        result.idempotency_retention@ == idempotency_retention_seconds * NANOS_PER_SEC,
        result.max_outstanding_tasks == max_outstanding_tasks,
        starvation_timeout_seconds matches Some(seconds) ==> result.starvation_timeout@ == seconds
            * NANOS_PER_SEC,
        starvation_timeout_seconds is None ==> result.starvation_timeout@ == 300 * NANOS_PER_SEC,
{
    let mut config = QueueConfig::new(name);
    config.terminal_retention = Duration::from_secs(terminal_retention_seconds);
    config.idempotency_retention = Duration::from_secs(idempotency_retention_seconds);
    config.max_outstanding_tasks = max_outstanding_tasks;
    match starvation_timeout_seconds {
        Some(seconds) => {
            config.starvation_timeout = Duration::from_secs(seconds);
        },
        None => {},
    }
    config
}

/// What `queue put` says.
pub fn configured_message(name: &QueueName) -> (result: String)
    ensures
        result@ == "queue "@ + name@ + " configured"@,
{
    let mut message = "queue ".to_owned();
    message.append(name.as_str());
    message.append(" configured");
    message
}

/// What `queue pause` and `queue resume` say; a queue that does not exist is an error.
pub fn paused_message(name: &QueueName, paused: bool, exists_there: bool) -> (result: Result<
    String,
    String,
>)
    ensures
        if exists_there {
            result is Ok && result->Ok_0@ == "queue "@ + name@ + if paused {
                " paused"@
            } else {
                " resumed"@
            }
        } else {
            result is Err && result->Err_0@ == "queue "@ + name@ + " does not exist"@
        },
{
    let mut message = "queue ".to_owned();
    message.append(name.as_str());
    if !exists_there {
        message.append(" does not exist");
        return Err(message);
    }
    message.append(
        if paused {
            " paused"
        } else {
            " resumed"
        },
    );
    Ok(message)
}

/// The two commands of the smoke test.
#[derive(Clone, Copy, Debug, PartialEq, Eq, Structural)]
pub enum SmokeCommand {
    Worker,
    Enqueue,
}

/// Reads the command of the smoke test.
pub fn smoke_command(argument: Option<&str>) -> (result: Result<SmokeCommand, String>)
    ensures
        match argument {
            None => result is Err && result->Err_0@ == "expected worker or enqueue"@,
            Some(text) => if text@ == "worker"@ {
                result == Ok::<_, String>(SmokeCommand::Worker)
            } else if text@ == "enqueue"@ {
                result == Ok::<_, String>(SmokeCommand::Enqueue)
            } else {
                result is Err && result->Err_0@ == "unknown command "@ + str_debug_text(text@)
            },
        },
{
    match argument {
        None => Err("expected worker or enqueue".to_owned()),
        Some(text) => if same_text(text, "worker") {
            Ok(SmokeCommand::Worker)
        } else if same_text(text, "enqueue") {
            Ok(SmokeCommand::Enqueue)
        } else {
            let mut message = "unknown command ".to_owned();
            message.append(str_debug(text).as_str());
            Err(message)
        },
    }
}

/// The queue of the smoke test: the given one, or the default one.
pub fn smoke_queue(name: Option<&str>) -> (result: Result<QueueName, NameError>)
    ensures
        match name {
            None => result is Ok && result->Ok_0@ == "default"@,
            Some(text) => if is_name(text@, MAX_QUEUE_NAME_BYTES) {
                result is Ok && result->Ok_0@ == text@
            } else {
                result is Err && Some(result->Err_0) == name_error(
                    text@,
                    "queue name",
                    MAX_QUEUE_NAME_BYTES,
                )
            },
        },
{
    match name {
        None => Ok(QueueName::default()),
        Some(text) => QueueName::new(text),
    }
}

/// What the smoke test says when every task has succeeded.
pub fn drained_message(count: u16) -> (result: String)
    ensures
        result@ == "drained "@ + decimal_text(count as nat) + " tasks"@,
{
    let mut message = "drained ".to_owned();
    message.append(decimal(count as u64).as_str());
    message.append(" tasks");
    message
}

} // verus!
