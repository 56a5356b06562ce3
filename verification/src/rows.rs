//! Reading what PostgreSQL returns. Every row is checked before it becomes a value of the engine,
//! and the first thing that is wrong with it is reported.

use vstd::prelude::*;
use vstd::string::StringExecFns;

use crate::calendar::cron_parses;
use crate::error::{Fault, PostgresError};
use crate::identifier::{
    bounds_error, name_error, name_error_text, HandlerVersion, LeaseToken, NameError, QueueName,
    ScheduleId, ScheduleName, SignalName, StepName, TaskId, TaskName, WorkerId,
    MAX_QUEUE_NAME_BYTES, MAX_TASK_NAME_BYTES,
};
use crate::json::Json;
use crate::metrics::{readings, record_enqueued, transition_reading, Measurement, Reading};
use crate::number::{NonZeroU16, NonZeroU32, NonZeroU64};
use crate::protocol::StorageProtocolRange;
use crate::retry::RetryPolicy;
use crate::schedule::{MisfirePolicy, Schedule, ScheduleConfig, ScheduleDefinition, ScheduleError};
use crate::task::{
    state_text, Checkpoint, EnqueueRequest, EnqueueResult, Queue, Signal, Task, TaskResult, TaskState,
    WorkerRecord,
};
use crate::text::{same_text, str_debug, str_debug_text};
use crate::time::{Duration, Timestamp, NANOS_PER_MILLI, NANOS_PER_SEC};
use crate::unique::Uuid;

verus! {

/// The first of two faults.
pub open spec fn first_of(first: Option<Fault>, second: Option<Fault>) -> Option<Fault> {
    match first {
        Some(fault) => Some(fault),
        None => second,
    }
}

/// The words for a number that does not fit where it belongs.
pub open spec fn out_of_range_text() -> Seq<char> {
    "out of range integral type conversion attempted"@
}

/// The fault of a number outside a range.
pub open spec fn range_fault(value: int, minimum: int, maximum: int) -> Option<Fault> {
    if minimum <= value <= maximum {
        None
    } else {
        Some(Fault::InvalidTask(out_of_range_text()))
    }
}

fn out_of_range() -> (result: PostgresError)
    ensures
        result@ == Fault::InvalidTask(out_of_range_text()),
{
    PostgresError::invalid_task("out of range integral type conversion attempted")
}

fn stored_u16(value: i32) -> (result: Result<u16, PostgresError>)
    ensures
        match range_fault(value as int, 0, u16::MAX as int) {
            None => result == Ok::<_, PostgresError>(value as u16),
            Some(fault) => result is Err && result->Err_0@ == fault,
        },
{
    if 0 <= value && value <= 65_535 {
        Ok(value as u16)
    } else {
        Err(out_of_range())
    }
}

fn stored_u32(value: i32) -> (result: Result<u32, PostgresError>)
    ensures
        match range_fault(value as int, 0, u32::MAX as int) {
            None => result == Ok::<_, PostgresError>(value as u32),
            Some(fault) => result is Err && result->Err_0@ == fault,
        },
{
    if 0 <= value {
        Ok(value as u32)
    } else {
        Err(out_of_range())
    }
}

/// Reads a count that may not be negative.
pub fn stored_count(value: i64) -> (result: Result<u64, PostgresError>)
    ensures
        match range_fault(value as int, 0, u64::MAX as int) {
            None => result == Ok::<_, PostgresError>(value as u64),
            Some(fault) => result is Err && result->Err_0@ == fault,
        },
{
    if 0 <= value {
        Ok(value as u64)
    } else {
        Err(out_of_range())
    }
}

/// Whether an optional span is an optional number of milliseconds.
pub open spec fn is_delay(delay: Option<Duration>, milliseconds: Option<i64>) -> bool {
    match milliseconds {
        Some(value) => delay is Some && delay->0@ == value * NANOS_PER_MILLI,
        None => delay is None,
    }
}

/// The fault of an optional number of milliseconds.
pub open spec fn delay_fault(milliseconds: Option<i64>) -> Option<Fault> {
    match milliseconds {
        Some(value) => range_fault(value as int, 0, u64::MAX as int),
        None => None,
    }
}

/// Reads the delay until something is due, `None` when nothing is planned.
pub fn stored_delay(milliseconds: Option<i64>) -> (result: Result<Option<Duration>, PostgresError>)
    ensures
        match delay_fault(milliseconds) {
            None => result is Ok && is_delay(result->Ok_0, milliseconds),
            Some(fault) => result is Err && result->Err_0@ == fault,
        },
{
    match milliseconds {
        Some(value) => match stored_count(value) {
            Ok(count) => Ok(Some(Duration::from_millis(count))),
            Err(error) => Err(error),
        },
        None => Ok(None),
    }
}

fn stored_millis(value: i64) -> (result: Result<Duration, PostgresError>)
    ensures
        match range_fault(value as int, 0, u64::MAX as int) {
            None => result is Ok && result->Ok_0@ == value * NANOS_PER_MILLI,
            Some(fault) => result is Err && result->Err_0@ == fault,
        },
{
    match stored_count(value) {
        Ok(count) => Ok(Duration::from_millis(count)),
        Err(error) => Err(error),
    }
}

fn stored_secs(value: i64) -> (result: Result<Duration, PostgresError>)
    ensures
        match range_fault(value as int, 0, u64::MAX as int) {
            None => result is Ok && result->Ok_0@ == value * NANOS_PER_SEC,
            Some(fault) => result is Err && result->Err_0@ == fault,
        },
{
    match stored_count(value) {
        Ok(count) => Ok(Duration::from_secs(count)),
        Err(error) => Err(error),
    }
}

/// The fault of a stored handler version.
pub open spec fn version_fault(value: i32) -> Option<Fault> {
    if value == 0 {
        Some(Fault::InvalidTask("handler version is zero"@))
    } else {
        range_fault(value as int, 0, u32::MAX as int)
    }
}

fn stored_version(value: i32) -> (result: Result<HandlerVersion, PostgresError>)
    ensures
        match version_fault(value) {
            None => result is Ok && result->Ok_0@ == value,
            Some(fault) => result is Err && result->Err_0@ == fault,
        },
{
    match stored_u32(value) {
        Ok(number) => match NonZeroU32::new(number) {
            Some(version) => Ok(HandlerVersion::new(version)),
            None => Err(PostgresError::invalid_task("handler version is zero")),
        },
        Err(error) => Err(error),
    }
}

/// A name error as a fault of the stored data.
pub open spec fn name_fault(error: Option<NameError>) -> Option<Fault> {
    match error {
        Some(error) => Some(Fault::InvalidTask(name_error_text(error))),
        None => None,
    }
}

/// The fault of a stored queue name.
pub open spec fn queue_name_fault(value: Seq<char>) -> Option<Fault> {
    name_fault(name_error(value, "queue name", MAX_QUEUE_NAME_BYTES))
}

/// The fault of a stored task name.
pub open spec fn task_name_fault(value: Seq<char>) -> Option<Fault> {
    name_fault(name_error(value, "task name", MAX_TASK_NAME_BYTES))
}

/// The fault of a stored schedule name.
pub open spec fn schedule_name_fault(value: Seq<char>) -> Option<Fault> {
    name_fault(name_error(value, "schedule name", MAX_TASK_NAME_BYTES))
}

/// The fault of a stored signal name.
pub open spec fn signal_name_fault(value: Seq<char>) -> Option<Fault> {
    name_fault(name_error(value, "signal name", MAX_TASK_NAME_BYTES))
}

/// The fault of a stored step name.
pub open spec fn step_name_fault(value: Seq<char>) -> Option<Fault> {
    name_fault(bounds_error(value, "step name", MAX_TASK_NAME_BYTES))
}

fn invalid_name(error: NameError) -> (result: PostgresError)
    ensures
        result@ == Fault::InvalidTask(name_error_text(error)),
{
    PostgresError::InvalidTask(error.to_string())
}

fn stored_queue_name(value: String) -> (result: Result<QueueName, PostgresError>)
    ensures
        match queue_name_fault(value@) {
            None => result is Ok && result->Ok_0@ == value@,
            Some(fault) => result is Err && result->Err_0@ == fault,
        },
{
    match QueueName::try_from(value) {
        Ok(name) => Ok(name),
        Err(error) => Err(invalid_name(error)),
    }
}

fn stored_task_name(value: String) -> (result: Result<TaskName, PostgresError>)
    ensures
        match task_name_fault(value@) {
            None => result is Ok && result->Ok_0@ == value@,
            Some(fault) => result is Err && result->Err_0@ == fault,
        },
{
    match TaskName::try_from(value) {
        Ok(name) => Ok(name),
        Err(error) => Err(invalid_name(error)),
    }
}

fn stored_schedule_name(value: String) -> (result: Result<ScheduleName, PostgresError>)
    ensures
        match schedule_name_fault(value@) {
            None => result is Ok && result->Ok_0@ == value@,
            Some(fault) => result is Err && result->Err_0@ == fault,
        },
{
    match ScheduleName::try_from(value) {
        Ok(name) => Ok(name),
        Err(error) => Err(invalid_name(error)),
    }
}

fn stored_signal_name(value: String) -> (result: Result<SignalName, PostgresError>)
    ensures
        match signal_name_fault(value@) {
            None => result is Ok && result->Ok_0@ == value@,
            Some(fault) => result is Err && result->Err_0@ == fault,
        },
{
    match SignalName::try_from(value) {
        Ok(name) => Ok(name),
        Err(error) => Err(invalid_name(error)),
    }
}

fn stored_step_name(value: String) -> (result: Result<StepName, PostgresError>)
    ensures
        match step_name_fault(value@) {
            None => result is Ok && result->Ok_0@ == value@,
            Some(fault) => result is Err && result->Err_0@ == fault,
        },
{
    match StepName::try_from(value) {
        Ok(name) => Ok(name),
        Err(error) => Err(invalid_name(error)),
    }
}

/// Whether a text is the word of a state.
pub open spec fn is_state_text(value: Seq<char>) -> bool {
    exists|state: TaskState| value == #[trigger] state_text(state)
}

/// The fault of a stored state.
pub open spec fn state_fault(value: Seq<char>) -> Option<Fault> {
    if is_state_text(value) {
        None
    } else {
        Some(Fault::InvalidTask("unknown state "@ + str_debug_text(value)))
    }
}

/// Reads the word of a state.
pub fn parse_state(value: &str) -> (result: Result<TaskState, PostgresError>)
    ensures
        match state_fault(value@) {
            None => result is Ok && state_text(result->Ok_0) == value@,
            Some(fault) => result is Err && result->Err_0@ == fault,
        },
{
    let states = [
        TaskState::Pending,
        TaskState::Running,
        TaskState::Waiting,
        TaskState::Succeeded,
        TaskState::Failed,
        TaskState::Cancelled,
    ];
    let mut index: usize = 0;
    while index < 6
        invariant
            index <= 6,
            states@ == seq![
                TaskState::Pending,
                TaskState::Running,
                TaskState::Waiting,
                TaskState::Succeeded,
                TaskState::Failed,
                TaskState::Cancelled,
            ],
            forall|i: int| 0 <= i < index ==> value@ != state_text(#[trigger] states@[i]),
        decreases 6 - index,
    {
        let state = states[index];
        if same_text(value, state.as_str()) {
            assert(is_state_text(value@));
            return Ok(state);
        }
        index += 1;
    }
    proof {
        assert forall|state: TaskState| value@ != #[trigger] state_text(state) by {
            match state {
                TaskState::Pending => assert(states@[0] == state),
                TaskState::Running => assert(states@[1] == state),
                TaskState::Waiting => assert(states@[2] == state),
                TaskState::Succeeded => assert(states@[3] == state),
                TaskState::Failed => assert(states@[4] == state),
                TaskState::Cancelled => assert(states@[5] == state),
            }
        }
    }
    let mut message = "unknown state ".to_owned();
    let shown = str_debug(value);
    message.append(shown.as_str());
    Err(PostgresError::InvalidTask(message))
}

/// What is stored of a state is read back as that state, whichever it is.
pub proof fn states_read_back(state: TaskState)
    ensures
        state_fault(state_text(state)) is None,
        forall|read: TaskState| #[trigger] state_text(read) == state_text(state) ==> read == state,
{
    assert(is_state_text(state_text(state)));
    assert forall|read: TaskState| #[trigger]
        state_text(read) == state_text(state) implies read == state by {
        crate::task::state_texts_differ(read, state);
    }
}

/// How a retry policy is stored.
#[derive(Clone, Copy, Debug, PartialEq, Eq)]
pub struct RetryPolicyColumns {
    pub kind: &'static str,
    pub base_delay: Option<i64>,
    pub factor: Option<i32>,
    pub max_delay: Option<i64>,
}

/// Whole milliseconds of a span.
pub open spec fn whole_millis(span: nat) -> nat {
    span / NANOS_PER_MILLI as nat
}

/// Whether the whole milliseconds of a span fit in a stored number.
pub open spec fn millis_fit(span: nat) -> bool {
    whole_millis(span) <= i64::MAX
}

/// How a retry policy is stored, `None` when a value of it does not fit.
pub open spec fn policy_columns(policy: RetryPolicy) -> Option<RetryPolicyColumns> {
    match policy {
        RetryPolicy::Never => Some(
            RetryPolicyColumns { kind: "never", base_delay: None, factor: None, max_delay: None },
        ),
        RetryPolicy::Fixed { delay } => if millis_fit(delay@) {
            Some(
                RetryPolicyColumns {
                    kind: "fixed",
                    base_delay: Some(whole_millis(delay@) as i64),
                    factor: None,
                    max_delay: None,
                },
            )
        } else {
            None
        },
        RetryPolicy::Exponential { base_delay, factor, max_delay } => if millis_fit(base_delay@)
            && factor <= i32::MAX && millis_fit(max_delay@) {
            Some(
                RetryPolicyColumns {
                    kind: "exponential",
                    base_delay: Some(whole_millis(base_delay@) as i64),
                    factor: Some(factor as i32),
                    max_delay: Some(whole_millis(max_delay@) as i64),
                },
            )
        } else {
            None
        },
    }
}

/// The whole milliseconds of a span as a stored number, `None` when they do not fit.
pub fn bigint_millis(span: Duration) -> (result: Option<i64>)
    ensures
        result == if millis_fit(span@) {
            Some(whole_millis(span@) as i64)
        } else {
            None
        },
{
    let millis: u128 = span.as_millis();
    if millis <= i64::MAX as u128 {
        Some(millis as i64)
    } else {
        None
    }
}

/// How a retry policy is stored: its delays in whole milliseconds.
pub fn retry_policy_columns(policy: RetryPolicy) -> (result: Result<
    RetryPolicyColumns,
    PostgresError,
>)
    ensures
        match policy_columns(policy) {
            Some(columns) => result == Ok::<_, PostgresError>(columns),
            None => result == Err::<RetryPolicyColumns, _>(PostgresError::InvalidRetryPolicy),
        },
{
    match policy {
        RetryPolicy::Never => Ok(
            RetryPolicyColumns { kind: "never", base_delay: None, factor: None, max_delay: None },
        ),
        RetryPolicy::Fixed { delay } => match bigint_millis(delay) {
            Some(millis) => Ok(
                RetryPolicyColumns {
                    kind: "fixed",
                    base_delay: Some(millis),
                    factor: None,
                    max_delay: None,
                },
            ),
            None => Err(PostgresError::InvalidRetryPolicy),
        },
        RetryPolicy::Exponential { base_delay, factor, max_delay } => {
            if factor > i32::MAX as u32 {
                return Err(PostgresError::InvalidRetryPolicy);
            }
            match (bigint_millis(base_delay), bigint_millis(max_delay)) {
                (Some(base_millis), Some(max_millis)) => Ok(
                    RetryPolicyColumns {
                        kind: "exponential",
                        base_delay: Some(base_millis),
                        factor: Some(factor as i32),
                        max_delay: Some(max_millis),
                    },
                ),
                _ => Err(PostgresError::InvalidRetryPolicy),
            }
        },
    }
}

/// Whether the stored columns of a retry policy go together: no policy, or a kind with exactly the
/// values that it has.
pub open spec fn policy_shape(
    kind: Option<Seq<char>>,
    base_delay: Option<i64>,
    factor: Option<i32>,
    max_delay: Option<i64>,
) -> bool {
    match kind {
        None => base_delay is None && factor is None && max_delay is None,
        Some(kind) => {
            ||| kind == "never"@ && base_delay is None && factor is None && max_delay is None
            ||| kind == "fixed"@ && base_delay is Some && factor is None && max_delay is None
            ||| kind == "exponential"@ && base_delay is Some && factor is Some && max_delay is Some
        },
    }
}

/// The fault of the stored columns of a retry policy.
pub open spec fn policy_fault(
    kind: Option<Seq<char>>,
    base_delay: Option<i64>,
    factor: Option<i32>,
    max_delay: Option<i64>,
) -> Option<Fault> {
    if !policy_shape(kind, base_delay, factor, max_delay) {
        Some(Fault::InvalidTask("invalid retry policy"@))
    } else if (base_delay is Some && base_delay->0 < 0) || (factor is Some && factor->0 < 0) || (
    max_delay is Some && max_delay->0 < 0) {
        Some(Fault::InvalidTask(out_of_range_text()))
    } else {
        None
    }
}

/// Whether a retry policy is what well-shaped columns stand for.
pub open spec fn is_stored_policy(
    policy: Option<RetryPolicy>,
    kind: Option<Seq<char>>,
    base_delay: Option<i64>,
    factor: Option<i32>,
    max_delay: Option<i64>,
) -> bool {
    match (kind, base_delay, factor, max_delay) {
        (None, _, _, _) => policy is None,
        (Some(kind), None, _, _) => policy == Some(RetryPolicy::Never),
        (Some(kind), Some(base), None, _) => policy matches Some(
            RetryPolicy::Fixed { delay },
        ) && delay@ == base * NANOS_PER_MILLI,
        (Some(kind), Some(base), Some(by), Some(max)) => policy matches Some(
            RetryPolicy::Exponential { base_delay: found_base, factor: found_factor, max_delay: found_max },
        ) && found_base@ == base * NANOS_PER_MILLI && found_factor == by && found_max@ == max
            * NANOS_PER_MILLI,
        _ => false,
    }
}

/// The three kinds of a stored policy are different words.
proof fn lemma_kinds_differ()
    ensures
        "never"@ != "fixed"@,
        "never"@ != "exponential"@,
        "fixed"@ != "exponential"@,
{
    reveal_strlit("never");
    reveal_strlit("fixed");
    reveal_strlit("exponential");
    assert("never"@[0] != "fixed"@[0]);
    assert("never"@[0] != "exponential"@[0]);
    assert("fixed"@[0] != "exponential"@[0]);
}

/// Reads the stored columns of a retry policy.
pub fn parse_retry_policy(
    kind: Option<&str>,
    base_delay: Option<i64>,
    factor: Option<i32>,
    max_delay: Option<i64>,
) -> (result: Result<Option<RetryPolicy>, PostgresError>)
    ensures
        ({
            let word = match kind {
                Some(kind) => Some(kind@),
                None => None,
            };
            match policy_fault(word, base_delay, factor, max_delay) {
                None => result is Ok && is_stored_policy(
                    result->Ok_0,
                    word,
                    base_delay,
                    factor,
                    max_delay,
                ),
                Some(fault) => result is Err && result->Err_0@ == fault,
            }
        }),
{
    proof {
        lemma_kinds_differ();
    }
    let invalid = PostgresError::invalid_task("invalid retry policy");
    match kind {
        None => match (base_delay, factor, max_delay) {
            (None, None, None) => Ok(None),
            _ => Err(invalid),
        },
        Some(kind) => match (base_delay, factor, max_delay) {
            (None, None, None) => if same_text(kind, "never") {
                Ok(Some(RetryPolicy::Never))
            } else {
                Err(invalid)
            },
            (Some(base), None, None) => if same_text(kind, "fixed") {
                match stored_millis(base) {
                    Ok(delay) => Ok(Some(RetryPolicy::Fixed { delay })),
                    Err(error) => Err(error),
                }
            } else {
                Err(invalid)
            },
            (Some(base), Some(by), Some(max)) => if same_text(kind, "exponential") {
                match (stored_millis(base), stored_u32(by), stored_millis(max)) {
                    (Ok(base_delay), Ok(factor), Ok(max_delay)) => Ok(
                        Some(RetryPolicy::Exponential { base_delay, factor, max_delay }),
                    ),
                    (Err(error), _, _) => Err(error),
                    (_, Err(error), _) => Err(error),
                    (_, _, Err(error)) => Err(error),
                }
            } else {
                Err(invalid)
            },
            _ => Err(invalid),
        },
    }
}

/// Whether two policies agree up to the milliseconds that are stored.
pub open spec fn same_in_millis(left: RetryPolicy, right: RetryPolicy) -> bool {
    match (left, right) {
        (RetryPolicy::Never, RetryPolicy::Never) => true,
        (RetryPolicy::Fixed { delay: a }, RetryPolicy::Fixed { delay: b }) => whole_millis(a@)
            == whole_millis(b@),
        (
            RetryPolicy::Exponential { base_delay: a, factor: f, max_delay: m },
            RetryPolicy::Exponential { base_delay: b, factor: g, max_delay: n },
        ) => whole_millis(a@) == whole_millis(b@) && f == g && whole_millis(m@) == whole_millis(n@),
        _ => false,
    }
}

/// What is stored of a retry policy is read back as the same policy in whole milliseconds.
pub proof fn retry_policies_read_back(policy: RetryPolicy, read: Option<RetryPolicy>)
    requires
        policy_columns(policy) is Some,
        is_stored_policy(
            read,
            Some(policy_columns(policy)->0.kind@),
            policy_columns(policy)->0.base_delay,
            policy_columns(policy)->0.factor,
            policy_columns(policy)->0.max_delay,
        ),
    ensures
        policy_fault(
            Some(policy_columns(policy)->0.kind@),
            policy_columns(policy)->0.base_delay,
            policy_columns(policy)->0.factor,
            policy_columns(policy)->0.max_delay,
        ) is None,
        read is Some,
        same_in_millis(policy, read->0),
{
}

/// Reads the newest storage protocol that a database speaks.
pub fn stored_protocol_version(version: i32) -> (result: Result<u32, PostgresError>)
    ensures
        match range_fault(version as int, 0, u32::MAX as int) {
            None => result == Ok::<_, PostgresError>(version as u32),
            Some(fault) => result is Err && result->Err_0@ == fault,
        },
{
    if 0 <= version {
        Ok(version as u32)
    } else {
        Err(out_of_range())
    }
}

/// Reads the range of storage protocols that a database speaks.
pub fn stored_protocol_range(minimum: i32, maximum: i32) -> (result: Result<
    StorageProtocolRange,
    PostgresError,
>)
    ensures
        if 0 < minimum <= maximum {
            result == Ok::<_, PostgresError>(
                StorageProtocolRange { minimum: minimum as u32, maximum: maximum as u32 },
            )
        } else {
            result == Err::<StorageProtocolRange, _>(
                PostgresError::InvalidStorageProtocolRange { minimum, maximum },
            )
        },
{
    if minimum < 0 || maximum < 0 {
        return Err(PostgresError::InvalidStorageProtocolRange { minimum, maximum });
    }
    match StorageProtocolRange::new(minimum as u32, maximum as u32) {
        Some(range) => Ok(range),
        None => Err(PostgresError::InvalidStorageProtocolRange { minimum, maximum }),
    }
}

#[derive(Debug, PartialEq, Eq)]
pub struct CheckpointRow {
    pub task_id: Uuid,
    pub handler_version: i32,
    pub step_name: String,
    pub occurrence: i32,
    pub value: Json,
    pub created_at: Timestamp,
}

/// The first fault of a checkpoint row.
pub open spec fn checkpoint_fault(row: CheckpointRow) -> Option<Fault> {
    first_of(
        version_fault(row.handler_version),
        first_of(
            step_name_fault(row.step_name@),
            range_fault(row.occurrence as int, 0, u32::MAX as int),
        ),
    )
}

impl Checkpoint {
    pub fn try_from(row: CheckpointRow) -> (result: Result<Self, PostgresError>)
        ensures
            match checkpoint_fault(row) {
                Some(fault) => result is Err && result->Err_0@ == fault,
                None => {
                    &&& result matches Ok(checkpoint)
                    &&& checkpoint.task_id.uuid == row.task_id
                    &&& checkpoint.handler_version@ == row.handler_version
                    &&& checkpoint.step_name@ == row.step_name@
                    &&& checkpoint.occurrence == row.occurrence
                    &&& checkpoint.value == row.value
                    &&& checkpoint.created_at == row.created_at
                },
            },
    {
        let handler_version = match stored_version(row.handler_version) {
            Ok(version) => version,
            Err(error) => return Err(error),
        };
        let step_name = match stored_step_name(row.step_name) {
            Ok(name) => name,
            Err(error) => return Err(error),
        };
        let occurrence: u32 = match stored_u32(row.occurrence) {
            Ok(number) => number,
            Err(error) => return Err(error),
        };
        Ok(
            Checkpoint {
                task_id: TaskId::from_uuid(row.task_id),
                handler_version,
                step_name,
                occurrence,
                value: row.value,
                created_at: row.created_at,
            },
        )
    }
}

#[derive(Debug, PartialEq, Eq)]
pub struct SignalRow {
    pub task_id: Uuid,
    pub signal_name: String,
    pub occurrence: i32,
    pub value: Json,
    pub created_at: Timestamp,
}

/// The first fault of a signal row.
pub open spec fn signal_fault(row: SignalRow) -> Option<Fault> {
    first_of(
        signal_name_fault(row.signal_name@),
        range_fault(row.occurrence as int, 0, u32::MAX as int),
    )
}

impl Signal {
    pub fn try_from(row: SignalRow) -> (result: Result<Self, PostgresError>)
        ensures
            match signal_fault(row) {
                Some(fault) => result is Err && result->Err_0@ == fault,
                None => {
                    &&& result matches Ok(signal)
                    &&& signal.task_id.uuid == row.task_id
                    &&& signal.name@ == row.signal_name@
                    &&& signal.occurrence == row.occurrence
                    &&& signal.value == row.value
                    &&& signal.created_at == row.created_at
                },
            },
    {
        let name = match stored_signal_name(row.signal_name) {
            Ok(name) => name,
            Err(error) => return Err(error),
        };
        let occurrence: u32 = match stored_u32(row.occurrence) {
            Ok(number) => number,
            Err(error) => return Err(error),
        };
        Ok(
            Signal {
                task_id: TaskId::from_uuid(row.task_id),
                name,
                occurrence,
                value: row.value,
                created_at: row.created_at,
            },
        )
    }
}

/// Whether a signal is there already.
#[derive(Clone, Debug, PartialEq, Eq)]
pub enum SignalWait {
    Ready(Json),
    Waiting,
}

/// Whether a result is there already.
#[derive(Clone, Debug, PartialEq, Eq)]
pub enum ResultWait {
    Ready(Json),
    Waiting,
}

/// The answer to a request to wait.
#[derive(Debug, PartialEq, Eq)]
pub struct WaitRow {
    pub status: String,
    pub checkpoint: Option<Json>,
}

/// What the answer to a request to wait says: the value that is ready, that the wait has begun, or
/// nothing that makes sense.
pub open spec fn wait_outcome(row: WaitRow) -> Option<Option<Json>> {
    if row.status@ == "ready"@ && row.checkpoint is Some {
        Some(row.checkpoint)
    } else if row.status@ == "waiting"@ && row.checkpoint is None {
        Some(None)
    } else {
        None
    }
}

impl SignalWait {
    pub fn try_from(row: WaitRow) -> (result: Result<Self, PostgresError>)
        ensures
            match wait_outcome(row) {
                Some(Some(checkpoint)) => result == Ok::<_, PostgresError>(
                    SignalWait::Ready(checkpoint),
                ),
                Some(None) => result == Ok::<_, PostgresError>(SignalWait::Waiting),
                None => result is Err && result->Err_0@ == Fault::InvalidTask(
                    "invalid signal wait result"@,
                ),
            },
    {
        match row.checkpoint {
            Some(checkpoint) => if same_text(row.status.as_str(), "ready") {
                Ok(SignalWait::Ready(checkpoint))
            } else {
                Err(PostgresError::invalid_task("invalid signal wait result"))
            },
            None => if same_text(row.status.as_str(), "waiting") {
                Ok(SignalWait::Waiting)
            } else {
                Err(PostgresError::invalid_task("invalid signal wait result"))
            },
        }
    }
}

impl ResultWait {
    pub fn try_from(row: WaitRow) -> (result: Result<Self, PostgresError>)
        ensures
            match wait_outcome(row) {
                Some(Some(checkpoint)) => result == Ok::<_, PostgresError>(
                    ResultWait::Ready(checkpoint),
                ),
                Some(None) => result == Ok::<_, PostgresError>(ResultWait::Waiting),
                None => result is Err && result->Err_0@ == Fault::InvalidTask(
                    "invalid result wait response"@,
                ),
            },
    {
        match row.checkpoint {
            Some(checkpoint) => if same_text(row.status.as_str(), "ready") {
                Ok(ResultWait::Ready(checkpoint))
            } else {
                Err(PostgresError::invalid_task("invalid result wait response"))
            },
            None => if same_text(row.status.as_str(), "waiting") {
                Ok(ResultWait::Waiting)
            } else {
                Err(PostgresError::invalid_task("invalid result wait response"))
            },
        }
    }
}

#[derive(Debug, PartialEq, Eq)]
pub struct TaskResultRow {
    pub state: String,
    pub result: Option<Json>,
    pub error: Option<Json>,
    pub completed_at: Option<Timestamp>,
}

impl TaskResult {
    pub fn try_from(row: TaskResultRow) -> (result: Result<Self, PostgresError>)
        ensures
            match state_fault(row.state@) {
                Some(fault) => result is Err && result->Err_0@ == fault,
                None => {
                    &&& result matches Ok(outcome)
                    &&& state_text(outcome.state) == row.state@
                    &&& outcome.result == row.result
                    &&& outcome.error == row.error
                    &&& outcome.completed_at == row.completed_at
                },
            },
    {
        match parse_state(row.state.as_str()) {
            Ok(state) => Ok(
                TaskResult {
                    state,
                    result: row.result,
                    error: row.error,
                    completed_at: row.completed_at,
                },
            ),
            Err(error) => Err(error),
        }
    }
}

#[derive(Debug, PartialEq, Eq)]
pub struct WorkerRow {
    pub id: Uuid,
    pub queue_name: String,
    pub version: String,
    pub draining: bool,
    pub started_at: Timestamp,
    pub heartbeat_at: Timestamp,
    pub expires_at: Timestamp,
}

#[derive(Debug, PartialEq, Eq)]
pub struct CapabilityRow {
    pub task_name: String,
    pub handler_version: i32,
}

/// The first fault of a capability row.
pub open spec fn capability_fault(row: CapabilityRow) -> Option<Fault> {
    first_of(task_name_fault(row.task_name@), version_fault(row.handler_version))
}

/// Whether the row at `place` is the first with a fault.
pub open spec fn is_first_faulty(rows: Seq<CapabilityRow>, place: int) -> bool {
    &&& 0 <= place < rows.len()
    &&& capability_fault(rows[place]) is Some
    &&& forall|i: int| 0 <= i < place ==> capability_fault(#[trigger] rows[i]) is None
}

/// The fault of the first capability row that has one.
pub open spec fn capabilities_fault(rows: Seq<CapabilityRow>) -> Option<Fault> {
    if exists|place: int| is_first_faulty(rows, place) {
        capability_fault(rows[choose|place: int| is_first_faulty(rows, place)])
    } else {
        None
    }
}

/// Whether capabilities are what rows without a fault say.
pub open spec fn are_capabilities(
    capabilities: Seq<(TaskName, HandlerVersion)>,
    rows: Seq<CapabilityRow>,
) -> bool {
    capabilities.len() == rows.len() && forall|i: int|
        0 <= i < rows.len() ==> (#[trigger] capabilities[i]).0@ == rows[i].task_name@
            && capabilities[i].1@ == rows[i].handler_version
}

fn stored_capabilities(rows: Vec<CapabilityRow>) -> (result: Result<
    Vec<(TaskName, HandlerVersion)>,
    PostgresError,
>)
    ensures
        match capabilities_fault(rows@) {
            Some(fault) => result is Err && result->Err_0@ == fault,
            None => result is Ok && are_capabilities(result->Ok_0@, rows@),
        },
{
    let mut capabilities: Vec<(TaskName, HandlerVersion)> = Vec::new();
    let mut index: usize = 0;
    while index < rows.len()
        invariant
            index <= rows@.len(),
            capabilities@.len() == index,
            forall|i: int| 0 <= i < index ==> capability_fault(#[trigger] rows@[i]) is None,
            forall|i: int|
                0 <= i < index ==> (#[trigger] capabilities@[i]).0@ == rows@[i].task_name@
                    && capabilities@[i].1@ == rows@[i].handler_version,
        decreases rows@.len() - index,
    {
        proof {
            if capability_fault(rows@[index as int]) is Some {
                assert(is_first_faulty(rows@, index as int));
                let found = choose|place: int| is_first_faulty(rows@, place);
                assert(is_first_faulty(rows@, found));
                assert(found == index);
            }
        }
        let name = match stored_task_name(rows[index].task_name.clone()) {
            Ok(name) => name,
            Err(error) => return Err(error),
        };
        let version = match stored_version(rows[index].handler_version) {
            Ok(version) => version,
            Err(error) => return Err(error),
        };
        capabilities.push((name, version));
        index += 1;
    }
    assert(!exists|place: int| is_first_faulty(rows@, place));
    Ok(capabilities)
}

impl WorkerRow {
    pub fn try_into_record(self, capabilities: Vec<CapabilityRow>) -> (result: Result<
        WorkerRecord,
        PostgresError,
    >)
        ensures
            match first_of(
                capabilities_fault(capabilities@),
                queue_name_fault(self.queue_name@),
            ) {
                Some(fault) => result is Err && result->Err_0@ == fault,
                None => {
                    &&& result matches Ok(record)
                    &&& record.id.uuid == self.id
                    &&& record.queue_name@ == self.queue_name@
                    &&& record.version == self.version
                    &&& record.draining == self.draining
                    &&& record.started_at == self.started_at
                    &&& record.heartbeat_at == self.heartbeat_at
                    &&& record.expires_at == self.expires_at
                    &&& are_capabilities(record.capabilities@, capabilities@)
                },
            },
    {
        let capabilities = match stored_capabilities(capabilities) {
            Ok(capabilities) => capabilities,
            Err(error) => return Err(error),
        };
        let queue_name = match stored_queue_name(self.queue_name) {
            Ok(name) => name,
            Err(error) => return Err(error),
        };
        Ok(
            WorkerRecord {
                id: WorkerId::from_uuid(self.id),
                queue_name,
                version: self.version,
                draining: self.draining,
                started_at: self.started_at,
                heartbeat_at: self.heartbeat_at,
                expires_at: self.expires_at,
                capabilities,
            },
        )
    }
}

#[derive(Debug, PartialEq, Eq)]
pub struct QueueRow {
    pub name: String,
    pub terminal_retention_seconds: i64,
    pub idempotency_retention_seconds: i64,
    pub max_outstanding_tasks: Option<i64>,
    pub starvation_timeout_seconds: i64,
    pub paused_at: Option<Timestamp>,
    pub created_at: Timestamp,
    pub updated_at: Timestamp,
}

/// The fault of a stored capacity: it is missing or above zero.
pub open spec fn capacity_fault(maximum: Option<i64>) -> Option<Fault> {
    match maximum {
        Some(value) => if value == 0 {
            Some(Fault::InvalidTask("0"@))
        } else {
            range_fault(value as int, 0, u64::MAX as int)
        },
        None => None,
    }
}

fn stored_capacity(maximum: Option<i64>) -> (result: Result<Option<NonZeroU64>, PostgresError>)
    ensures
        match capacity_fault(maximum) {
            Some(fault) => result is Err && result->Err_0@ == fault,
            None => {
                &&& result matches Ok(capacity)
                &&& capacity is Some <==> maximum is Some
                &&& capacity is Some ==> capacity->0@ == maximum->0
            },
        },
{
    match maximum {
        Some(value) => match stored_count(value) {
            Ok(count) => match NonZeroU64::new(count) {
                Some(capacity) => Ok(Some(capacity)),
                None => Err(PostgresError::invalid_task("0")),
            },
            Err(error) => Err(error),
        },
        None => Ok(None),
    }
}

/// The first fault of a queue row.
pub open spec fn queue_fault(row: QueueRow) -> Option<Fault> {
    first_of(
        queue_name_fault(row.name@),
        first_of(
            range_fault(row.terminal_retention_seconds as int, 0, u64::MAX as int),
            first_of(
                range_fault(row.idempotency_retention_seconds as int, 0, u64::MAX as int),
                first_of(
                    capacity_fault(row.max_outstanding_tasks),
                    range_fault(row.starvation_timeout_seconds as int, 0, u64::MAX as int),
                ),
            ),
        ),
    )
}

impl Queue {
    pub fn try_from(row: QueueRow) -> (result: Result<Self, PostgresError>)
        ensures
            match queue_fault(row) {
                Some(fault) => result is Err && result->Err_0@ == fault,
                None => {
                    &&& result matches Ok(queue)
                    &&& queue.name@ == row.name@
                    &&& queue.terminal_retention@ == row.terminal_retention_seconds * NANOS_PER_SEC
                    &&& queue.idempotency_retention@ == row.idempotency_retention_seconds
                        * NANOS_PER_SEC
                    &&& queue.max_outstanding_tasks is Some <==> row.max_outstanding_tasks is Some
                    &&& queue.max_outstanding_tasks is Some ==> queue.max_outstanding_tasks->0@
                        == row.max_outstanding_tasks->0
                    &&& queue.starvation_timeout@ == row.starvation_timeout_seconds * NANOS_PER_SEC
                    &&& queue.paused_at == row.paused_at
                    &&& queue.created_at == row.created_at
                    &&& queue.updated_at == row.updated_at
                },
            },
    {
        let name = match stored_queue_name(row.name) {
            Ok(name) => name,
            Err(error) => return Err(error),
        };
        let terminal_retention = match stored_secs(row.terminal_retention_seconds) {
            Ok(span) => span,
            Err(error) => return Err(error),
        };
        let idempotency_retention = match stored_secs(row.idempotency_retention_seconds) {
            Ok(span) => span,
            Err(error) => return Err(error),
        };
        let max_outstanding_tasks = match stored_capacity(row.max_outstanding_tasks) {
            Ok(capacity) => capacity,
            Err(error) => return Err(error),
        };
        let starvation_timeout = match stored_secs(row.starvation_timeout_seconds) {
            Ok(span) => span,
            Err(error) => return Err(error),
        };
        Ok(
            Queue {
                name,
                terminal_retention,
                idempotency_retention,
                max_outstanding_tasks,
                starvation_timeout,
                paused_at: row.paused_at,
                created_at: row.created_at,
                updated_at: row.updated_at,
            },
        )
    }
}

#[derive(Debug, PartialEq, Eq)]
pub struct ScheduleRow {
    pub id: Uuid,
    pub name: String,
    pub kind: String,
    pub interval_milliseconds: Option<i64>,
    pub cron_expression: Option<String>,
    pub misfire_policy: String,
    pub catch_up_limit: Option<i32>,
    pub queue_name: String,
    pub task_name: String,
    pub handler_version: i32,
    pub payload: Json,
    pub headers: Json,
    pub priority: i16,
    pub max_attempts: i32,
    pub next_run_at: Timestamp,
    pub paused_at: Option<Timestamp>,
    pub created_at: Timestamp,
    pub updated_at: Timestamp,
}

/// The fault of how a stored schedule is defined.
pub open spec fn definition_fault(
    kind: Seq<char>,
    interval_milliseconds: Option<i64>,
    cron_expression: Option<String>,
) -> Option<Fault> {
    if kind == "interval"@ && interval_milliseconds is Some && cron_expression is None {
        if interval_milliseconds->0 < 0 {
            Some(Fault::InvalidTask(out_of_range_text()))
        } else if interval_milliseconds->0 == 0 {
            Some(Fault::Schedule(ScheduleError::ZeroInterval))
        } else {
            None
        }
    } else if kind == "cron"@ && interval_milliseconds is None && cron_expression is Some {
        if cron_parses(cron_expression->0@) {
            None
        } else {
            Some(Fault::Schedule(ScheduleError::InvalidCron))
        }
    } else {
        Some(Fault::InvalidTask("invalid schedule definition"@))
    }
}

/// Whether a definition is what columns without a fault say.
pub open spec fn is_stored_definition(
    definition: ScheduleDefinition,
    interval_milliseconds: Option<i64>,
    cron_expression: Option<String>,
) -> bool {
    match definition {
        ScheduleDefinition::Interval { every } => {
            &&& interval_milliseconds is Some
            &&& every@ == interval_milliseconds->0 * NANOS_PER_MILLI
        },
        ScheduleDefinition::Cron { expression } => {
            &&& cron_expression is Some
            &&& expression@ == cron_expression->0@
        },
    }
}

fn stored_definition(
    kind: &str,
    interval_milliseconds: Option<i64>,
    cron_expression: Option<String>,
) -> (result: Result<ScheduleDefinition, PostgresError>)
    ensures
        match definition_fault(kind@, interval_milliseconds, cron_expression) {
            Some(fault) => result is Err && result->Err_0@ == fault,
            None => result is Ok && is_stored_definition(
                result->Ok_0,
                interval_milliseconds,
                cron_expression,
            ),
        },
{
    proof {
        reveal_strlit("interval");
        reveal_strlit("cron");
        assert("interval"@.len() != "cron"@.len());
    }
    let invalid = PostgresError::invalid_task("invalid schedule definition");
    match (interval_milliseconds, cron_expression) {
        (Some(milliseconds), None) => {
            if !same_text(kind, "interval") {
                return Err(invalid);
            }
            match stored_millis(milliseconds) {
                Ok(every) => match ScheduleDefinition::interval(every) {
                    Ok(definition) => Ok(definition),
                    Err(error) => Err(PostgresError::Schedule(error)),
                },
                Err(error) => Err(error),
            }
        },
        (None, Some(expression)) => {
            if !same_text(kind, "cron") {
                return Err(invalid);
            }
            match ScheduleDefinition::cron(expression.as_str()) {
                Ok(definition) => Ok(definition),
                Err(error) => Err(PostgresError::Schedule(error)),
            }
        },
        _ => Err(invalid),
    }
}

/// The fault of how a stored schedule treats missed occurrences.
pub open spec fn misfire_fault(policy: Seq<char>, catch_up_limit: Option<i32>) -> Option<Fault> {
    if (policy == "skip"@ || policy == "latest"@) && catch_up_limit is None {
        None
    } else if policy == "catch_up"@ && catch_up_limit is Some {
        if catch_up_limit->0 == 0 {
            Some(Fault::InvalidTask("catch-up limit is zero"@))
        } else {
            range_fault(catch_up_limit->0 as int, 0, u16::MAX as int)
        }
    } else {
        Some(Fault::InvalidTask("invalid schedule misfire policy"@))
    }
}

/// Whether a misfire policy is what columns without a fault say.
pub open spec fn is_stored_misfire(
    found: MisfirePolicy,
    policy: Seq<char>,
    catch_up_limit: Option<i32>,
) -> bool {
    match found {
        MisfirePolicy::Skip => policy == "skip"@,
        MisfirePolicy::Latest => policy == "latest"@,
        MisfirePolicy::CatchUp { limit } => policy == "catch_up"@ && catch_up_limit is Some
            && limit@ == catch_up_limit->0,
    }
}

fn stored_misfire(policy: &str, catch_up_limit: Option<i32>) -> (result: Result<
    MisfirePolicy,
    PostgresError,
>)
    ensures
        match misfire_fault(policy@, catch_up_limit) {
            Some(fault) => result is Err && result->Err_0@ == fault,
            None => result is Ok && is_stored_misfire(result->Ok_0, policy@, catch_up_limit),
        },
{
    proof {
        reveal_strlit("skip");
        reveal_strlit("latest");
        reveal_strlit("catch_up");
        assert("skip"@.len() != "catch_up"@.len());
        assert("latest"@.len() != "catch_up"@.len());
    }
    let invalid = PostgresError::invalid_task("invalid schedule misfire policy");
    match catch_up_limit {
        None => if same_text(policy, "skip") {
            Ok(MisfirePolicy::Skip)
        } else if same_text(policy, "latest") {
            Ok(MisfirePolicy::Latest)
        } else {
            Err(invalid)
        },
        Some(limit) => if same_text(policy, "catch_up") {
            match stored_u16(limit) {
                Ok(number) => match NonZeroU16::new(number) {
                    Some(limit) => Ok(MisfirePolicy::CatchUp { limit }),
                    None => Err(PostgresError::invalid_task("catch-up limit is zero")),
                },
                Err(error) => Err(error),
            }
        } else {
            Err(invalid)
        },
    }
}

/// The first fault of a schedule row.
pub open spec fn schedule_fault(row: ScheduleRow) -> Option<Fault> {
    first_of(
        definition_fault(row.kind@, row.interval_milliseconds, row.cron_expression),
        first_of(
            misfire_fault(row.misfire_policy@, row.catch_up_limit),
            first_of(
                if row.headers is Object {
                    None
                } else {
                    Some(Fault::InvalidTask("schedule headers are not an object"@))
                },
                first_of(
                    task_name_fault(row.task_name@),
                    first_of(
                        version_fault(row.handler_version),
                        first_of(
                            queue_name_fault(row.queue_name@),
                            first_of(
                                range_fault(row.max_attempts as int, 0, u16::MAX as int),
                                schedule_name_fault(row.name@),
                            ),
                        ),
                    ),
                ),
            ),
        ),
    )
}

/// Whether a request is what a schedule row without a fault says: it runs when the schedule does,
/// and has no idempotency key.
pub open spec fn is_scheduled_request(request: EnqueueRequest, row: ScheduleRow) -> bool {
    &&& request.task_name@ == row.task_name@
    &&& request.handler_version@ == row.handler_version
    &&& request.payload == row.payload
    &&& request.queue_name@ == row.queue_name@
    &&& request.run_at is None
    &&& request.priority == row.priority
    &&& request.max_attempts == row.max_attempts
    &&& request.idempotency_key is None
    &&& Json::Object(request.headers) == row.headers
}

impl Schedule {
    pub fn try_from(row: ScheduleRow) -> (result: Result<Self, PostgresError>)
        ensures
            match schedule_fault(row) {
                Some(fault) => result is Err && result->Err_0@ == fault,
                None => {
                    &&& result matches Ok(schedule)
                    &&& schedule.config.id.uuid == row.id
                    &&& schedule.config.name@ == row.name@
                    &&& is_stored_definition(
                        schedule.config.definition,
                        row.interval_milliseconds,
                        row.cron_expression,
                    )
                    &&& is_stored_misfire(
                        schedule.config.misfire_policy,
                        row.misfire_policy@,
                        row.catch_up_limit,
                    )
                    &&& is_scheduled_request(schedule.config.task, row)
                    &&& schedule.config.start_at is None
                    &&& schedule.next_run_at == row.next_run_at
                    &&& schedule.paused_at == row.paused_at
                    &&& schedule.created_at == row.created_at
                    &&& schedule.updated_at == row.updated_at
                },
            },
    {
        let definition = match stored_definition(
            row.kind.as_str(),
            row.interval_milliseconds,
            row.cron_expression,
        ) {
            Ok(definition) => definition,
            Err(error) => return Err(error),
        };
        let misfire_policy = match stored_misfire(row.misfire_policy.as_str(), row.catch_up_limit) {
            Ok(policy) => policy,
            Err(error) => return Err(error),
        };
        let headers = match row.headers.into_object() {
            Some(headers) => headers,
            None => return Err(PostgresError::invalid_task("schedule headers are not an object")),
        };
        let task_name = match stored_task_name(row.task_name) {
            Ok(name) => name,
            Err(error) => return Err(error),
        };
        let mut task = EnqueueRequest::new(task_name, row.payload);
        task.handler_version = match stored_version(row.handler_version) {
            Ok(version) => version,
            Err(error) => return Err(error),
        };
        task.queue_name = match stored_queue_name(row.queue_name) {
            Ok(name) => name,
            Err(error) => return Err(error),
        };
        task.priority = row.priority;
        task.max_attempts = match stored_u16(row.max_attempts) {
            Ok(number) => number,
            Err(error) => return Err(error),
        };
        task.headers = headers;
        let name = match stored_schedule_name(row.name) {
            Ok(name) => name,
            Err(error) => return Err(error),
        };
        Ok(
            Schedule {
                config: ScheduleConfig {
                    id: ScheduleId::from_uuid(row.id),
                    name,
                    definition,
                    misfire_policy,
                    task,
                    start_at: None,
                },
                next_run_at: row.next_run_at,
                paused_at: row.paused_at,
                created_at: row.created_at,
                updated_at: row.updated_at,
            },
        )
    }
}

#[derive(Debug, PartialEq, Eq)]
pub struct TaskRow {
    pub id: Uuid,
    pub parent_task_id: Option<Uuid>,
    pub queue_name: String,
    pub task_name: String,
    pub handler_version: i32,
    pub payload: Json,
    pub headers: Json,
    pub state: String,
    pub priority: i16,
    pub run_at: Timestamp,
    pub attempt: i32,
    pub max_attempts: i32,
    pub retry_kind: Option<String>,
    pub retry_base_delay_milliseconds: Option<i64>,
    pub retry_factor: Option<i32>,
    pub retry_max_delay_milliseconds: Option<i64>,
    pub lease_token: Option<Uuid>,
    pub lease_owner: Option<Uuid>,
    pub lease_expires_at: Option<Timestamp>,
    pub created_at: Timestamp,
    pub updated_at: Timestamp,
    pub completed_at: Option<Timestamp>,
    pub result: Option<Json>,
    pub error: Option<Json>,
}

/// The first fault of a task row.
pub open spec fn task_fault(row: TaskRow) -> Option<Fault> {
    first_of(
        if row.headers is Object {
            None
        } else {
            Some(Fault::InvalidTask("headers are not an object"@))
        },
        first_of(
            queue_name_fault(row.queue_name@),
            first_of(
                task_name_fault(row.task_name@),
                first_of(
                    version_fault(row.handler_version),
                    first_of(
                        state_fault(row.state@),
                        first_of(
                            range_fault(row.attempt as int, 0, u16::MAX as int),
                            first_of(
                                range_fault(row.max_attempts as int, 0, u16::MAX as int),
                                policy_fault(
                                    crate::error::optional_text(row.retry_kind),
                                    row.retry_base_delay_milliseconds,
                                    row.retry_factor,
                                    row.retry_max_delay_milliseconds,
                                ),
                            ),
                        ),
                    ),
                ),
            ),
        ),
    )
}

/// Whether a task is what a row without a fault says.
pub open spec fn is_stored_task(task: Task, row: TaskRow) -> bool {
    &&& task.id.uuid == row.id
    &&& match row.parent_task_id {
        Some(parent) => task.parent_task_id == Some(TaskId { uuid: parent }),
        None => task.parent_task_id is None,
    }
    &&& task.queue_name@ == row.queue_name@
    &&& task.task_name@ == row.task_name@
    &&& task.handler_version@ == row.handler_version
    &&& task.payload == row.payload
    &&& Json::Object(task.headers) == row.headers
    &&& state_text(task.state) == row.state@
    &&& task.priority == row.priority
    &&& task.run_at == row.run_at
    &&& task.attempt == row.attempt
    &&& task.max_attempts == row.max_attempts
    &&& is_stored_policy(
        task.retry_policy,
        crate::error::optional_text(row.retry_kind),
        row.retry_base_delay_milliseconds,
        row.retry_factor,
        row.retry_max_delay_milliseconds,
    )
    &&& match row.lease_token {
        Some(token) => task.lease_token == Some(LeaseToken { uuid: token }),
        None => task.lease_token is None,
    }
    &&& match row.lease_owner {
        Some(owner) => task.lease_owner == Some(WorkerId { uuid: owner }),
        None => task.lease_owner is None,
    }
    &&& task.lease_expires_at == row.lease_expires_at
    &&& task.created_at == row.created_at
    &&& task.updated_at == row.updated_at
    &&& task.completed_at == row.completed_at
    &&& task.result == row.result
    &&& task.error == row.error
}

impl Task {
    pub fn try_from(row: TaskRow) -> (result: Result<Self, PostgresError>)
        ensures
            match task_fault(row) {
                Some(fault) => result is Err && result->Err_0@ == fault,
                None => result is Ok && is_stored_task(result->Ok_0, row),
            },
    {
        let headers = match row.headers.into_object() {
            Some(headers) => headers,
            None => return Err(PostgresError::invalid_task("headers are not an object")),
        };
        let queue_name = match stored_queue_name(row.queue_name) {
            Ok(name) => name,
            Err(error) => return Err(error),
        };
        let task_name = match stored_task_name(row.task_name) {
            Ok(name) => name,
            Err(error) => return Err(error),
        };
        let handler_version = match stored_version(row.handler_version) {
            Ok(version) => version,
            Err(error) => return Err(error),
        };
        let state = match parse_state(row.state.as_str()) {
            Ok(state) => state,
            Err(error) => return Err(error),
        };
        let attempt: u16 = match stored_u16(row.attempt) {
            Ok(number) => number,
            Err(error) => return Err(error),
        };
        let max_attempts: u16 = match stored_u16(row.max_attempts) {
            Ok(number) => number,
            Err(error) => return Err(error),
        };
        let retry_kind = match &row.retry_kind {
            Some(kind) => Some(kind.as_str()),
            None => None,
        };
        let retry_policy = match parse_retry_policy(
            retry_kind,
            row.retry_base_delay_milliseconds,
            row.retry_factor,
            row.retry_max_delay_milliseconds,
        ) {
            Ok(policy) => policy,
            Err(error) => return Err(error),
        };
        Ok(
            Task {
                id: TaskId::from_uuid(row.id),
                parent_task_id: match row.parent_task_id {
                    Some(parent) => Some(TaskId::from_uuid(parent)),
                    None => None,
                },
                queue_name,
                task_name,
                handler_version,
                payload: row.payload,
                headers,
                state,
                priority: row.priority,
                run_at: row.run_at,
                attempt,
                max_attempts,
                retry_policy,
                lease_token: match row.lease_token {
                    Some(token) => Some(LeaseToken::from_uuid(token)),
                    None => None,
                },
                lease_owner: match row.lease_owner {
                    Some(owner) => Some(WorkerId::from_uuid(owner)),
                    None => None,
                },
                lease_expires_at: row.lease_expires_at,
                created_at: row.created_at,
                updated_at: row.updated_at,
                completed_at: row.completed_at,
                result: row.result,
                error: row.error,
            },
        )
    }
}

#[derive(Clone, Copy, Debug, PartialEq, Eq, Structural)]
pub struct EnqueueRow {
    pub task_id: Uuid,
    pub created: bool,
}

impl EnqueueResult {
    pub fn from_row(row: EnqueueRow) -> (result: Self)
        ensures
            result.task_id.uuid == row.task_id,
            result.created == row.created,
    {
        EnqueueResult { task_id: TaskId::from_uuid(row.task_id), created: row.created }
    }
}

#[derive(Clone, Copy, Debug, PartialEq, Eq, Structural)]
pub struct BatchEnqueueRow {
    pub request_index: i64,
    pub task_id: Uuid,
    pub created: bool,
}

/// Whether a batch was answered with one row for each request, in order.
pub open spec fn is_batch_answer(rows: Seq<BatchEnqueueRow>, requests: nat) -> bool {
    rows.len() == requests && forall|i: int|
        0 <= i < rows.len() ==> (#[trigger] rows[i]).request_index == i
}

/// The measurements of the tasks that a batch created.
pub open spec fn created_readings(
    rows: Seq<BatchEnqueueRow>,
    requests: Seq<EnqueueRequest>,
) -> Seq<Reading>
    decreases rows.len(),
{
    if rows.len() == 0 {
        Seq::empty()
    } else {
        let before = created_readings(rows.drop_last(), requests);
        if rows.last().created {
            let request = requests[rows.len() - 1];
            before.push(
                transition_reading("enqueued"@, request.queue_name@, Some(request.task_name@), 1),
            )
        } else {
            before
        }
    }
}

/// Reads the answer to a batch of requests, with the measurements of the tasks that it created.
pub fn batch_results(rows: &Vec<BatchEnqueueRow>, requests: &Vec<EnqueueRequest>) -> (result: Result<
    (Vec<EnqueueResult>, Vec<Measurement>),
    PostgresError,
>)
    ensures
        if is_batch_answer(rows@, requests@.len()) {
            &&& result matches Ok(answer)
            &&& answer.0@.len() == rows@.len()
            &&& forall|i: int|
                0 <= i < rows@.len() ==> (#[trigger] answer.0@[i]).task_id.uuid == rows@[i].task_id
                    && answer.0@[i].created == rows@[i].created
            &&& readings(answer.1@) == created_readings(rows@, requests@)
        } else {
            result is Err && result->Err_0@ == Fault::InvalidTask(
                "batch enqueue returned an invalid result set"@,
            )
        },
{
    if rows.len() != requests.len() {
        return Err(PostgresError::invalid_task("batch enqueue returned an invalid result set"));
    }
    let mut results: Vec<EnqueueResult> = Vec::new();
    let mut measurements: Vec<Measurement> = Vec::new();
    let mut index: usize = 0;
    assert(rows@.take(0) =~= Seq::empty());
    assert(readings(measurements@) =~= created_readings(rows@.take(0), requests@));
    while index < rows.len()
        invariant
            index <= rows@.len(),
            rows@.len() == requests@.len(),
            results@.len() == index,
            forall|i: int| 0 <= i < index ==> (#[trigger] rows@[i]).request_index == i,
            forall|i: int|
                0 <= i < index ==> (#[trigger] results@[i]).task_id.uuid == rows@[i].task_id
                    && results@[i].created == rows@[i].created,
            readings(measurements@) == created_readings(rows@.take(index as int), requests@),
        decreases rows@.len() - index,
    {
        let row = rows[index];
        if row.request_index < 0 || row.request_index as u64 != index as u64 {
            assert(!is_batch_answer(rows@, requests@.len())) by {
                assert(rows@[index as int].request_index != index);
            }
            return Err(PostgresError::invalid_task("batch enqueue returned an invalid result set"));
        }
        assert(rows@.take(index + 1).drop_last() =~= rows@.take(index as int));
        let ghost before = measurements@;
        if row.created {
            let request = &requests[index];
            measurements.push(
                record_enqueued(request.queue_name.as_str(), request.task_name.as_str(), 1),
            );
            assert(readings(measurements@) =~= readings(before).push(measurements@.last()@));
        }
        results.push(EnqueueResult { task_id: TaskId::from_uuid(row.task_id), created: row.created });
        index += 1;
    }
    assert(rows@.take(index as int) =~= rows@);
    Ok((results, measurements))
}

#[derive(Clone, Copy, Debug, PartialEq, Eq, Structural)]
pub struct QueueDemandRow {
    pub ready: i64,
    pub capable: i64,
    pub unroutable: i64,
}

/// The due tasks of a queue: all, those that the asking worker can run, and those that no live
/// worker can run.
#[derive(Clone, Copy, Debug, PartialEq, Eq, Structural)]
pub struct QueueDemand {
    pub ready_tasks: u64,
    pub capable_tasks: u64,
    pub unroutable_tasks: u64,
}

impl QueueDemand {
    pub fn try_from(row: QueueDemandRow) -> (result: Result<Self, PostgresError>)
        ensures
            if row.ready >= 0 && row.capable >= 0 && row.unroutable >= 0 {
                result == Ok::<_, PostgresError>(
                    QueueDemand {
                        ready_tasks: row.ready as u64,
                        capable_tasks: row.capable as u64,
                        unroutable_tasks: row.unroutable as u64,
                    },
                )
            } else {
                result is Err && result->Err_0@ == Fault::InvalidTask(out_of_range_text())
            },
    {
        match (stored_count(row.ready), stored_count(row.capable), stored_count(row.unroutable)) {
            (Ok(ready_tasks), Ok(capable_tasks), Ok(unroutable_tasks)) => Ok(
                QueueDemand { ready_tasks, capable_tasks, unroutable_tasks },
            ),
            (Err(error), _, _) => Err(error),
            (_, Err(error), _) => Err(error),
            (_, _, Err(error)) => Err(error),
        }
    }
}

/// A task row is read exactly when its names, its numbers, its state, its headers and its retry
/// policy make sense.
pub proof fn task_rows_are_read_when_they_make_sense(row: TaskRow)
    ensures
        task_fault(row) is None <==> {
            &&& row.headers is Object
            &&& name_error(row.queue_name@, "queue name", 128) is None
            &&& name_error(row.task_name@, "task name", 255) is None
            &&& row.handler_version > 0
            &&& exists|state: TaskState| #[trigger] state_text(state) == row.state@
            &&& 0 <= row.attempt <= 65_535
            &&& 0 <= row.max_attempts <= 65_535
            &&& policy_fault(
                match row.retry_kind {
                    Some(kind) => Some(kind@),
                    None => None,
                },
                row.retry_base_delay_milliseconds,
                row.retry_factor,
                row.retry_max_delay_milliseconds,
            ) is None
        },
{
    if is_state_text(row.state@) {
        let state = choose|state: TaskState| row.state@ == #[trigger] state_text(state);
        assert(state_text(state) == row.state@);
    }
}

/// A task is what its row says, in every part.
pub proof fn tasks_are_what_their_rows_say(task: Task, row: TaskRow)
    requires
        is_stored_task(task, row),
    ensures
        task.id.uuid == row.id,
        task.parent_task_id is Some <==> row.parent_task_id is Some,
        task.parent_task_id is Some ==> task.parent_task_id->0.uuid == row.parent_task_id->0,
        task.queue_name@ == row.queue_name@,
        task.task_name@ == row.task_name@,
        task.handler_version@ == row.handler_version,
        task.payload == row.payload,
        row.headers == Json::Object(task.headers),
        state_text(task.state) == row.state@,
        task.priority == row.priority,
        task.run_at == row.run_at,
        task.attempt == row.attempt,
        task.max_attempts == row.max_attempts,
        task.lease_token is Some <==> row.lease_token is Some,
        task.lease_token is Some ==> task.lease_token->0.uuid == row.lease_token->0,
        task.lease_owner is Some <==> row.lease_owner is Some,
        task.lease_owner is Some ==> task.lease_owner->0.uuid == row.lease_owner->0,
        task.lease_expires_at == row.lease_expires_at,
        task.created_at == row.created_at,
        task.updated_at == row.updated_at,
        task.completed_at == row.completed_at,
        task.result == row.result,
        task.error == row.error,
        row.retry_kind is None ==> task.retry_policy is None,
        row.retry_kind is Some ==> task.retry_policy is Some,
{
}

/// A retry policy is stored under its own word with its own numbers, in whole milliseconds, and only
/// one with a number that does not fit cannot be stored.
pub proof fn retry_policies_are_stored_as_they_are(policy: RetryPolicy)
    ensures
        match policy {
            RetryPolicy::Never => policy_columns(policy) matches Some(columns) && columns.kind@
                == "never"@ && columns.base_delay is None && columns.factor is None
                && columns.max_delay is None,
            RetryPolicy::Fixed { delay } => {
                &&& policy_columns(policy) is Some <==> delay@ < 9_223_372_036_854_775_808
                    * 1_000_000
                &&& policy_columns(policy) matches Some(columns) ==> columns.kind@ == "fixed"@
                    && columns.base_delay is Some && columns.base_delay->0 * 1_000_000 <= delay@ < (
                columns.base_delay->0 + 1) * 1_000_000 && columns.factor is None
                    && columns.max_delay is None
            },
            RetryPolicy::Exponential { base_delay, factor, max_delay } => {
                &&& policy_columns(policy) is Some <==> base_delay@ < 9_223_372_036_854_775_808
                    * 1_000_000 && max_delay@ < 9_223_372_036_854_775_808 * 1_000_000 && factor
                    <= 2_147_483_647
                &&& policy_columns(policy) matches Some(columns) ==> {
                    &&& columns.kind@ == "exponential"@
                    &&& columns.base_delay is Some && columns.base_delay->0 * 1_000_000
                        <= base_delay@ < (columns.base_delay->0 + 1) * 1_000_000
                    &&& columns.factor is Some && columns.factor->0 == factor
                    &&& columns.max_delay is Some && columns.max_delay->0 * 1_000_000 <= max_delay@
                        < (columns.max_delay->0 + 1) * 1_000_000
                }
            },
        },
{
}

/// The columns of a retry policy go together exactly when there are none, or a known kind has all of
/// its numbers, none of another, and none below zero; and they are read as that policy.
pub proof fn retry_policies_are_read_by_their_kind(
    policy: Option<RetryPolicy>,
    kind: Option<Seq<char>>,
    base_delay: Option<i64>,
    factor: Option<i32>,
    max_delay: Option<i64>,
)
    requires
        policy_fault(kind, base_delay, factor, max_delay) is None,
        is_stored_policy(policy, kind, base_delay, factor, max_delay),
    ensures
        kind is None <==> policy is None,
        policy matches Some(RetryPolicy::Never) ==> kind == Some("never"@),
        policy matches Some(RetryPolicy::Fixed { delay }) ==> kind == Some("fixed"@)
            && base_delay is Some && base_delay->0 >= 0 && delay@ == base_delay->0 * 1_000_000,
        policy matches Some(
            RetryPolicy::Exponential { base_delay: base, factor: by, max_delay: most },
        ) ==> {
            &&& kind == Some("exponential"@)
            &&& base_delay is Some && base@ == base_delay->0 * 1_000_000
            &&& factor is Some && by == factor->0
            &&& max_delay is Some && most@ == max_delay->0 * 1_000_000
        },
{
    lemma_kinds_differ();
}

/// The answer to a request to wait is ready with its value, or waiting without one, and nothing else
/// makes sense.
pub proof fn waits_are_answered_with_a_value_or_none(row: WaitRow)
    ensures
        wait_outcome(row) matches Some(Some(value)) ==> row.status@ == "ready"@ && row.checkpoint
            == Some(value),
        wait_outcome(row) == Some(None::<Json>) <==> row.status@ == "waiting"@
            && row.checkpoint is None,
        row.status@ == "ready"@ && row.checkpoint is Some ==> wait_outcome(row) == Some(
            row.checkpoint,
        ),
        row.status@ != "ready"@ && row.status@ != "waiting"@ ==> wait_outcome(row) is None,
{
    reveal_strlit("ready");
    reveal_strlit("waiting");
    assert("ready"@.len() != "waiting"@.len());
}

/// Checkpoints, signals, queues and the handlers of a worker are read exactly when their names and
/// numbers make sense.
pub proof fn other_rows_are_read_when_they_make_sense(
    checkpoint: CheckpointRow,
    signal: SignalRow,
    queue: QueueRow,
    capability: CapabilityRow,
    state: Seq<char>,
)
    ensures
        checkpoint_fault(checkpoint) is None <==> checkpoint.handler_version > 0
            && checkpoint.occurrence >= 0 && bounds_error(
            checkpoint.step_name@,
            "step name",
            255,
        ) is None,
        signal_fault(signal) is None <==> signal.occurrence >= 0 && name_error(
            signal.signal_name@,
            "signal name",
            255,
        ) is None,
        queue_fault(queue) is None <==> {
            &&& name_error(queue.name@, "queue name", 128) is None
            &&& queue.terminal_retention_seconds >= 0
            &&& queue.idempotency_retention_seconds >= 0
            &&& queue.starvation_timeout_seconds >= 0
            &&& queue.max_outstanding_tasks matches Some(maximum) ==> maximum > 0
        },
        capability_fault(capability) is None <==> capability.handler_version > 0 && name_error(
            capability.task_name@,
            "task name",
            255,
        ) is None,
        state_fault(state) is None <==> state == "pending"@ || state == "running"@ || state
            == "waiting"@ || state == "succeeded"@ || state == "failed"@ || state == "cancelled"@,
{
    if is_state_text(state) {
        let known = choose|known: TaskState| state == #[trigger] state_text(known);
        match known {
            TaskState::Pending => {},
            TaskState::Running => {},
            TaskState::Waiting => {},
            TaskState::Succeeded => {},
            TaskState::Failed => {},
            TaskState::Cancelled => {},
        }
    }
    assert(state == "pending"@ ==> state == state_text(TaskState::Pending));
    assert(state == "running"@ ==> state == state_text(TaskState::Running));
    assert(state == "waiting"@ ==> state == state_text(TaskState::Waiting));
    assert(state == "succeeded"@ ==> state == state_text(TaskState::Succeeded));
    assert(state == "failed"@ ==> state == state_text(TaskState::Failed));
    assert(state == "cancelled"@ ==> state == state_text(TaskState::Cancelled));
}

/// The handlers of a worker are read in their order when each of them can be; the first that cannot
/// is reported.
pub proof fn handlers_are_read_in_order(
    capabilities: Seq<(TaskName, HandlerVersion)>,
    rows: Seq<CapabilityRow>,
)
    ensures
        (forall|i: int| 0 <= i < rows.len() ==> capability_fault(#[trigger] rows[i]) is None)
            ==> capabilities_fault(rows) is None,
        forall|place: int| #[trigger]
            is_first_faulty(rows, place) ==> capabilities_fault(rows) == capability_fault(
                rows[place],
            ),
        are_capabilities(capabilities, rows) ==> capabilities.len() == rows.len() && forall|i: int|
            #![trigger rows[i]]
            0 <= i < rows.len() ==> capabilities[i].0@ == rows[i].task_name@ && capabilities[i].1@
                == rows[i].handler_version,
{
    assert forall|place: int| #[trigger] is_first_faulty(rows, place) implies capabilities_fault(rows)
        == capability_fault(rows[place]) by {
        let chosen = choose|place: int| is_first_faulty(rows, place);
        assert(is_first_faulty(rows, chosen));
        assert(chosen == place);
    }
    if forall|i: int| 0 <= i < rows.len() ==> capability_fault(#[trigger] rows[i]) is None {
        if exists|place: int| is_first_faulty(rows, place) {
            let place = choose|place: int| is_first_faulty(rows, place);
            assert(capability_fault(rows[place]) is None);
        }
    }
}

/// A schedule row is read exactly when its definition, its policy for misfires and its task make
/// sense.
pub proof fn schedule_rows_are_read_when_they_make_sense(row: ScheduleRow)
    ensures
        schedule_fault(row) is None <==> {
            &&& {
                ||| row.kind@ == "interval"@ && row.interval_milliseconds is Some
                    && row.interval_milliseconds->0 > 0 && row.cron_expression is None
                ||| row.kind@ == "cron"@ && row.interval_milliseconds is None
                    && row.cron_expression is Some && cron_parses(row.cron_expression->0@)
            }
            &&& {
                ||| row.misfire_policy@ == "skip"@ && row.catch_up_limit is None
                ||| row.misfire_policy@ == "latest"@ && row.catch_up_limit is None
                ||| row.misfire_policy@ == "catch_up"@ && row.catch_up_limit is Some && 0
                    < row.catch_up_limit->0 <= 65_535
            }
            &&& row.headers is Object
            &&& row.handler_version > 0
            &&& 0 <= row.max_attempts <= 65_535
            &&& name_error(row.task_name@, "task name", 255) is None
            &&& name_error(row.queue_name@, "queue name", 128) is None
            &&& name_error(row.name@, "schedule name", 255) is None
        },
{
    reveal_strlit("interval");
    reveal_strlit("cron");
    assert("interval"@.len() != "cron"@.len());
    reveal_strlit("skip");
    reveal_strlit("latest");
    reveal_strlit("catch_up");
    assert("skip"@.len() == 4 && "latest"@.len() == 6 && "catch_up"@.len() == 8);
}

/// A schedule is what its row says: its interval in milliseconds or its expression, its policy for
/// misfires, and its task.
pub proof fn schedules_are_what_their_rows_say(
    definition: ScheduleDefinition,
    policy: MisfirePolicy,
    request: EnqueueRequest,
    row: ScheduleRow,
)
    requires
        schedule_fault(row) is None,
        is_stored_definition(definition, row.interval_milliseconds, row.cron_expression),
        is_stored_misfire(policy, row.misfire_policy@, row.catch_up_limit),
        is_scheduled_request(request, row),
    ensures
        definition matches ScheduleDefinition::Interval { every } ==> row.kind@ == "interval"@
            && every@ == row.interval_milliseconds->0 * 1_000_000,
        definition matches ScheduleDefinition::Cron { expression } ==> row.kind@ == "cron"@
            && expression@ == row.cron_expression->0@,
        policy is Skip ==> row.misfire_policy@ == "skip"@,
        policy is Latest ==> row.misfire_policy@ == "latest"@,
        policy matches MisfirePolicy::CatchUp { limit } ==> row.misfire_policy@ == "catch_up"@
            && limit@ == row.catch_up_limit->0,
        request.task_name@ == row.task_name@,
        request.handler_version@ == row.handler_version,
        request.payload == row.payload,
        request.queue_name@ == row.queue_name@,
        request.run_at is None,
        request.priority == row.priority,
        request.max_attempts == row.max_attempts,
        request.idempotency_key is None,
        row.headers == Json::Object(request.headers),
{
    schedule_rows_are_read_when_they_make_sense(row);
    reveal_strlit("interval");
    reveal_strlit("cron");
    assert("interval"@.len() != "cron"@.len());
}

/// Delays are read in milliseconds, and none is read where there is none.
pub proof fn delays_are_read_in_milliseconds(delay: Option<Duration>, milliseconds: Option<i64>)
    ensures
        delay_fault(milliseconds) is None <==> (milliseconds matches Some(value) ==> value >= 0),
        is_delay(delay, milliseconds) ==> (delay is Some <==> milliseconds is Some),
        is_delay(delay, milliseconds) && delay is Some ==> delay->0@ == milliseconds->0 * 1_000_000,
{
}

/// The first of two faults is reported, and the second only without it; a number is at fault exactly
/// when it is out of its range.
pub proof fn the_first_fault_counts(
    first: Option<Fault>,
    second: Option<Fault>,
    value: int,
    minimum: int,
    maximum: int,
)
    ensures
        first is Some ==> first_of(first, second) == first,
        first is None ==> first_of(first, second) == second,
        range_fault(value, minimum, maximum) is None <==> minimum <= value && value <= maximum,
        version_fault(0) is Some,
{
}

/// The answer to a batch is in order and complete, and each task that it created is measured, with
/// its own queue and name.
pub proof fn batches_are_answered_in_order(
    rows: Seq<BatchEnqueueRow>,
    requests: Seq<EnqueueRequest>,
)
    requires
        rows.len() <= requests.len(),
    ensures
        is_batch_answer(rows, requests.len()) ==> rows.len() == requests.len() && forall|i: int|
            #![trigger rows[i]]
            0 <= i < rows.len() ==> rows[i].request_index == i,
        created_readings(rows, requests).len() == rows.filter(
            |row: BatchEnqueueRow| row.created,
        ).len(),
        forall|i: int|
            #![trigger rows[i]]
            0 <= i < rows.len() && rows[i].created ==> created_readings(rows, requests).contains(
                transition_reading(
                    "enqueued"@,
                    requests[i].queue_name@,
                    Some(requests[i].task_name@),
                    1,
                ),
            ),
    decreases rows.len(),
{
    let made = |row: BatchEnqueueRow| row.created;
    reveal(Seq::filter);
    if rows.len() > 0 {
        let earlier = rows.drop_last();
        let before = created_readings(earlier, requests);
        let all = created_readings(rows, requests);
        batches_are_answered_in_order(earlier, requests);
        assert forall|i: int|
            #![trigger rows[i]]
            0 <= i < rows.len() && rows[i].created implies all.contains(
            transition_reading(
                "enqueued"@,
                requests[i].queue_name@,
                Some(requests[i].task_name@),
                1,
            ),
        ) by {
            let wanted = transition_reading(
                "enqueued"@,
                requests[i].queue_name@,
                Some(requests[i].task_name@),
                1,
            );
            if i < earlier.len() {
                assert(earlier[i] == rows[i]);
                assert(before.contains(wanted));
                assert(all[before.index_of(wanted)] == wanted);
            } else {
                assert(all[all.len() - 1] == wanted);
            }
        }
    }
}

/// Stored names are held to the rules of their kind: all but a step's to those of names, and a
/// step's to its bound.
pub proof fn stored_names_are_held_to_their_rules(value: Seq<char>)
    ensures
        task_name_fault(value) == name_fault(name_error(value, "task name", 255)),
        schedule_name_fault(value) == name_fault(name_error(value, "schedule name", 255)),
        signal_name_fault(value) == name_fault(name_error(value, "signal name", 255)),
        step_name_fault(value) == name_fault(bounds_error(value, "step name", 255)),
        queue_name_fault(value) == name_fault(name_error(value, "queue name", 128)),
{
}

/// A stored capacity is missing or above zero.
pub proof fn stored_capacities_are_above_zero(maximum: i64)
    ensures
        capacity_fault(None) is None,
        capacity_fault(Some(maximum)) is None <==> maximum > 0,
        maximum == 0 ==> capacity_fault(Some(maximum)) == Some(Fault::InvalidTask("0"@)),
        maximum < 0 ==> capacity_fault(Some(maximum)) == Some(
            Fault::InvalidTask("out of range integral type conversion attempted"@),
        ),
{
}

/// A retry policy is read when its kind has the numbers that belong to it, and no other, and none
/// of them is negative.
pub proof fn retry_policies_make_sense_by_their_kind(
    kind: Option<Seq<char>>,
    base_delay: Option<i64>,
    factor: Option<i32>,
    max_delay: Option<i64>,
)
    ensures
        ({
            let bare = base_delay is None && factor is None && max_delay is None;
            let shaped = {
                ||| kind is None && bare
                ||| kind == Some("never"@) && bare
                ||| kind == Some("fixed"@) && base_delay is Some && factor is None
                    && max_delay is None
                ||| kind == Some("exponential"@) && base_delay is Some && factor is Some
                    && max_delay is Some
            };
            let counted = (base_delay matches Some(value) ==> value >= 0) && (factor matches Some(
                value,
            ) ==> value >= 0) && (max_delay matches Some(value) ==> value >= 0);
            let fault = policy_fault(kind, base_delay, factor, max_delay);
            &&& shaped && counted ==> fault is None
            &&& !shaped ==> fault == Some(Fault::InvalidTask("invalid retry policy"@))
            &&& shaped && !counted ==> fault == Some(
                Fault::InvalidTask("out of range integral type conversion attempted"@),
            )
        }),
{
}

/// A task has the retry policy that its row holds.
pub proof fn tasks_have_their_own_retry_policy(task: Task, row: TaskRow)
    requires
        is_stored_task(task, row),
        task_fault(row) is None,
    ensures
        row.retry_kind matches Some(kind) ==> {
            &&& kind@ == "never"@ ==> task.retry_policy == Some(RetryPolicy::Never)
            &&& kind@ == "fixed"@ ==> (task.retry_policy matches Some(RetryPolicy::Fixed { delay })
                && delay@ == row.retry_base_delay_milliseconds->0 * 1_000_000)
            &&& kind@ == "exponential"@ ==> (task.retry_policy matches Some(
                RetryPolicy::Exponential { base_delay, factor, max_delay },
            ) && base_delay@ == row.retry_base_delay_milliseconds->0 * 1_000_000 && factor
                == row.retry_factor->0 && max_delay@ == row.retry_max_delay_milliseconds->0
                * 1_000_000)
        },
{
    reveal_strlit("never");
    reveal_strlit("fixed");
    reveal_strlit("exponential");
    assert("never"@.len() == 5);
    assert("fixed"@.len() == 5);
    assert("never"@[0] != "fixed"@[0]);
    assert("exponential"@.len() == 11);
}

/// A row that makes no sense is refused with the reason.
pub proof fn senseless_rows_say_why(
    version: i32,
    kind: Seq<char>,
    interval_milliseconds: Option<i64>,
    cron_expression: Option<String>,
    policy: Seq<char>,
    catch_up_limit: Option<i32>,
    state: Seq<char>,
    value: int,
    minimum: int,
    maximum: int,
)
    ensures
        version_fault(version) is None <==> version > 0,
        version == 0 ==> version_fault(version) == Some(
            Fault::InvalidTask("handler version is zero"@),
        ),
        version < 0 ==> version_fault(version) == Some(
            Fault::InvalidTask("out of range integral type conversion attempted"@),
        ),
        range_fault(value, minimum, maximum) is Some ==> range_fault(value, minimum, maximum)
            == Some(Fault::InvalidTask("out of range integral type conversion attempted"@)),
        state_fault(state) is Some ==> state_fault(state) == Some(
            Fault::InvalidTask("unknown state "@ + str_debug_text(state)),
        ),
        kind == "interval"@ && cron_expression is None && interval_milliseconds == Some(0i64)
            ==> definition_fault(kind, interval_milliseconds, cron_expression) == Some(
            Fault::Schedule(ScheduleError::ZeroInterval),
        ),
        kind == "interval"@ && cron_expression is None && (interval_milliseconds matches Some(
            millis,
        ) && millis < 0) ==> definition_fault(kind, interval_milliseconds, cron_expression) == Some(
            Fault::InvalidTask("out of range integral type conversion attempted"@),
        ),
        kind == "cron"@ && interval_milliseconds is None && (cron_expression matches Some(
            expression,
        ) && !cron_parses(expression@)) ==> definition_fault(
            kind,
            interval_milliseconds,
            cron_expression,
        ) == Some(Fault::Schedule(ScheduleError::InvalidCron)),
        !(kind == "interval"@ && interval_milliseconds is Some && cron_expression is None) && !(kind
            == "cron"@ && interval_milliseconds is None && cron_expression is Some)
            ==> definition_fault(kind, interval_milliseconds, cron_expression) == Some(
            Fault::InvalidTask("invalid schedule definition"@),
        ),
        (policy == "skip"@ || policy == "latest"@) && catch_up_limit is None ==> misfire_fault(
            policy,
            catch_up_limit,
        ) is None,
        policy != "skip"@ && policy != "latest"@ && policy != "catch_up"@ ==> misfire_fault(
            policy,
            catch_up_limit,
        ) == Some(Fault::InvalidTask("invalid schedule misfire policy"@)),
        policy == "catch_up"@ && catch_up_limit == Some(0i32) ==> misfire_fault(
            policy,
            catch_up_limit,
        ) == Some(Fault::InvalidTask("catch-up limit is zero"@)),
        policy == "catch_up"@ && (catch_up_limit matches Some(limit) && (limit < 0 || limit
            > 65_535)) ==> misfire_fault(policy, catch_up_limit) == Some(
            Fault::InvalidTask("out of range integral type conversion attempted"@),
        ),
{
}

/// Where several columns of a row make no sense, the first of them in the order in which they are
/// read is the fault.
pub proof fn rows_are_read_column_by_column(task: TaskRow, schedule: ScheduleRow)
    ensures
        !(task.headers is Object) ==> task_fault(task) == Some(
            Fault::InvalidTask("headers are not an object"@),
        ),
        task.headers is Object && queue_name_fault(task.queue_name@) is Some ==> task_fault(task)
            == queue_name_fault(task.queue_name@),
        task.headers is Object && queue_name_fault(task.queue_name@) is None && task_name_fault(
            task.task_name@,
        ) is Some ==> task_fault(task) == task_name_fault(task.task_name@),
        definition_fault(
            schedule.kind@,
            schedule.interval_milliseconds,
            schedule.cron_expression,
        ) is Some ==> schedule_fault(schedule) == definition_fault(
            schedule.kind@,
            schedule.interval_milliseconds,
            schedule.cron_expression,
        ),
        definition_fault(
            schedule.kind@,
            schedule.interval_milliseconds,
            schedule.cron_expression,
        ) is None && misfire_fault(schedule.misfire_policy@, schedule.catch_up_limit) is Some
            ==> schedule_fault(schedule) == misfire_fault(
            schedule.misfire_policy@,
            schedule.catch_up_limit,
        ),
        definition_fault(
            schedule.kind@,
            schedule.interval_milliseconds,
            schedule.cron_expression,
        ) is None && misfire_fault(schedule.misfire_policy@, schedule.catch_up_limit) is None && !(
        schedule.headers is Object) ==> schedule_fault(schedule) == Some(
            Fault::InvalidTask("schedule headers are not an object"@),
        ),
{
}

/// One more row of an answer adds one reading where it made a task, and none where it did not.
pub proof fn each_created_task_is_counted_once(
    rows: Seq<BatchEnqueueRow>,
    row: BatchEnqueueRow,
    requests: Seq<EnqueueRequest>,
)
    requires
        rows.len() < requests.len(),
    ensures
        created_readings(Seq::empty(), requests) == Seq::<Reading>::empty(),
        row.created ==> created_readings(rows.push(row), requests) == created_readings(
            rows,
            requests,
        ).push(
            transition_reading(
                "enqueued"@,
                requests[rows.len() as int].queue_name@,
                Some(requests[rows.len() as int].task_name@),
                1,
            ),
        ),
        !row.created ==> created_readings(rows.push(row), requests) == created_readings(
            rows,
            requests,
        ),
{
    assert(rows.push(row).drop_last() =~= rows);
}

} // verus!
