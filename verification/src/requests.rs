//! What is handed to PostgreSQL. Every argument is checked before a statement is sent, so that an
//! invalid one changes nothing.

use vstd::prelude::*;

use crate::calendar::cron_parses;
use crate::error::{Fault, PostgresError, UNDEFINED_SCHEMA};
use crate::identifier::{
    HandlerVersion, LeaseToken, QueueName, SignalName, StepName, TaskId, TaskName,
};
use crate::json::{is_text, is_unsigned, Json, JsonObject};
use crate::protocol::{ranges_overlap, StorageProtocolRange};
use crate::retry::RetryPolicy;
use crate::rows::{
    bigint_millis, definition_fault, is_stored_definition, is_stored_misfire, millis_fit,
    misfire_fault, out_of_range_text, policy_columns, queue_fault, queue_name_fault,
    retry_policy_columns, whole_millis, QueueRow, RetryPolicyColumns,
};
use crate::schedule::{
    definition_kind, next_occurrence, MisfirePolicy, ScheduleConfig, ScheduleDefinition,
    ScheduleError,
};
use crate::task::{EnqueueRequest, LeaseRenewal, QueueConfig};
use crate::text::same_text;
use crate::time::{Duration, Timestamp, NANOS_PER_SEC};
use crate::unique::{uuid_text, Uuid};

verus! {

/// What a fallible step comes to, its error in the abstract.
pub open spec fn fails_with<T>(result: Result<T, PostgresError>, fault: Fault) -> bool {
    result is Err && result->Err_0@ == fault
}

/// A request asks for at least one attempt.
pub fn validate_request(request: &EnqueueRequest) -> (result: Result<(), PostgresError>)
    ensures
        if request.max_attempts == 0 {
            result == Err::<(), _>(PostgresError::InvalidMaxAttempts)
        } else {
            result is Ok
        },
{
    if request.max_attempts == 0 {
        return Err(PostgresError::InvalidMaxAttempts);
    }
    Ok(())
}

/// A handler version as a stored integer.
pub fn version_argument(version: HandlerVersion) -> (result: Result<i32, PostgresError>)
    ensures
        if version@ <= i32::MAX {
            result == Ok::<_, PostgresError>(version@ as i32)
        } else {
            result == Err::<i32, _>(PostgresError::InvalidHandlerVersion)
        },
{
    let number: u32 = version.get();
    if number <= i32::MAX as u32 {
        Ok(number as i32)
    } else {
        Err(PostgresError::InvalidHandlerVersion)
    }
}

/// An occurrence as a stored integer.
pub fn occurrence_argument(occurrence: u32) -> (result: Result<i32, PostgresError>)
    ensures
        if occurrence <= i32::MAX {
            result == Ok::<_, PostgresError>(occurrence as i32)
        } else {
            fails_with(result, Fault::InvalidTask(out_of_range_text()))
        },
{
    if occurrence <= i32::MAX as u32 {
        Ok(occurrence as i32)
    } else {
        Err(PostgresError::invalid_task("out of range integral type conversion attempted"))
    }
}

/// The arguments of `pgtask.enqueue`, but for the headers, which carry a trace.
#[derive(Debug)]
pub struct EnqueueArguments<'a> {
    pub task_name: &'a TaskName,
    pub payload: &'a Json,
    pub queue_name: &'a QueueName,
    pub handler_version: i32,
    pub run_at: Option<Timestamp>,
    pub priority: i16,
    pub max_attempts: i32,
    pub idempotency_key: &'a Option<String>,
}

/// What is wrong with a request.
pub open spec fn request_fault(request: EnqueueRequest) -> Option<Fault> {
    if request.max_attempts == 0 {
        Some(Fault::InvalidMaxAttempts)
    } else if request.handler_version@ > i32::MAX {
        Some(Fault::InvalidHandlerVersion)
    } else {
        None
    }
}

/// Whether arguments say what a request says.
pub open spec fn are_enqueue_arguments(arguments: EnqueueArguments<'_>, request: EnqueueRequest) -> bool {
    &&& *arguments.task_name == request.task_name
    &&& *arguments.payload == request.payload
    &&& *arguments.queue_name == request.queue_name
    &&& arguments.handler_version == request.handler_version@
    &&& arguments.run_at == request.run_at
    &&& arguments.priority == request.priority
    &&& arguments.max_attempts == request.max_attempts
    &&& *arguments.idempotency_key == request.idempotency_key
}

pub fn enqueue_arguments<'a>(request: &'a EnqueueRequest) -> (result: Result<
    EnqueueArguments<'a>,
    PostgresError,
>)
    ensures
        match request_fault(*request) {
            Some(fault) => fails_with(result, fault),
            None => result is Ok && are_enqueue_arguments(result->Ok_0, *request),
        },
        result matches Ok(arguments) ==> {
            &&& arguments.run_at == request.run_at
            &&& arguments.priority == request.priority
            &&& *arguments.queue_name == request.queue_name
            &&& *arguments.payload == request.payload
        },
{
    match validate_request(request) {
        Ok(()) => {},
        Err(error) => return Err(error),
    }
    let handler_version: i32 = match version_argument(request.handler_version) {
        Ok(version) => version,
        Err(error) => return Err(error),
    };
    Ok(
        EnqueueArguments {
            task_name: &request.task_name,
            payload: &request.payload,
            queue_name: &request.queue_name,
            handler_version,
            run_at: request.run_at,
            priority: request.priority,
            max_attempts: request.max_attempts as i32,
            idempotency_key: &request.idempotency_key,
        },
    )
}

/// Whether the request at `place` is the first that something is wrong with.
pub open spec fn is_first_bad_request(requests: Seq<EnqueueRequest>, place: int) -> bool {
    &&& 0 <= place < requests.len()
    &&& request_fault(requests[place]) is Some
    &&& forall|i: int| 0 <= i < place ==> request_fault(#[trigger] requests[i]) is None
}

/// Checks every request of a batch; a batch is sent whole or not at all.
pub fn validate_batch(requests: &Vec<EnqueueRequest>) -> (result: Result<(), PostgresError>)
    ensures
        result is Ok <==> forall|i: int|
            0 <= i < requests@.len() ==> request_fault(#[trigger] requests@[i]) is None,
        result is Err ==> exists|place: int|
            #[trigger] is_first_bad_request(requests@, place) && request_fault(requests@[place])
                == Some(result->Err_0@),
{
    let mut index: usize = 0;
    while index < requests.len()
        invariant
            index <= requests@.len(),
            forall|i: int| 0 <= i < index ==> request_fault(#[trigger] requests@[i]) is None,
        decreases requests@.len() - index,
    {
        match enqueue_arguments(&requests[index]) {
            Ok(_) => {},
            Err(error) => {
                assert(is_first_bad_request(requests@, index as int));
                return Err(error);
            },
        }
        index += 1;
    }
    Ok(())
}

/// A child task to be created by a step of its parent.
#[derive(Clone, Debug)]
pub struct SpawnRequest<'a> {
    pub parent_task_id: TaskId,
    pub parent_attempt: u16,
    pub parent_lease_token: LeaseToken,
    pub step_name: &'a StepName,
    pub occurrence: u32,
    pub task: &'a EnqueueRequest,
}

/// The arguments of `pgtask.spawn_task`, but for the headers.
#[derive(Debug)]
pub struct SpawnArguments<'a> {
    pub parent_task_id: Uuid,
    pub parent_attempt: i32,
    pub parent_lease_token: Uuid,
    pub step_name: &'a StepName,
    pub occurrence: i32,
    pub task: EnqueueArguments<'a>,
}

/// What is wrong with a child task.
pub open spec fn spawn_fault(request: SpawnRequest<'_>) -> Option<Fault> {
    if request.task.max_attempts == 0 {
        Some(Fault::InvalidMaxAttempts)
    } else if request.occurrence > i32::MAX {
        Some(Fault::InvalidTask(out_of_range_text()))
    } else {
        request_fault(*request.task)
    }
}

pub fn spawn_arguments<'a>(request: &SpawnRequest<'a>) -> (result: Result<
    SpawnArguments<'a>,
    PostgresError,
>)
    ensures
        match spawn_fault(*request) {
            Some(fault) => fails_with(result, fault),
            None => {
                &&& result matches Ok(arguments)
                &&& arguments.parent_task_id == request.parent_task_id.uuid
                &&& arguments.parent_attempt == request.parent_attempt
                &&& arguments.parent_lease_token == request.parent_lease_token.uuid
                &&& arguments.step_name == request.step_name
                &&& arguments.occurrence == request.occurrence
                &&& are_enqueue_arguments(arguments.task, *request.task)
            },
        },
{
    match validate_request(request.task) {
        Ok(()) => {},
        Err(error) => return Err(error),
    }
    let occurrence: i32 = match occurrence_argument(request.occurrence) {
        Ok(number) => number,
        Err(error) => return Err(error),
    };
    let task = match enqueue_arguments(request.task) {
        Ok(task) => task,
        Err(error) => return Err(error),
    };
    Ok(
        SpawnArguments {
            parent_task_id: request.parent_task_id.as_uuid(),
            parent_attempt: request.parent_attempt as i32,
            parent_lease_token: request.parent_lease_token.as_uuid(),
            step_name: request.step_name,
            occurrence,
            task,
        },
    )
}

/// The handlers that a worker has, as two columns.
#[derive(Debug, PartialEq, Eq)]
pub struct CapabilityColumns {
    pub task_names: Vec<String>,
    pub handler_versions: Vec<i32>,
}

/// Whether every version fits in a stored integer.
pub open spec fn versions_fit(capabilities: Seq<(TaskName, HandlerVersion)>) -> bool {
    forall|i: int| 0 <= i < capabilities.len() ==> (#[trigger] capabilities[i]).1@ <= i32::MAX
}

/// What is wrong with the handlers that a worker has.
pub open spec fn capabilities_fault(capabilities: Seq<(TaskName, HandlerVersion)>) -> Option<Fault> {
    if capabilities.len() == 0 {
        Some(Fault::MissingCapabilities)
    } else if !versions_fit(capabilities) {
        Some(Fault::InvalidHandlerVersion)
    } else {
        None
    }
}

/// Whether two columns list handlers in their order.
pub open spec fn are_capability_columns(
    columns: CapabilityColumns,
    capabilities: Seq<(TaskName, HandlerVersion)>,
) -> bool {
    &&& columns.task_names@.len() == capabilities.len()
    &&& columns.handler_versions@.len() == capabilities.len()
    &&& forall|i: int|
        0 <= i < capabilities.len() ==> (#[trigger] columns.task_names@[i])@ == capabilities[i].0@
    &&& forall|i: int|
        0 <= i < capabilities.len() ==> (#[trigger] columns.handler_versions@[i])
            == capabilities[i].1@
}

/// The handlers of a worker as columns, for `pgtask.claim` and its like.
pub fn capability_columns(capabilities: &Vec<(TaskName, HandlerVersion)>) -> (result: Result<
    CapabilityColumns,
    PostgresError,
>)
    ensures
        match capabilities_fault(capabilities@) {
            Some(fault) => fails_with(result, fault),
            None => result is Ok && are_capability_columns(result->Ok_0, capabilities@),
        },
{
    if capabilities.is_empty() {
        return Err(PostgresError::MissingCapabilities);
    }
    let mut task_names: Vec<String> = Vec::new();
    let mut handler_versions: Vec<i32> = Vec::new();
    let mut index: usize = 0;
    while index < capabilities.len()
        invariant
            index <= capabilities@.len(),
            capabilities@.len() > 0,
            task_names@.len() == index,
            handler_versions@.len() == index,
            forall|i: int| 0 <= i < index ==> (#[trigger] capabilities@[i]).1@ <= i32::MAX,
            forall|i: int|
                0 <= i < index ==> (#[trigger] task_names@[i])@ == capabilities@[i].0@,
            forall|i: int|
                0 <= i < index ==> (#[trigger] handler_versions@[i]) == capabilities@[i].1@,
        decreases capabilities@.len() - index,
    {
        task_names.push(capabilities[index].0.to_string());
        match version_argument(capabilities[index].1) {
            Ok(version) => handler_versions.push(version),
            Err(error) => {
                assert(capabilities@[index as int].1@ > i32::MAX);
                return Err(error);
            },
        }
        index += 1;
    }
    Ok(CapabilityColumns { task_names, handler_versions })
}

/// What is wrong with the time that a worker may stay silent.
pub open spec fn ttl_fault(ttl: Duration) -> Option<Fault> {
    if millis_fit(ttl@) && whole_millis(ttl@) > 0 {
        None
    } else {
        Some(Fault::InvalidLeaseDuration)
    }
}

/// The time that a worker may stay silent, in milliseconds: at least one.
pub fn ttl_argument(ttl: Duration) -> (result: Result<i64, PostgresError>)
    ensures
        match ttl_fault(ttl) {
            Some(fault) => fails_with(result, fault),
            None => result == Ok::<_, PostgresError>(whole_millis(ttl@) as i64),
        },
{
    match bigint_millis(ttl) {
        Some(millis) => if millis == 0 {
            Err(PostgresError::InvalidLeaseDuration)
        } else {
            Ok(millis)
        },
        None => Err(PostgresError::InvalidLeaseDuration),
    }
}

/// The handlers of a worker with their retry policies, as columns.
#[derive(Debug)]
pub struct RegistrationColumns {
    pub capabilities: CapabilityColumns,
    pub policies: Vec<RetryPolicyColumns>,
    pub ttl_milliseconds: i64,
}

/// Handlers without their retry policies.
pub open spec fn without_policies(
    registrations: Seq<(TaskName, HandlerVersion, RetryPolicy)>,
) -> Seq<(TaskName, HandlerVersion)> {
    registrations.map_values(
        |registration: (TaskName, HandlerVersion, RetryPolicy)| (registration.0, registration.1),
    )
}

/// Whether every retry policy can be stored.
pub open spec fn policies_fit(registrations: Seq<(TaskName, HandlerVersion, RetryPolicy)>) -> bool {
    forall|i: int|
        0 <= i < registrations.len() ==> policy_columns((#[trigger] registrations[i]).2) is Some
}

/// What is wrong with the registration of a worker.
pub open spec fn registration_fault(
    registrations: Seq<(TaskName, HandlerVersion, RetryPolicy)>,
    ttl: Duration,
) -> Option<Fault> {
    if registrations.len() == 0 {
        Some(Fault::MissingCapabilities)
    } else if ttl_fault(ttl) is Some {
        ttl_fault(ttl)
    } else if !versions_fit(without_policies(registrations)) {
        Some(Fault::InvalidHandlerVersion)
    } else if !policies_fit(registrations) {
        Some(Fault::InvalidRetryPolicy)
    } else {
        None
    }
}

/// The arguments of `pgtask.register_worker` that its handlers and its time to live make up.
pub fn registration_columns(
    registrations: &Vec<(TaskName, HandlerVersion, RetryPolicy)>,
    ttl: Duration,
) -> (result: Result<RegistrationColumns, PostgresError>)
    ensures
        match registration_fault(registrations@, ttl) {
            Some(fault) => fails_with(result, fault),
            None => {
                &&& result matches Ok(columns)
                &&& are_capability_columns(columns.capabilities, without_policies(registrations@))
                &&& columns.policies@.len() == registrations@.len()
                &&& forall|i: int|
                    0 <= i < registrations@.len() ==> Some(#[trigger] columns.policies@[i])
                        == policy_columns(registrations@[i].2)
                &&& columns.ttl_milliseconds == whole_millis(ttl@)
            },
        },
{
    if registrations.is_empty() {
        return Err(PostgresError::MissingCapabilities);
    }
    let ttl_milliseconds: i64 = match ttl_argument(ttl) {
        Ok(millis) => millis,
        Err(error) => return Err(error),
    };
    let mut task_names: Vec<String> = Vec::new();
    let mut handler_versions: Vec<i32> = Vec::new();
    let mut index: usize = 0;
    let ghost bare = without_policies(registrations@);
    while index < registrations.len()
        invariant
            index <= registrations@.len(),
            registrations@.len() > 0,
            ttl_fault(ttl) is None,
            bare == without_policies(registrations@),
            task_names@.len() == index,
            handler_versions@.len() == index,
            forall|i: int| 0 <= i < index ==> (#[trigger] bare[i]).1@ <= i32::MAX,
            forall|i: int| 0 <= i < index ==> (#[trigger] task_names@[i])@ == bare[i].0@,
            forall|i: int| 0 <= i < index ==> (#[trigger] handler_versions@[i]) == bare[i].1@,
        decreases registrations@.len() - index,
    {
        assert(bare[index as int] == (registrations@[index as int].0, registrations@[index as int].1));
        task_names.push(registrations[index].0.to_string());
        match version_argument(registrations[index].1) {
            Ok(version) => handler_versions.push(version),
            Err(error) => {
                assert(bare[index as int].1@ > i32::MAX);
                return Err(error);
            },
        }
        index += 1;
    }
    let mut policies: Vec<RetryPolicyColumns> = Vec::new();
    let mut place: usize = 0;
    while place < registrations.len()
        invariant
            place <= registrations@.len(),
            registrations@.len() > 0,
            ttl_fault(ttl) is None,
            versions_fit(without_policies(registrations@)),
            policies@.len() == place,
            forall|i: int|
                0 <= i < place ==> policy_columns((#[trigger] registrations@[i]).2) is Some,
            forall|i: int|
                0 <= i < place ==> Some(#[trigger] policies@[i]) == policy_columns(
                    registrations@[i].2,
                ),
        decreases registrations@.len() - place,
    {
        match retry_policy_columns(registrations[place].2) {
            Ok(columns) => policies.push(columns),
            Err(error) => {
                assert(policy_columns(registrations@[place as int].2) is None);
                return Err(error);
            },
        }
        place += 1;
    }
    Ok(
        RegistrationColumns {
            capabilities: CapabilityColumns { task_names, handler_versions },
            policies,
            ttl_milliseconds,
        },
    )
}

/// The arguments of `pgtask.put_queue` after the name.
#[derive(Clone, Copy, Debug, PartialEq, Eq, Structural)]
pub struct QueueArguments {
    pub retention_seconds: i64,
    pub idempotency_retention_seconds: i64,
    pub max_outstanding_tasks: Option<i64>,
    pub starvation_timeout_seconds: i64,
}

/// Whole seconds of a span.
pub open spec fn whole_secs(span: nat) -> nat {
    span / NANOS_PER_SEC as nat
}

/// What is wrong with the configuration of a queue.
pub open spec fn queue_config_fault(config: QueueConfig) -> Option<Fault> {
    if whole_secs(config.terminal_retention@) > i64::MAX {
        Some(Fault::InvalidTask("queue retention exceeds the Postgres bigint range"@))
    } else if whole_secs(config.idempotency_retention@) > i64::MAX {
        Some(Fault::InvalidTask("idempotency retention exceeds the Postgres bigint range"@))
    } else if config.max_outstanding_tasks is Some && config.max_outstanding_tasks->0@ > i64::MAX {
        Some(Fault::InvalidTask("queue capacity exceeds the Postgres bigint range"@))
    } else if whole_secs(config.starvation_timeout@) > i64::MAX {
        Some(Fault::InvalidTask("starvation timeout exceeds the Postgres bigint range"@))
    } else {
        None
    }
}

pub fn queue_arguments(config: &QueueConfig) -> (result: Result<QueueArguments, PostgresError>)
    ensures
        match queue_config_fault(*config) {
            Some(fault) => fails_with(result, fault),
            None => {
                &&& result matches Ok(arguments)
                &&& arguments.retention_seconds == whole_secs(config.terminal_retention@)
                &&& arguments.idempotency_retention_seconds == whole_secs(
                    config.idempotency_retention@,
                )
                &&& arguments.max_outstanding_tasks is Some
                    <==> config.max_outstanding_tasks is Some
                &&& arguments.max_outstanding_tasks is Some ==> arguments.max_outstanding_tasks->0
                    == config.max_outstanding_tasks->0@
                &&& arguments.starvation_timeout_seconds == whole_secs(config.starvation_timeout@)
            },
        },
{
    let retention: u64 = config.terminal_retention.as_secs();
    if retention > i64::MAX as u64 {
        return Err(PostgresError::invalid_task("queue retention exceeds the Postgres bigint range"));
    }
    let idempotency: u64 = config.idempotency_retention.as_secs();
    if idempotency > i64::MAX as u64 {
        return Err(
            PostgresError::invalid_task("idempotency retention exceeds the Postgres bigint range"),
        );
    }
    let max_outstanding_tasks = match config.max_outstanding_tasks {
        Some(maximum) => {
            let number: u64 = maximum.get();
            if number > i64::MAX as u64 {
                return Err(
                    PostgresError::invalid_task("queue capacity exceeds the Postgres bigint range"),
                );
            }
            Some(number as i64)
        },
        None => None,
    };
    let starvation: u64 = config.starvation_timeout.as_secs();
    if starvation > i64::MAX as u64 {
        return Err(
            PostgresError::invalid_task("starvation timeout exceeds the Postgres bigint range"),
        );
    }
    Ok(
        QueueArguments {
            retention_seconds: retention as i64,
            idempotency_retention_seconds: idempotency as i64,
            max_outstanding_tasks,
            starvation_timeout_seconds: starvation as i64,
        },
    )
}

/// A stored queue reads back as it was configured, but for parts of seconds.
pub proof fn queues_read_back(config: QueueConfig, row: QueueRow)
    requires
        queue_config_fault(config) is None,
        config.max_outstanding_tasks matches Some(maximum) ==> maximum@ > 0,
        queue_name_fault(row.name@) is None,
        row.terminal_retention_seconds == whole_secs(config.terminal_retention@),
        row.idempotency_retention_seconds == whole_secs(config.idempotency_retention@),
        row.max_outstanding_tasks is Some <==> config.max_outstanding_tasks is Some,
        row.max_outstanding_tasks is Some ==> row.max_outstanding_tasks->0
            == config.max_outstanding_tasks->0@,
        row.starvation_timeout_seconds == whole_secs(config.starvation_timeout@),
    ensures
        queue_fault(row) is None,
        whole_secs(row.terminal_retention_seconds as nat * NANOS_PER_SEC as nat) == whole_secs(
            config.terminal_retention@,
        ),
        whole_secs(row.idempotency_retention_seconds as nat * NANOS_PER_SEC as nat) == whole_secs(
            config.idempotency_retention@,
        ),
        whole_secs(row.starvation_timeout_seconds as nat * NANOS_PER_SEC as nat) == whole_secs(
            config.starvation_timeout@,
        ),
{
}

/// How a misfire policy is stored.
pub open spec fn misfire_columns(policy: MisfirePolicy) -> (Seq<char>, Option<i32>) {
    match policy {
        MisfirePolicy::Skip => ("skip"@, None),
        MisfirePolicy::Latest => ("latest"@, None),
        MisfirePolicy::CatchUp { limit } => ("catch_up"@, Some(limit@ as i32)),
    }
}

/// The arguments of `pgtask.put_schedule` that are not taken from the schedule as they are.
#[derive(Debug)]
pub struct ScheduleArguments {
    pub kind: &'static str,
    pub interval_milliseconds: Option<i64>,
    pub cron_expression: Option<String>,
    pub misfire_policy: &'static str,
    pub catch_up_limit: Option<i32>,
    pub handler_version: i32,
    pub max_attempts: i32,
    pub next_run_at: Timestamp,
}

/// What is wrong with a schedule whose next occurrence is `next`. The next occurrence has to exist
/// even where the schedule says when it starts.
pub open spec fn schedule_config_fault(
    config: ScheduleConfig,
    next: Result<int, ScheduleError>,
) -> Option<Fault> {
    if config.task.max_attempts == 0 {
        Some(Fault::InvalidMaxAttempts)
    } else if next is Err {
        Some(Fault::Schedule(next->Err_0))
    } else if config.definition is Interval && !millis_fit(config.definition->every@) {
        Some(Fault::Schedule(ScheduleError::IntervalOutOfRange))
    } else if config.task.handler_version@ > i32::MAX {
        Some(Fault::InvalidHandlerVersion)
    } else {
        None
    }
}

/// Whether arguments say what a schedule says whose next occurrence is `next`.
pub open spec fn are_schedule_arguments(
    arguments: ScheduleArguments,
    config: ScheduleConfig,
    next: Result<int, ScheduleError>,
) -> bool {
    &&& arguments.kind@ == definition_kind(config.definition)
    &&& match config.definition {
        ScheduleDefinition::Interval { every } => {
            &&& arguments.interval_milliseconds == Some(whole_millis(every@) as i64)
            &&& arguments.cron_expression is None
        },
        ScheduleDefinition::Cron { expression } => {
            &&& arguments.interval_milliseconds is None
            &&& arguments.cron_expression is Some
            &&& arguments.cron_expression->0@ == expression@
        },
    }
    &&& (arguments.misfire_policy@, arguments.catch_up_limit) == misfire_columns(
        config.misfire_policy,
    )
    &&& arguments.handler_version == config.task.handler_version@
    &&& arguments.max_attempts == config.task.max_attempts
    &&& match config.start_at {
        Some(start) => arguments.next_run_at == start,
        None => Ok::<int, ScheduleError>(arguments.next_run_at@) == next,
    }
}

/// An occurrence as nanoseconds since the epoch.
pub open spec fn occurrence(next: Result<Timestamp, ScheduleError>) -> Result<int, ScheduleError> {
    match next {
        Ok(instant) => Ok(instant@),
        Err(error) => Err(error),
    }
}

/// The arguments for a schedule at `now`.
pub fn schedule_arguments(config: &ScheduleConfig, now: Timestamp) -> (result: Result<
    ScheduleArguments,
    PostgresError,
>)
    ensures
        match schedule_config_fault(*config, next_occurrence(config.definition, now@)) {
            Some(fault) => fails_with(result, fault),
            None => result is Ok && are_schedule_arguments(
                result->Ok_0,
                *config,
                next_occurrence(config.definition, now@),
            ),
        },
{
    schedule_arguments_for(config, config.definition.next_after(now))
}

/// The arguments for a schedule whose next occurrence is `next`.
pub fn schedule_arguments_for(
    config: &ScheduleConfig,
    next: Result<Timestamp, ScheduleError>,
) -> (result: Result<ScheduleArguments, PostgresError>)
    ensures
        match schedule_config_fault(*config, occurrence(next)) {
            Some(fault) => fails_with(result, fault),
            None => result is Ok && are_schedule_arguments(
                result->Ok_0,
                *config,
                occurrence(next),
            ),
        },
{
    match validate_request(&config.task) {
        Ok(()) => {},
        Err(error) => return Err(error),
    }
    let following = match next {
        Ok(instant) => instant,
        Err(error) => return Err(PostgresError::Schedule(error)),
    };
    let next_run_at = match config.start_at {
        Some(start) => start,
        None => following,
    };
    let (interval_milliseconds, cron_expression) = match &config.definition {
        ScheduleDefinition::Interval { every } => match bigint_millis(*every) {
            Some(millis) => (Some(millis), None),
            None => return Err(PostgresError::Schedule(ScheduleError::IntervalOutOfRange)),
        },
        ScheduleDefinition::Cron { expression } => (None, Some(expression.clone())),
    };
    let (misfire_policy, catch_up_limit) = match config.misfire_policy {
        MisfirePolicy::Skip => ("skip", None),
        MisfirePolicy::Latest => ("latest", None),
        MisfirePolicy::CatchUp { limit } => ("catch_up", Some(limit.get() as i32)),
    };
    let handler_version: i32 = match version_argument(config.task.handler_version) {
        Ok(version) => version,
        Err(error) => return Err(error),
    };
    Ok(
        ScheduleArguments {
            kind: config.definition.kind(),
            interval_milliseconds,
            cron_expression,
            misfire_policy,
            catch_up_limit,
            handler_version,
            max_attempts: config.task.max_attempts as i32,
            next_run_at,
        },
    )
}

/// Whether two policies treat missed occurrences alike.
pub open spec fn same_misfire(left: MisfirePolicy, right: MisfirePolicy) -> bool {
    match (left, right) {
        (MisfirePolicy::Skip, MisfirePolicy::Skip) => true,
        (MisfirePolicy::Latest, MisfirePolicy::Latest) => true,
        (MisfirePolicy::CatchUp { limit: one }, MisfirePolicy::CatchUp { limit: other }) => one@
            == other@,
        _ => false,
    }
}

/// A stored misfire policy reads back as it was.
pub proof fn misfire_policies_read_back(policy: MisfirePolicy, read: MisfirePolicy)
    requires
        policy matches MisfirePolicy::CatchUp { limit } ==> limit@ > 0,
        is_stored_misfire(read, misfire_columns(policy).0, misfire_columns(policy).1),
    ensures
        misfire_fault(misfire_columns(policy).0, misfire_columns(policy).1) is None,
        same_misfire(policy, read),
{
    reveal_strlit("skip");
    reveal_strlit("latest");
    reveal_strlit("catch_up");
    assert("skip"@.len() == 4 && "latest"@.len() == 6 && "catch_up"@.len() == 8);
}

/// Whether two definitions name the same occurrences, as far as milliseconds tell them apart.
pub open spec fn same_definition(left: ScheduleDefinition, right: ScheduleDefinition) -> bool {
    match (left, right) {
        (
            ScheduleDefinition::Interval { every: one },
            ScheduleDefinition::Interval { every: other },
        ) => whole_millis(one@) == whole_millis(other@),
        (
            ScheduleDefinition::Cron { expression: one },
            ScheduleDefinition::Cron { expression: other },
        ) => one@ == other@,
        _ => false,
    }
}

/// A stored schedule of a millisecond or more, or of a cron expression, reads back as it was, but
/// for less than a millisecond of its interval.
pub proof fn schedules_read_back(
    arguments: ScheduleArguments,
    config: ScheduleConfig,
    next: Result<int, ScheduleError>,
    read: ScheduleDefinition,
)
    requires
        schedule_config_fault(config, next) is None,
        are_schedule_arguments(arguments, config, next),
        config.definition matches ScheduleDefinition::Interval { every } ==> whole_millis(every@)
            > 0,
        is_stored_definition(read, arguments.interval_milliseconds, arguments.cron_expression),
    ensures
        (config.definition matches ScheduleDefinition::Cron { expression } ==> cron_parses(
            expression@,
        )) ==> definition_fault(
            arguments.kind@,
            arguments.interval_milliseconds,
            arguments.cron_expression,
        ) is None,
        same_definition(config.definition, read),
{
}

/// Which batch a limit is for; each reports a limit of zero in its own way.
#[derive(Clone, Copy, Debug, PartialEq, Eq, Structural)]
pub enum Batch {
    Claim,
    Retention,
    Schedule,
    Wait,
}

/// The fault of a limit of zero.
pub open spec fn limit_fault(batch: Batch) -> Fault {
    match batch {
        Batch::Claim => Fault::InvalidClaimLimit,
        Batch::Retention => Fault::InvalidRetentionLimit,
        Batch::Schedule => Fault::InvalidScheduleLimit,
        Batch::Wait => Fault::InvalidWaitLimit,
    }
}

/// The limit of a batch as a stored integer: at least one.
pub fn limit_argument(batch: Batch, limit: u16) -> (result: Result<i32, PostgresError>)
    ensures
        if limit == 0 {
            fails_with(result, limit_fault(batch))
        } else {
            result == Ok::<_, PostgresError>(limit as i32)
        },
{
    if limit == 0 {
        return match batch {
            Batch::Claim => Err(PostgresError::InvalidClaimLimit),
            Batch::Retention => Err(PostgresError::InvalidRetentionLimit),
            Batch::Schedule => Err(PostgresError::InvalidScheduleLimit),
            Batch::Wait => Err(PostgresError::InvalidWaitLimit),
        };
    }
    Ok(limit as i32)
}

/// The arguments of `pgtask.claim` after the queue and the worker.
#[derive(Debug, PartialEq, Eq)]
pub struct ClaimArguments {
    pub capabilities: CapabilityColumns,
    pub limit: i32,
    pub lease_milliseconds: i64,
}

/// What is wrong with a claim.
pub open spec fn claim_fault(
    capabilities: Seq<(TaskName, HandlerVersion)>,
    limit: u16,
    lease_duration: Duration,
) -> Option<Fault> {
    if limit == 0 {
        Some(Fault::InvalidClaimLimit)
    } else if lease_duration@ == 0 {
        Some(Fault::InvalidLeaseDuration)
    } else if capabilities_fault(capabilities) is Some {
        capabilities_fault(capabilities)
    } else if !millis_fit(lease_duration@) {
        Some(Fault::InvalidLeaseDuration)
    } else {
        None
    }
}

pub fn claim_arguments(
    capabilities: &Vec<(TaskName, HandlerVersion)>,
    limit: u16,
    lease_duration: Duration,
) -> (result: Result<ClaimArguments, PostgresError>)
    ensures
        match claim_fault(capabilities@, limit, lease_duration) {
            Some(fault) => fails_with(result, fault),
            None => {
                &&& result matches Ok(arguments)
                &&& are_capability_columns(arguments.capabilities, capabilities@)
                &&& arguments.limit == limit
                &&& arguments.lease_milliseconds == whole_millis(lease_duration@)
            },
        },
{
    let limit: i32 = match limit_argument(Batch::Claim, limit) {
        Ok(limit) => limit,
        Err(error) => return Err(error),
    };
    if lease_duration.is_zero() {
        return Err(PostgresError::InvalidLeaseDuration);
    }
    let capabilities = match capability_columns(capabilities) {
        Ok(columns) => columns,
        Err(error) => return Err(error),
    };
    match bigint_millis(lease_duration) {
        Some(lease_milliseconds) => Ok(
            ClaimArguments { capabilities, limit, lease_milliseconds },
        ),
        None => Err(PostgresError::InvalidLeaseDuration),
    }
}

/// A sleep in milliseconds.
pub fn sleep_argument(duration: Duration) -> (result: Result<i64, PostgresError>)
    ensures
        if millis_fit(duration@) {
            result == Ok::<_, PostgresError>(whole_millis(duration@) as i64)
        } else {
            fails_with(result, Fault::InvalidSleepDuration)
        },
{
    match bigint_millis(duration) {
        Some(millis) => Ok(millis),
        None => Err(PostgresError::InvalidSleepDuration),
    }
}

/// The numbers of a checkpoint to be looked up: the version of its handler and its occurrence.
pub fn checkpoint_arguments(handler_version: HandlerVersion, occurrence: u32) -> (result: Result<
    (i32, i32),
    PostgresError,
>)
    ensures
        if handler_version@ > i32::MAX {
            result == Err::<(i32, i32), _>(PostgresError::InvalidHandlerVersion)
        } else if occurrence > i32::MAX {
            fails_with(result, Fault::InvalidTask(out_of_range_text()))
        } else {
            result == Ok::<_, PostgresError>((handler_version@ as i32, occurrence as i32))
        },
{
    match version_argument(handler_version) {
        Ok(version) => match occurrence_argument(occurrence) {
            Ok(number) => Ok((version, number)),
            Err(error) => Err(error),
        },
        Err(error) => Err(error),
    }
}

/// The numbers and the wake-up time of a task to be suspended. It wakes at an instant or after a
/// delay, never both.
#[derive(Clone, Copy, Debug, PartialEq, Eq, Structural)]
pub struct SuspendArguments {
    pub attempt: i32,
    pub occurrence: i32,
    pub wake_at: Option<Timestamp>,
    pub delay_milliseconds: Option<i64>,
}

/// A sleep until an instant.
pub fn sleep_until_arguments(attempt: u16, occurrence: u32, wake_at: Timestamp) -> (result: Result<
    SuspendArguments,
    PostgresError,
>)
    ensures
        if occurrence > i32::MAX {
            fails_with(result, Fault::InvalidTask(out_of_range_text()))
        } else {
            result == Ok::<_, PostgresError>(
                SuspendArguments {
                    attempt: attempt as i32,
                    occurrence: occurrence as i32,
                    wake_at: Some(wake_at),
                    delay_milliseconds: None,
                },
            )
        },
{
    match occurrence_argument(occurrence) {
        Ok(occurrence) => Ok(
            SuspendArguments {
                attempt: attempt as i32,
                occurrence,
                wake_at: Some(wake_at),
                delay_milliseconds: None,
            },
        ),
        Err(error) => Err(error),
    }
}

/// A sleep for some time.
pub fn sleep_for_arguments(attempt: u16, occurrence: u32, duration: Duration) -> (result: Result<
    SuspendArguments,
    PostgresError,
>)
    ensures
        if !millis_fit(duration@) {
            fails_with(result, Fault::InvalidSleepDuration)
        } else if occurrence > i32::MAX {
            fails_with(result, Fault::InvalidTask(out_of_range_text()))
        } else {
            result == Ok::<_, PostgresError>(
                SuspendArguments {
                    attempt: attempt as i32,
                    occurrence: occurrence as i32,
                    wake_at: None,
                    delay_milliseconds: Some(whole_millis(duration@) as i64),
                },
            )
        },
{
    let millis: i64 = match sleep_argument(duration) {
        Ok(millis) => millis,
        Err(error) => return Err(error),
    };
    match occurrence_argument(occurrence) {
        Ok(occurrence) => Ok(
            SuspendArguments {
                attempt: attempt as i32,
                occurrence,
                wake_at: None,
                delay_milliseconds: Some(millis),
            },
        ),
        Err(error) => Err(error),
    }
}

/// A request to wait for a signal.
#[derive(Clone, Debug)]
pub struct SignalWaitRequest<'a> {
    pub task_id: TaskId,
    pub attempt: u16,
    pub lease_token: LeaseToken,
    pub step_name: &'a StepName,
    pub occurrence: u32,
    pub signal_name: &'a SignalName,
    pub signal_occurrence: u32,
    pub timeout: Option<Duration>,
}

/// The numbers of a request to wait for a signal as they are stored.
#[derive(Clone, Copy, Debug, PartialEq, Eq, Structural)]
pub struct SignalWaitArguments {
    pub attempt: i32,
    pub occurrence: i32,
    pub signal_occurrence: i32,
    pub timeout_milliseconds: Option<i64>,
}

/// The milliseconds of an optional span.
pub open spec fn optional_millis(span: Option<Duration>) -> Option<i64> {
    match span {
        Some(span) => Some(whole_millis(span@) as i64),
        None => None,
    }
}

/// What is wrong with a request to wait for a signal.
pub open spec fn signal_wait_fault(request: SignalWaitRequest<'_>) -> Option<Fault> {
    if request.occurrence > i32::MAX || request.signal_occurrence > i32::MAX {
        Some(Fault::InvalidTask(out_of_range_text()))
    } else if request.timeout is Some && !millis_fit(request.timeout->0@) {
        Some(Fault::InvalidSleepDuration)
    } else {
        None
    }
}

pub fn signal_wait_arguments(request: &SignalWaitRequest<'_>) -> (result: Result<
    SignalWaitArguments,
    PostgresError,
>)
    ensures
        match signal_wait_fault(*request) {
            Some(fault) => fails_with(result, fault),
            None => result == Ok::<_, PostgresError>(
                SignalWaitArguments {
                    attempt: request.attempt as i32,
                    occurrence: request.occurrence as i32,
                    signal_occurrence: request.signal_occurrence as i32,
                    timeout_milliseconds: optional_millis(request.timeout),
                },
            ),
        },
{
    let occurrence: i32 = match occurrence_argument(request.occurrence) {
        Ok(number) => number,
        Err(error) => return Err(error),
    };
    let signal_occurrence: i32 = match occurrence_argument(request.signal_occurrence) {
        Ok(number) => number,
        Err(error) => return Err(error),
    };
    let timeout_milliseconds = match request.timeout {
        Some(timeout) => match sleep_argument(timeout) {
            Ok(millis) => Some(millis),
            Err(error) => return Err(error),
        },
        None => None,
    };
    Ok(
        SignalWaitArguments {
            attempt: request.attempt as i32,
            occurrence,
            signal_occurrence,
            timeout_milliseconds,
        },
    )
}

/// A request to wait for the result of another task.
#[derive(Clone, Debug)]
pub struct ResultWaitRequest<'a> {
    pub task_id: TaskId,
    pub attempt: u16,
    pub lease_token: LeaseToken,
    pub step_name: &'a StepName,
    pub occurrence: u32,
    pub result_task_id: TaskId,
    pub timeout: Option<Duration>,
}

/// The numbers of a request to wait for a result as they are stored.
#[derive(Clone, Copy, Debug, PartialEq, Eq, Structural)]
pub struct ResultWaitArguments {
    pub attempt: i32,
    pub occurrence: i32,
    pub timeout_milliseconds: Option<i64>,
}

/// What is wrong with a request to wait for a result: a timeout is longer than nothing.
pub open spec fn result_wait_fault(request: ResultWaitRequest<'_>) -> Option<Fault> {
    if request.occurrence > i32::MAX {
        Some(Fault::InvalidTask(out_of_range_text()))
    } else if request.timeout is Some && (request.timeout->0@ == 0 || !millis_fit(
        request.timeout->0@,
    )) {
        Some(Fault::InvalidResultWaitTimeout)
    } else {
        None
    }
}

pub fn result_wait_arguments(request: &ResultWaitRequest<'_>) -> (result: Result<
    ResultWaitArguments,
    PostgresError,
>)
    ensures
        match result_wait_fault(*request) {
            Some(fault) => fails_with(result, fault),
            None => result == Ok::<_, PostgresError>(
                ResultWaitArguments {
                    attempt: request.attempt as i32,
                    occurrence: request.occurrence as i32,
                    timeout_milliseconds: optional_millis(request.timeout),
                },
            ),
        },
{
    let occurrence: i32 = match occurrence_argument(request.occurrence) {
        Ok(number) => number,
        Err(error) => return Err(error),
    };
    let timeout_milliseconds = match request.timeout {
        Some(timeout) => {
            if timeout.is_zero() {
                return Err(PostgresError::InvalidResultWaitTimeout);
            }
            match bigint_millis(timeout) {
                Some(millis) => Some(millis),
                None => return Err(PostgresError::InvalidResultWaitTimeout),
            }
        },
        None => None,
    };
    Ok(
        ResultWaitArguments {
            attempt: request.attempt as i32,
            occurrence,
            timeout_milliseconds,
        },
    )
}

/// The arguments of `pgtask.renew_leases`, one entry of each column for each lease.
#[derive(Debug, PartialEq, Eq)]
pub struct RenewalColumns {
    pub task_ids: Vec<Uuid>,
    pub attempts: Vec<i32>,
    pub lease_tokens: Vec<Uuid>,
    pub lease_milliseconds: i64,
}

/// What is wrong with a renewal.
pub open spec fn renewal_fault(leases: Seq<LeaseRenewal>, lease_duration: Duration) -> Option<Fault> {
    if lease_duration@ == 0 || (leases.len() > 0 && !millis_fit(lease_duration@)) {
        Some(Fault::InvalidLeaseDuration)
    } else {
        None
    }
}

/// The columns of a renewal, `None` when there is no lease to renew.
pub fn renewal_columns(leases: &Vec<LeaseRenewal>, lease_duration: Duration) -> (result: Result<
    Option<RenewalColumns>,
    PostgresError,
>)
    ensures
        match renewal_fault(leases@, lease_duration) {
            Some(fault) => fails_with(result, fault),
            None => {
                &&& result matches Ok(columns)
                &&& columns is Some <==> leases@.len() > 0
                &&& columns is Some ==> {
                    &&& columns->0.task_ids@ == leases@.map_values(
                        |lease: LeaseRenewal| lease.task_id.uuid,
                    )
                    &&& columns->0.attempts@ == leases@.map_values(
                        |lease: LeaseRenewal| lease.attempt as i32,
                    )
                    &&& columns->0.lease_tokens@ == leases@.map_values(
                        |lease: LeaseRenewal| lease.lease_token.uuid,
                    )
                    &&& columns->0.lease_milliseconds == whole_millis(lease_duration@)
                }
            },
        },
{
    if lease_duration.is_zero() {
        return Err(PostgresError::InvalidLeaseDuration);
    }
    if leases.is_empty() {
        return Ok(None);
    }
    let lease_milliseconds: i64 = match bigint_millis(lease_duration) {
        Some(millis) => millis,
        None => return Err(PostgresError::InvalidLeaseDuration),
    };
    let mut task_ids: Vec<Uuid> = Vec::new();
    let mut attempts: Vec<i32> = Vec::new();
    let mut lease_tokens: Vec<Uuid> = Vec::new();
    let mut index: usize = 0;
    while index < leases.len()
        invariant
            index <= leases@.len(),
            task_ids@ == leases@.take(index as int).map_values(
                |lease: LeaseRenewal| lease.task_id.uuid,
            ),
            attempts@ == leases@.take(index as int).map_values(
                |lease: LeaseRenewal| lease.attempt as i32,
            ),
            lease_tokens@ == leases@.take(index as int).map_values(
                |lease: LeaseRenewal| lease.lease_token.uuid,
            ),
        decreases leases@.len() - index,
    {
        let lease = leases[index];
        task_ids.push(lease.task_id.as_uuid());
        attempts.push(lease.attempt as i32);
        lease_tokens.push(lease.lease_token.as_uuid());
        index += 1;
    }
    assert(leases@.take(index as int) =~= leases@);
    Ok(Some(RenewalColumns { task_ids, attempts, lease_tokens, lease_milliseconds }))
}

/// The delay before a retry in milliseconds, `None` to give up.
pub fn retry_argument(retry_after: Option<Duration>) -> (result: Result<Option<i64>, PostgresError>)
    ensures
        if retry_after is Some && !millis_fit(retry_after->0@) {
            fails_with(result, Fault::InvalidLeaseDuration)
        } else {
            result == Ok::<_, PostgresError>(optional_millis(retry_after))
        },
{
    match retry_after {
        Some(delay) => match bigint_millis(delay) {
            Some(millis) => Ok(Some(millis)),
            None => Err(PostgresError::InvalidLeaseDuration),
        },
        None => Ok(None),
    }
}

/// A task that succeeded.
#[derive(Clone, Debug, PartialEq, Eq)]
pub struct TaskCompletion {
    pub task_id: TaskId,
    pub attempt: u16,
    pub lease_token: LeaseToken,
    pub result: Option<Json>,
}

/// A task that failed.
#[derive(Clone, Debug, PartialEq, Eq)]
pub struct TaskFailure {
    pub task_id: TaskId,
    pub attempt: u16,
    pub lease_token: LeaseToken,
    pub error: Json,
    pub retry_after: Option<Duration>,
}

/// No task occurs twice.
pub open spec fn are_distinct(ids: Seq<TaskId>) -> bool {
    forall|i: int, j: int| 0 <= i < j < ids.len() ==> (#[trigger] ids[i]) != (#[trigger] ids[j])
}

/// Whether every task occurs once.
pub fn distinct_tasks(ids: &Vec<TaskId>) -> (result: bool)
    ensures
        result == are_distinct(ids@),
{
    let mut seen: std::collections::HashSet<u128> = std::collections::HashSet::new();
    let mut index: usize = 0;
    broadcast use vstd::std_specs::hash::group_hash_axioms;

    while index < ids.len()
        invariant
            index <= ids@.len(),
            vstd::std_specs::hash::obeys_key_model::<u128>(),
            vstd::std_specs::hash::builds_valid_hashers::<std::collections::hash_map::RandomState>(),
            are_distinct(ids@.take(index as int)),
            forall|value: u128|
                #[trigger] seen@.contains(value) <==> exists|i: int|
                    0 <= i < index && (#[trigger] ids@[i]).uuid.value == value,
        decreases ids@.len() - index,
    {
        let value: u128 = ids[index].as_uuid().as_u128();
        if !seen.insert(value) {
            proof {
                let earlier = choose|i: int| 0 <= i < index && (#[trigger] ids@[i]).uuid.value == value;
                assert(ids@[earlier] == ids@[index as int]);
            }
            return false;
        }
        proof {
            assert forall|i: int, j: int| 0 <= i < j < index + 1 implies (#[trigger] ids@.take(
                index + 1,
            )[i]) != (#[trigger] ids@.take(index + 1)[j]) by {
                assert(ids@.take(index + 1)[i] == ids@[i]);
                assert(ids@.take(index + 1)[j] == ids@[j]);
                if j < index {
                    assert(ids@.take(index as int)[i] != ids@.take(index as int)[j]);
                }
            }
            assert forall|other: u128| #[trigger] seen@.contains(other) implies exists|i: int|
                0 <= i < index + 1 && (#[trigger] ids@[i]).uuid.value == other by {
                if other == value {
                    assert(ids@[index as int].uuid.value == other);
                }
            }
        }
        index += 1;
    }
    assert(ids@.take(index as int) =~= ids@);
    true
}

/// Whether a value reports a completion.
pub open spec fn is_completion(value: Json, completion: TaskCompletion) -> bool {
    &&& value matches Json::Object(object)
    &&& object@.dom() == set![
        "task_id"@,
        "attempt"@,
        "lease_token"@,
        "has_result"@,
        "result"@,
    ]
    &&& is_text(object@["task_id"@], uuid_text(completion.task_id.uuid.value))
    &&& is_unsigned(object@["attempt"@], completion.attempt as int)
    &&& is_text(object@["lease_token"@], uuid_text(completion.lease_token.uuid.value))
    &&& object@["has_result"@] == Json::Bool(completion.result is Some)
    &&& object@["result"@] == match completion.result {
        Some(result) => result,
        None => Json::Null,
    }
}

fn completion_json(completion: TaskCompletion) -> (result: Json)
    ensures
        is_completion(result, completion),
{
    proof {
        reveal_strlit("task_id");
        reveal_strlit("attempt");
        reveal_strlit("lease_token");
        reveal_strlit("has_result");
        reveal_strlit("result");
        assert("task_id"@[0] != "attempt"@[0]);
        assert("task_id"@.len() == 7 && "attempt"@.len() == 7 && "lease_token"@.len() == 11
            && "has_result"@.len() == 10 && "result"@.len() == 6);
    }
    let task_id = completion.task_id.to_string();
    let lease_token = completion.lease_token.to_string();
    let has_result = completion.result.is_some();
    let value = match completion.result {
        Some(value) => value,
        None => Json::Null,
    };
    let object = JsonObject::new().with("task_id", Json::Text(task_id)).with(
        "attempt",
        Json::unsigned(completion.attempt as u64),
    ).with("lease_token", Json::Text(lease_token)).with("has_result", Json::Bool(has_result)).with(
        "result",
        value,
    );
    assert(object@.dom() =~= set![
        "task_id"@,
        "attempt"@,
        "lease_token"@,
        "has_result"@,
        "result"@,
    ]);
    Json::Object(object)
}

/// The tasks of completions.
pub open spec fn completed_tasks(completions: Seq<TaskCompletion>) -> Seq<TaskId> {
    completions.map_values(|completion: TaskCompletion| completion.task_id)
}

/// The argument of `pgtask.complete_tasks`: a report on each task, in order. No task is reported
/// twice.
pub fn complete_many_argument(completions: Vec<TaskCompletion>) -> (result: Result<
    Vec<Json>,
    PostgresError,
>)
    ensures
        if are_distinct(completed_tasks(completions@)) {
            &&& result matches Ok(reports)
            &&& reports@.len() == completions@.len()
            &&& forall|i: int|
                0 <= i < completions@.len() ==> is_completion(
                    #[trigger] reports@[i],
                    completions@[i],
                )
        } else {
            fails_with(
                result,
                Fault::InvalidTask("batch completions must contain unique task ids"@),
            )
        },
{
    let ghost given = completions@;
    let mut ids: Vec<TaskId> = Vec::new();
    let mut index: usize = 0;
    while index < completions.len()
        invariant
            index <= completions@.len(),
            completions@ == given,
            ids@ == completed_tasks(given.take(index as int)),
        decreases completions@.len() - index,
    {
        ids.push(completions[index].task_id);
        assert(completed_tasks(given.take(index + 1)) =~= completed_tasks(
            given.take(index as int),
        ).push(given[index as int].task_id));
        index += 1;
    }
    assert(given.take(index as int) =~= given);
    if !distinct_tasks(&ids) {
        return Err(PostgresError::invalid_task("batch completions must contain unique task ids"));
    }
    let mut reports: Vec<Json> = Vec::new();
    for completion in iter: completions
        invariant
            iter.seq() == given,
            reports@.len() == iter.index(),
            forall|i: int| 0 <= i < iter.index() ==> is_completion(#[trigger] reports@[i], given[i]),
    {
        reports.push(completion_json(completion));
    }
    Ok(reports)
}

/// Whether a value reports a failure.
pub open spec fn is_failure(value: Json, failure: TaskFailure) -> bool {
    &&& value matches Json::Object(object)
    &&& object@.dom() == set![
        "task_id"@,
        "attempt"@,
        "lease_token"@,
        "error"@,
        "retry_milliseconds"@,
    ]
    &&& is_text(object@["task_id"@], uuid_text(failure.task_id.uuid.value))
    &&& is_unsigned(object@["attempt"@], failure.attempt as int)
    &&& is_text(object@["lease_token"@], uuid_text(failure.lease_token.uuid.value))
    &&& object@["error"@] == failure.error
    &&& match failure.retry_after {
        Some(delay) => is_unsigned(object@["retry_milliseconds"@], whole_millis(delay@) as int),
        None => object@["retry_milliseconds"@] == Json::Null,
    }
}

fn failure_json(failure: TaskFailure) -> (result: Result<Json, PostgresError>)
    ensures
        if failure.retry_after is Some && !millis_fit(failure.retry_after->0@) {
            fails_with(result, Fault::InvalidLeaseDuration)
        } else {
            result is Ok && is_failure(result->Ok_0, failure)
        },
{
    proof {
        reveal_strlit("task_id");
        reveal_strlit("attempt");
        reveal_strlit("lease_token");
        reveal_strlit("error");
        reveal_strlit("retry_milliseconds");
        assert("task_id"@[0] != "attempt"@[0]);
        assert("task_id"@.len() == 7 && "attempt"@.len() == 7 && "lease_token"@.len() == 11
            && "error"@.len() == 5 && "retry_milliseconds"@.len() == 18);
    }
    let retry_milliseconds = match retry_argument(failure.retry_after) {
        Ok(Some(millis)) => Json::unsigned(millis as u64),
        Ok(None) => Json::Null,
        Err(error) => return Err(error),
    };
    let task_id = failure.task_id.to_string();
    let lease_token = failure.lease_token.to_string();
    let object = JsonObject::new().with("task_id", Json::Text(task_id)).with(
        "attempt",
        Json::unsigned(failure.attempt as u64),
    ).with("lease_token", Json::Text(lease_token)).with("error", failure.error).with(
        "retry_milliseconds",
        retry_milliseconds,
    );
    assert(object@.dom() =~= set![
        "task_id"@,
        "attempt"@,
        "lease_token"@,
        "error"@,
        "retry_milliseconds"@,
    ]);
    Ok(Json::Object(object))
}

/// The tasks of failures.
pub open spec fn failed_tasks(failures: Seq<TaskFailure>) -> Seq<TaskId> {
    failures.map_values(|failure: TaskFailure| failure.task_id)
}

/// Whether every delay before a retry can be stored.
pub open spec fn retries_fit(failures: Seq<TaskFailure>) -> bool {
    forall|i: int|
        0 <= i < failures.len() && (#[trigger] failures[i]).retry_after is Some ==> millis_fit(
            failures[i].retry_after->0@,
        )
}

/// The argument of `pgtask.fail_tasks`: a report on each task, in order. No task is reported
/// twice.
pub fn fail_many_argument(failures: Vec<TaskFailure>) -> (result: Result<Vec<Json>, PostgresError>)
    ensures
        if !are_distinct(failed_tasks(failures@)) {
            fails_with(result, Fault::InvalidTask("batch failures must contain unique task ids"@))
        } else if !retries_fit(failures@) {
            fails_with(result, Fault::InvalidLeaseDuration)
        } else {
            &&& result matches Ok(reports)
            &&& reports@.len() == failures@.len()
            &&& forall|i: int|
                0 <= i < failures@.len() ==> is_failure(#[trigger] reports@[i], failures@[i])
        },
{
    let ghost given = failures@;
    let mut ids: Vec<TaskId> = Vec::new();
    let mut index: usize = 0;
    while index < failures.len()
        invariant
            index <= failures@.len(),
            failures@ == given,
            ids@ == failed_tasks(given.take(index as int)),
        decreases failures@.len() - index,
    {
        ids.push(failures[index].task_id);
        assert(failed_tasks(given.take(index + 1)) =~= failed_tasks(given.take(index as int)).push(
            given[index as int].task_id,
        ));
        index += 1;
    }
    assert(given.take(index as int) =~= given);
    if !distinct_tasks(&ids) {
        return Err(PostgresError::invalid_task("batch failures must contain unique task ids"));
    }
    let mut reports: Vec<Json> = Vec::new();
    for failure in iter: failures
        invariant
            iter.seq() == given,
            are_distinct(failed_tasks(given)),
            reports@.len() == iter.index(),
            forall|i: int|
                0 <= i < iter.index() && (#[trigger] given[i]).retry_after is Some ==> millis_fit(
                    given[i].retry_after->0@,
                ),
            forall|i: int| 0 <= i < iter.index() ==> is_failure(#[trigger] reports@[i], given[i]),
    {
        assert(failure == given[iter.index() as int]);
        match failure_json(failure) {
            Ok(report) => reports.push(report),
            Err(error) => {
                assert(!retries_fit(given));
                return Err(error);
            },
        }
    }
    Ok(reports)
}

/// Whether a failure to read the protocol of a database means that its schema is absent.
pub open spec fn is_schema_absent(fault: Fault) -> bool {
    fault matches Fault::Database { code: Some(code), .. } && code == UNDEFINED_SCHEMA@
}

/// Whether a database and a client have a protocol in common, and which protocols the database
/// speaks.
pub fn check_storage_protocol(database: StorageProtocolRange, client: StorageProtocolRange) -> (result:
    Result<StorageProtocolRange, PostgresError>)
    ensures
        if ranges_overlap(database, client) {
            result == Ok::<_, PostgresError>(database)
        } else {
            result == Err::<StorageProtocolRange, _>(
                PostgresError::IncompatibleStorageProtocol {
                    database_minimum: database.minimum,
                    database_maximum: database.maximum,
                    client_minimum: client.minimum,
                    client_maximum: client.maximum,
                },
            )
        },
{
    if database.overlaps(client) {
        return Ok(database);
    }
    Err(
        PostgresError::IncompatibleStorageProtocol {
            database_minimum: database.minimum,
            database_maximum: database.maximum,
            client_minimum: client.minimum,
            client_maximum: client.maximum,
        },
    )
}

/// Decides on what reading the protocols of a database came to: `None` when the schema is absent,
/// so a caller may still migrate it.
pub fn ensure_storage_protocol(
    database: Result<StorageProtocolRange, PostgresError>,
    client: StorageProtocolRange,
) -> (result: Result<Option<StorageProtocolRange>, PostgresError>)
    ensures
        match database {
            Ok(range) => if ranges_overlap(range, client) {
                result == Ok::<_, PostgresError>(Some(range))
            } else {
                result == Err::<Option<StorageProtocolRange>, _>(
                    PostgresError::IncompatibleStorageProtocol {
                        database_minimum: range.minimum,
                        database_maximum: range.maximum,
                        client_minimum: client.minimum,
                        client_maximum: client.maximum,
                    },
                )
            },
            Err(error) => if is_schema_absent(error@) {
                result == Ok::<Option<StorageProtocolRange>, PostgresError>(None)
            } else {
                result == Err::<Option<StorageProtocolRange>, _>(error)
            },
        },
{
    match database {
        Ok(range) => match check_storage_protocol(range, client) {
            Ok(range) => Ok(Some(range)),
            Err(error) => Err(error),
        },
        Err(PostgresError::Database(failure)) => {
            let absent = match &failure.code {
                Some(code) => same_text(code.as_str(), UNDEFINED_SCHEMA),
                None => false,
            };
            if absent {
                Ok(None)
            } else {
                Err(PostgresError::Database(failure))
            }
        },
        Err(error) => Err(error),
    }
}

/// An enqueued task is what was asked for: its name, its queue, its handler, what it works on, when
/// it may run, how urgent it is, how often it is tried and the key that it is known by.
pub proof fn enqueued_tasks_carry_their_request(
    arguments: EnqueueArguments<'_>,
    request: EnqueueRequest,
)
    requires
        are_enqueue_arguments(arguments, request),
    ensures
        arguments.run_at == request.run_at,
        arguments.priority == request.priority,
        arguments.max_attempts == request.max_attempts,
        arguments.handler_version == request.handler_version@,
        *arguments.task_name == request.task_name,
        *arguments.queue_name == request.queue_name,
        *arguments.payload == request.payload,
        *arguments.idempotency_key == request.idempotency_key,
{
}

/// A task, or a child task, is refused exactly when it asks for no attempt or one of its numbers is
/// too large to be stored.
pub proof fn tasks_are_refused_for_their_numbers(request: EnqueueRequest, spawn: SpawnRequest<'_>)
    ensures
        request_fault(request) is None <==> request.max_attempts > 0 && request.handler_version@
            <= 2_147_483_647,
        request.max_attempts == 0 ==> request_fault(request) == Some(Fault::InvalidMaxAttempts),
        request.max_attempts > 0 && request_fault(request) is Some ==> request_fault(request)
            == Some(Fault::InvalidHandlerVersion),
        spawn_fault(spawn) is None <==> spawn.task.max_attempts > 0
            && spawn.task.handler_version@ <= 2_147_483_647 && spawn.occurrence <= 2_147_483_647,
        spawn.task.max_attempts == 0 ==> spawn_fault(spawn) == Some(Fault::InvalidMaxAttempts),
        spawn.task.max_attempts > 0 && spawn.occurrence <= 2_147_483_647 && spawn_fault(spawn) is Some
            ==> spawn_fault(spawn) == Some(Fault::InvalidHandlerVersion),
{
}

/// Spans are sent in whole milliseconds or seconds, rounded down, as far as a stored number goes.
pub proof fn spans_are_rounded_down(span: Duration)
    ensures
        whole_millis(span@) * 1_000_000 <= span@ < (whole_millis(span@) + 1) * 1_000_000,
        whole_secs(span@) * 1_000_000_000 <= span@ < (whole_secs(span@) + 1) * 1_000_000_000,
        millis_fit(span@) <==> span@ < 9_223_372_036_854_775_808 * 1_000_000,
        ttl_fault(span) is None <==> 1_000_000 <= span@ < 9_223_372_036_854_775_808 * 1_000_000,
        ttl_fault(span) is Some ==> ttl_fault(span) == Some(Fault::InvalidLeaseDuration),
        optional_millis(None) is None,
        millis_fit(span@) ==> optional_millis(Some(span)) == Some(whole_millis(span@) as i64),
{
}

/// The handlers of a worker are sent in their order, each with its own version; none is left out,
/// and none may have a version that is too large to be stored.
pub proof fn handlers_are_sent_in_order(
    columns: CapabilityColumns,
    capabilities: Seq<(TaskName, HandlerVersion)>,
)
    ensures
        capabilities_fault(capabilities) is None <==> capabilities.len() > 0 && forall|i: int|
            0 <= i < capabilities.len() ==> (#[trigger] capabilities[i]).1@ <= 2_147_483_647,
        capabilities.len() == 0 ==> capabilities_fault(capabilities) == Some(
            Fault::MissingCapabilities,
        ),
        capabilities.len() > 0 && capabilities_fault(capabilities) is Some ==> capabilities_fault(
            capabilities,
        ) == Some(Fault::InvalidHandlerVersion),
        are_capability_columns(columns, capabilities) ==> {
            &&& columns.task_names@.len() == capabilities.len()
            &&& columns.handler_versions@.len() == capabilities.len()
            &&& forall|i: int|
                #![trigger capabilities[i]]
                0 <= i < capabilities.len() ==> columns.task_names@[i]@ == capabilities[i].0@
                    && columns.handler_versions@[i] == capabilities[i].1@
        },
{
}

/// A worker is registered with handlers that can be claimed for, each with a retry policy that can
/// be stored, and with a time to live of a millisecond or more.
pub proof fn registrations_are_checked(
    registrations: Seq<(TaskName, HandlerVersion, RetryPolicy)>,
    ttl: Duration,
)
    ensures
        registration_fault(registrations, ttl) is None <==> {
            &&& registrations.len() > 0
            &&& 1_000_000 <= ttl@ < 9_223_372_036_854_775_808 * 1_000_000
            &&& forall|i: int|
                0 <= i < registrations.len() ==> (#[trigger] registrations[i]).1@ <= 2_147_483_647
            &&& forall|i: int|
                0 <= i < registrations.len() ==> policy_columns((#[trigger] registrations[i]).2)
                    is Some
        },
        registrations.len() == 0 ==> registration_fault(registrations, ttl) == Some(
            Fault::MissingCapabilities,
        ),
        without_policies(registrations).len() == registrations.len(),
        forall|i: int|
            0 <= i < registrations.len() ==> #[trigger] without_policies(registrations)[i] == (
                registrations[i].0,
                registrations[i].1,
            ),
{
    let bare = without_policies(registrations);
    assert forall|i: int| 0 <= i < registrations.len() implies (#[trigger] bare[i]) == (
        registrations[i].0,
        registrations[i].1,
    ) by {}
    if versions_fit(bare) {
        assert forall|i: int| 0 <= i < registrations.len() implies (#[trigger] registrations[i]).1@
            <= 2_147_483_647 by {
            assert(bare[i].1@ <= i32::MAX);
        }
    }
    if forall|i: int|
        0 <= i < registrations.len() ==> (#[trigger] registrations[i]).1@ <= 2_147_483_647 {
        assert forall|i: int| 0 <= i < bare.len() implies (#[trigger] bare[i]).1@ <= i32::MAX by {
            assert(registrations[i].1@ <= 2_147_483_647);
        }
    }
}

/// The configuration of a queue is refused exactly when one of its spans, in whole seconds, or its
/// capacity does not fit in a stored number.
pub proof fn queues_are_refused_for_their_numbers(config: QueueConfig)
    ensures
        queue_config_fault(config) is None <==> {
            &&& config.terminal_retention@ < 9_223_372_036_854_775_808 * 1_000_000_000
            &&& config.idempotency_retention@ < 9_223_372_036_854_775_808 * 1_000_000_000
            &&& config.starvation_timeout@ < 9_223_372_036_854_775_808 * 1_000_000_000
            &&& config.max_outstanding_tasks matches Some(maximum) ==> maximum@
                < 9_223_372_036_854_775_808
        },
{
}

/// A schedule is sent as what it is: by its interval or its expression and not both, with its own
/// policy for misfires and its own task, to start when it says, or else at its next occurrence.
pub proof fn schedules_are_sent_as_they_are(
    arguments: ScheduleArguments,
    config: ScheduleConfig,
    next: Result<int, ScheduleError>,
)
    requires
        are_schedule_arguments(arguments, config, next),
        schedule_config_fault(config, next) is None,
    ensures
        match config.definition {
            ScheduleDefinition::Interval { every } => {
                &&& arguments.kind@ == "interval"@
                &&& arguments.cron_expression is None
                &&& arguments.interval_milliseconds matches Some(millis) && millis * 1_000_000
                    <= every@ < (millis + 1) * 1_000_000
            },
            ScheduleDefinition::Cron { expression } => {
                &&& arguments.kind@ == "cron"@
                &&& arguments.interval_milliseconds is None
                &&& arguments.cron_expression matches Some(text) && text@ == expression@
            },
        },
        match config.misfire_policy {
            MisfirePolicy::Skip => arguments.misfire_policy@ == "skip"@
                && arguments.catch_up_limit is None,
            MisfirePolicy::Latest => arguments.misfire_policy@ == "latest"@
                && arguments.catch_up_limit is None,
            MisfirePolicy::CatchUp { limit } => arguments.misfire_policy@ == "catch_up"@
                && arguments.catch_up_limit is Some && arguments.catch_up_limit->0 == limit@,
        },
        arguments.handler_version == config.task.handler_version@,
        arguments.max_attempts == config.task.max_attempts,
        config.start_at matches Some(start) ==> arguments.next_run_at == start,
        config.start_at is None ==> next is Ok && arguments.next_run_at@ == next->Ok_0,
{
}

/// A schedule is refused exactly when its task is, when it has no next occurrence, or when its
/// interval does not fit in a stored number of milliseconds.
pub proof fn schedules_are_refused_with_their_task(
    config: ScheduleConfig,
    next: Result<int, ScheduleError>,
)
    ensures
        schedule_config_fault(config, next) is None <==> {
            &&& config.task.max_attempts > 0
            &&& config.task.handler_version@ <= 2_147_483_647
            &&& next is Ok
            &&& config.definition matches ScheduleDefinition::Interval { every } ==> every@
                < 9_223_372_036_854_775_808 * 1_000_000
        },
        config.task.max_attempts > 0 && next is Err ==> schedule_config_fault(config, next) == Some(
            Fault::Schedule(next->Err_0),
        ),
{
}

/// An occurrence is the instant that it is at.
pub proof fn occurrences_are_their_instants(next: Result<Timestamp, ScheduleError>)
    ensures
        next matches Ok(instant) ==> occurrence(next) == Ok::<int, ScheduleError>(instant@),
        next matches Err(error) ==> occurrence(next) == Err::<int, _>(error),
{
}

/// Tasks are claimed for some handlers, at least one at a time, under a lease that is not empty and
/// can be stored.
pub proof fn claims_are_checked(
    capabilities: Seq<(TaskName, HandlerVersion)>,
    limit: u16,
    lease_duration: Duration,
)
    ensures
        claim_fault(capabilities, limit, lease_duration) is None <==> {
            &&& limit > 0
            &&& 0 < lease_duration@ < 9_223_372_036_854_775_808 * 1_000_000
            &&& capabilities.len() > 0
            &&& forall|i: int|
                0 <= i < capabilities.len() ==> (#[trigger] capabilities[i]).1@ <= 2_147_483_647
        },
        limit == 0 ==> claim_fault(capabilities, limit, lease_duration) == Some(
            Fault::InvalidClaimLimit,
        ),
        limit > 0 && lease_duration@ == 0 ==> claim_fault(capabilities, limit, lease_duration)
            == Some(Fault::InvalidLeaseDuration),
        limit > 0 && lease_duration@ > 0 && capabilities.len() == 0 ==> claim_fault(
            capabilities,
            limit,
            lease_duration,
        ) == Some(Fault::MissingCapabilities),
{
}

/// A wait is refused exactly when one of its numbers, or its timeout, does not fit; and a wait for
/// a result does not time out at once.
pub proof fn waits_are_refused_for_their_numbers(
    signal: SignalWaitRequest<'_>,
    result: ResultWaitRequest<'_>,
)
    ensures
        signal_wait_fault(signal) is None <==> {
            &&& signal.occurrence <= 2_147_483_647
            &&& signal.signal_occurrence <= 2_147_483_647
            &&& signal.timeout matches Some(timeout) ==> timeout@ < 9_223_372_036_854_775_808
                * 1_000_000
        },
        result_wait_fault(result) is None <==> {
            &&& result.occurrence <= 2_147_483_647
            &&& result.timeout matches Some(timeout) ==> 0 < timeout@ < 9_223_372_036_854_775_808
                * 1_000_000
        },
        signal_wait_fault(signal) is Some && signal.occurrence <= 2_147_483_647
            && signal.signal_occurrence <= 2_147_483_647 ==> signal_wait_fault(signal) == Some(
            Fault::InvalidSleepDuration,
        ),
        result_wait_fault(result) is Some && result.occurrence <= 2_147_483_647
            ==> result_wait_fault(result) == Some(Fault::InvalidResultWaitTimeout),
{
}

/// A renewal is refused exactly when its duration is empty, or does not fit while there is a lease
/// to renew.
pub proof fn renewals_are_refused_for_their_duration(
    leases: Seq<LeaseRenewal>,
    lease_duration: Duration,
)
    ensures
        renewal_fault(leases, lease_duration) is None <==> lease_duration@ > 0 && (leases.len() == 0
            || lease_duration@ < 9_223_372_036_854_775_808 * 1_000_000),
        renewal_fault(leases, lease_duration) is Some ==> renewal_fault(leases, lease_duration)
            == Some(Fault::InvalidLeaseDuration),
{
}

/// A report on a task that succeeded names the task, the attempt and the lease, and carries its
/// result, if it has one.
pub proof fn completions_are_reported_whole(value: Json, completion: TaskCompletion)
    requires
        is_completion(value, completion),
    ensures
        value matches Json::Object(object) && {
            &&& object@.dom().contains("task_id"@)
            &&& object@["task_id"@] matches Json::Text(id)
                && id@ == uuid_text(completion.task_id.uuid.value)
            &&& object@.dom().contains("attempt"@)
            &&& object@["attempt"@] matches Json::Number(
                crate::json::JsonNumber::Unsigned(attempt),
            ) && attempt == completion.attempt
            &&& object@.dom().contains("lease_token"@)
            &&& object@["lease_token"@] matches Json::Text(
                token,
            ) && token@ == uuid_text(completion.lease_token.uuid.value)
            &&& object@.dom().contains("has_result"@) && object@["has_result"@] == Json::Bool(
                completion.result is Some,
            )
            &&& completion.result matches Some(result) ==> object@.dom().contains("result"@)
                && object@["result"@] == result
        },
{
}

/// A report on a task that failed names the task, the attempt and the lease, and carries its error
/// and, in whole milliseconds, the delay before it is tried again, if it is.
pub proof fn failures_are_reported_whole(value: Json, failure: TaskFailure)
    requires
        is_failure(value, failure),
    ensures
        value matches Json::Object(object) && {
            &&& object@.dom().contains("task_id"@)
            &&& object@["task_id"@] matches Json::Text(id)
                && id@ == uuid_text(failure.task_id.uuid.value)
            &&& object@.dom().contains("attempt"@)
            &&& object@["attempt"@] matches Json::Number(
                crate::json::JsonNumber::Unsigned(attempt),
            ) && attempt == failure.attempt
            &&& object@.dom().contains("lease_token"@)
            &&& object@["lease_token"@] matches Json::Text(
                token,
            ) && token@ == uuid_text(failure.lease_token.uuid.value)
            &&& object@.dom().contains("error"@) && object@["error"@] == failure.error
            &&& object@.dom().contains("retry_milliseconds"@)
            &&& failure.retry_after is None ==> object@["retry_milliseconds"@] == Json::Null
            &&& failure.retry_after matches Some(delay) ==> object@["retry_milliseconds"@] matches
                Json::Number(crate::json::JsonNumber::Unsigned(millis)) && millis * 1_000_000
                <= delay@ < (millis + 1) * 1_000_000
        },
{
}

/// The tasks of a batch are those of its reports, one by one.
pub proof fn batches_name_their_tasks(
    completions: Seq<TaskCompletion>,
    failures: Seq<TaskFailure>,
)
    ensures
        completed_tasks(completions).len() == completions.len(),
        failed_tasks(failures).len() == failures.len(),
        forall|i: int|
            0 <= i < completions.len() ==> #[trigger] completed_tasks(completions)[i]
                == completions[i].task_id,
        forall|i: int|
            0 <= i < failures.len() ==> #[trigger] failed_tasks(failures)[i] == failures[i].task_id,
        retries_fit(failures) <==> forall|i: int|
            0 <= i < failures.len() ==> ((#[trigger] failures[i]).retry_after matches Some(delay)
                ==> delay@ < 9_223_372_036_854_775_808 * 1_000_000),
{
}

/// Tasks are distinct exactly when no task is at two places.
pub proof fn distinct_tasks_occur_once(ids: Seq<TaskId>)
    ensures
        are_distinct(ids) <==> ids.no_duplicates(),
{
    if are_distinct(ids) {
        assert forall|i: int, j: int| 0 <= i < ids.len() && 0 <= j < ids.len() && i != j implies ids[i]
            != ids[j] by {
            if i < j {
                assert(ids[i] != ids[j]);
            } else {
                assert(ids[j] != ids[i]);
            }
        }
    }
}

/// Only the error code of a missing schema says that the schema is absent.
pub proof fn schemas_are_absent_by_their_code(fault: Fault)
    ensures
        is_schema_absent(fault) <==> (fault matches Fault::Database { code: Some(code), .. } && code
            == "3F000"@),
{
}

/// A limit of zero is refused in the name of the batch that it was for.
pub proof fn limits_are_refused_by_their_batch(batch: Batch)
    ensures
        limit_fault(batch) == Fault::InvalidClaimLimit <==> batch is Claim,
        limit_fault(batch) == Fault::InvalidRetentionLimit <==> batch is Retention,
        limit_fault(batch) == Fault::InvalidScheduleLimit <==> batch is Schedule,
        limit_fault(batch) == Fault::InvalidWaitLimit <==> batch is Wait,
{
}

/// A refusal is an error, with the fault that is named.
pub proof fn refusals_name_their_fault<T>(result: Result<T, PostgresError>, fault: Fault)
    ensures
        fails_with(result, fault) <==> (result matches Err(error) && error@ == fault),
{
}

/// The first bad request of a batch is bad, and all before it are good; a batch has no two.
pub proof fn one_bad_request_is_the_first(requests: Seq<EnqueueRequest>, one: int, other: int)
    requires
        is_first_bad_request(requests, one),
    ensures
        0 <= one < requests.len(),
        requests[one].max_attempts == 0 || requests[one].handler_version@ > 2_147_483_647,
        forall|i: int|
            0 <= i < one ==> (#[trigger] requests[i]).max_attempts > 0
                && requests[i].handler_version@ <= 2_147_483_647,
        is_first_bad_request(requests, other) ==> one == other,
{
    if is_first_bad_request(requests, other) {
        assert(!(other < one));
        assert(!(one < other));
    }
    assert forall|i: int| 0 <= i < one implies (#[trigger] requests[i]).max_attempts > 0
        && requests[i].handler_version@ <= 2_147_483_647 by {
        assert(request_fault(requests[i]) is None);
    }
}

/// Where several things are wrong with what is sent, the fault is the first of them in the order
/// in which they are looked at.
pub proof fn the_first_thing_wrong_is_the_fault(
    spawn: SpawnRequest<'_>,
    config: ScheduleConfig,
    next: Result<int, ScheduleError>,
    registrations: Seq<(TaskName, HandlerVersion, RetryPolicy)>,
    ttl: Duration,
    capabilities: Seq<(TaskName, HandlerVersion)>,
    limit: u16,
    signal: SignalWaitRequest<'_>,
    result: ResultWaitRequest<'_>,
)
    ensures
        spawn.task.max_attempts > 0 && spawn.occurrence > 2_147_483_647 ==> spawn_fault(spawn)
            == Some(Fault::InvalidTask("out of range integral type conversion attempted"@)),
        config.task.max_attempts == 0 ==> schedule_config_fault(config, next) == Some(
            Fault::InvalidMaxAttempts,
        ),
        config.task.max_attempts > 0 && next is Ok && (config.definition matches
            ScheduleDefinition::Interval { every } && every@ >= 9_223_372_036_854_775_808
            * 1_000_000) ==> schedule_config_fault(config, next) == Some(
            Fault::Schedule(ScheduleError::IntervalOutOfRange),
        ),
        config.task.max_attempts > 0 && next is Ok && schedule_config_fault(config, next) is Some
            && (config.definition matches ScheduleDefinition::Interval { every } ==> every@
            < 9_223_372_036_854_775_808 * 1_000_000) ==> schedule_config_fault(config, next)
            == Some(Fault::InvalidHandlerVersion),
        registrations.len() > 0 && ttl_fault(ttl) is Some ==> registration_fault(registrations, ttl)
            == Some(Fault::InvalidLeaseDuration),
        registrations.len() > 0 && ttl_fault(ttl) is None && (exists|i: int|
            0 <= i < registrations.len() && (#[trigger] registrations[i]).1@ > 2_147_483_647)
            ==> registration_fault(registrations, ttl) == Some(Fault::InvalidHandlerVersion),
        registrations.len() > 0 && ttl_fault(ttl) is None && (forall|i: int|
            0 <= i < registrations.len() ==> (#[trigger] registrations[i]).1@ <= 2_147_483_647)
            && registration_fault(registrations, ttl) is Some ==> registration_fault(
            registrations,
            ttl,
        ) == Some(Fault::InvalidRetryPolicy),
        limit > 0 && ttl@ > 0 && capabilities.len() > 0 && (exists|i: int|
            0 <= i < capabilities.len() && (#[trigger] capabilities[i]).1@ > 2_147_483_647)
            ==> claim_fault(capabilities, limit, ttl) == Some(Fault::InvalidHandlerVersion),
        limit > 0 && ttl@ >= 9_223_372_036_854_775_808 * 1_000_000 && capabilities.len() > 0 && (
        forall|i: int|
            0 <= i < capabilities.len() ==> (#[trigger] capabilities[i]).1@ <= 2_147_483_647)
            ==> claim_fault(capabilities, limit, ttl) == Some(Fault::InvalidLeaseDuration),
        signal.occurrence > 2_147_483_647 || signal.signal_occurrence > 2_147_483_647
            ==> signal_wait_fault(signal) == Some(
            Fault::InvalidTask("out of range integral type conversion attempted"@),
        ),
        result.occurrence > 2_147_483_647 ==> result_wait_fault(result) == Some(
            Fault::InvalidTask("out of range integral type conversion attempted"@),
        ),
{
    let plain = without_policies(registrations);
    if exists|i: int|
        0 <= i < registrations.len() && (#[trigger] registrations[i]).1@ > 2_147_483_647 {
        let i = choose|i: int|
            0 <= i < registrations.len() && (#[trigger] registrations[i]).1@ > 2_147_483_647;
        assert(plain[i].1@ > i32::MAX);
    }
    if exists|i: int|
        0 <= i < capabilities.len() && (#[trigger] capabilities[i]).1@ > 2_147_483_647 {
        let i = choose|i: int|
            0 <= i < capabilities.len() && (#[trigger] capabilities[i]).1@ > 2_147_483_647;
        assert(capabilities[i].1@ > i32::MAX);
    }
}

/// What is too large for a queue is named: its retention first, then how long it remembers keys,
/// its capacity, and its patience.
pub proof fn queues_are_refused_for_a_reason(config: QueueConfig)
    ensures
        ({
            let bound = 9_223_372_036_854_775_808 * 1_000_000_000;
            let crowded = config.max_outstanding_tasks matches Some(maximum) && maximum@
                >= 9_223_372_036_854_775_808;
            let fault = queue_config_fault(config);
            if config.terminal_retention@ >= bound {
                fault == Some(
                    Fault::InvalidTask("queue retention exceeds the Postgres bigint range"@),
                )
            } else if config.idempotency_retention@ >= bound {
                fault == Some(
                    Fault::InvalidTask("idempotency retention exceeds the Postgres bigint range"@),
                )
            } else if crowded {
                fault == Some(
                    Fault::InvalidTask("queue capacity exceeds the Postgres bigint range"@),
                )
            } else if config.starvation_timeout@ >= bound {
                fault == Some(
                    Fault::InvalidTask("starvation timeout exceeds the Postgres bigint range"@),
                )
            } else {
                fault is None
            }
        }),
{
}

/// What is sent about a task that ended has its own members and no other.
pub proof fn endings_are_reported_alone(
    value: Json,
    completion: TaskCompletion,
    failure: TaskFailure,
    name: Seq<char>,
)
    requires
        value is Object,
        value->Object_0@.dom().contains(name),
    ensures
        is_completion(value, completion) ==> name == "task_id"@ || name == "attempt"@ || name
            == "lease_token"@ || name == "has_result"@ || name == "result"@,
        is_failure(value, failure) ==> name == "task_id"@ || name == "attempt"@ || name
            == "lease_token"@ || name == "error"@ || name == "retry_milliseconds"@,
        is_completion(value, completion) && completion.result is None
            ==> value->Object_0@["result"@] == Json::Null,
{
}

} // verus!
