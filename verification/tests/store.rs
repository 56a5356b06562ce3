use pgtask::error::{DatabaseFailure, PostgresError};
use pgtask::identifier::{
    HandlerVersion, LeaseToken, QueueName, ScheduleName, SignalName, StepName, TaskId, TaskName,
};
use pgtask::json::{Json, JsonObject};
use pgtask::metrics::{
    metrics, record_heartbeat, record_live_workers, record_recovery_failure, Amount, AttributeValue,
    Instrument, InstrumentKind, Measurement,
};
use pgtask::number::{NonZeroU16, NonZeroU32, NonZeroU64};
use pgtask::protocol::StorageProtocolRange;
use pgtask::requests::{
    capability_columns, check_storage_protocol, checkpoint_arguments, claim_arguments,
    complete_many_argument, enqueue_arguments, ensure_storage_protocol, fail_many_argument,
    limit_argument, queue_arguments, registration_columns, renewal_columns, result_wait_arguments,
    retry_argument, schedule_arguments, schedule_arguments_for, signal_wait_arguments, sleep_for_arguments,
    sleep_until_arguments, spawn_arguments, ttl_argument, validate_batch, Batch, ResultWaitRequest,
    SignalWaitRequest, SpawnRequest, TaskCompletion, TaskFailure,
};
use pgtask::retry::RetryPolicy;
use pgtask::rows::{
    batch_results, parse_retry_policy, parse_state, retry_policy_columns, stored_count,
    stored_delay, stored_protocol_range, stored_protocol_version, BatchEnqueueRow, CapabilityRow, CheckpointRow, EnqueueRow,
    QueueDemand, QueueDemandRow, QueueRow, ResultWait, ScheduleRow, SignalRow, SignalWait,
    TaskResultRow, TaskRow, WaitRow, WorkerRow,
};
use pgtask::schedule::{MisfirePolicy, Schedule, ScheduleConfig, ScheduleDefinition, ScheduleError};
use pgtask::store::{
    cancelled, claimed_tasks, enqueued, failed_states, first_look, is_about_task, next_look,
    recovered, was_renewed, ResultLook, ScheduleRun, StoreConfig, TaskResultWait,
};
use pgtask::task::{
    Checkpoint, EnqueueRequest, LeaseRenewal, Queue, QueueConfig, Signal, Task, TaskResult,
    TaskState,
};
use pgtask::time::{Duration, Timestamp};
use pgtask::unique::Uuid;

const RANGE: &str =
    "invalid task data returned by Postgres: out of range integral type conversion attempted";

fn instant(secs: i64) -> Timestamp {
    Timestamp::from_unix_secs(secs).unwrap()
}

fn request(name: &str) -> EnqueueRequest {
    EnqueueRequest::new(TaskName::new(name).unwrap(), Json::Null)
}

fn version(number: u32) -> HandlerVersion {
    HandlerVersion::new(NonZeroU32::new(number).unwrap())
}

fn task_row() -> TaskRow {
    TaskRow {
        id: Uuid::from_u128(1),
        parent_task_id: None,
        queue_name: "queue".to_owned(),
        task_name: "task".to_owned(),
        handler_version: 2,
        payload: Json::Bool(true),
        headers: Json::Object(JsonObject::new()),
        state: "running".to_owned(),
        priority: -3,
        run_at: instant(10),
        attempt: 1,
        max_attempts: 5,
        retry_kind: None,
        retry_base_delay_milliseconds: None,
        retry_factor: None,
        retry_max_delay_milliseconds: None,
        lease_token: Some(Uuid::from_u128(2)),
        lease_owner: None,
        lease_expires_at: None,
        created_at: instant(1),
        updated_at: instant(2),
        completed_at: None,
        result: None,
        error: None,
    }
}

fn schedule_row() -> ScheduleRow {
    ScheduleRow {
        id: Uuid::from_u128(7),
        name: "nightly".to_owned(),
        kind: "interval".to_owned(),
        interval_milliseconds: Some(60_000),
        cron_expression: None,
        misfire_policy: "catch_up".to_owned(),
        catch_up_limit: Some(3),
        queue_name: "reports".to_owned(),
        task_name: "render".to_owned(),
        handler_version: 4,
        payload: Json::unsigned(9),
        headers: Json::Object(JsonObject::new()),
        priority: 1,
        max_attempts: 6,
        next_run_at: instant(600),
        paused_at: None,
        created_at: instant(1),
        updated_at: instant(2),
    }
}

fn attribute(measurement: &Measurement, key: &str) -> Option<String> {
    measurement.attributes.iter().find_map(|attribute| {
        if attribute.key != key {
            return None;
        }
        match &attribute.value {
            AttributeValue::Text(text) => Some(text.clone()),
            AttributeValue::Flag(flag) => Some(flag.to_string()),
        }
    })
}

#[test]
fn store_configuration_defaults_to_one_database() {
    let config = StoreConfig::new("postgres://localhost/app");
    assert_eq!(config.database_url(), "postgres://localhost/app");
    assert_eq!(config.listener_url(), "postgres://localhost/app");
    assert_eq!(config.query_connections(), 10);
    assert_eq!(config.listener_connections(), 1);
    let config = config
        .with_listener_url("postgres://localhost/direct")
        .with_query_connections(NonZeroU32::new(3).unwrap())
        .with_listener_connections(NonZeroU32::new(2).unwrap());
    assert_eq!(config.database_url(), "postgres://localhost/app");
    assert_eq!(config.listener_url(), "postgres://localhost/direct");
    assert_eq!(config.query_connections(), 3);
    assert_eq!(config.listener_connections(), 2);
}

#[test]
fn requests_are_checked_before_they_are_sent() {
    let mut wanted = request("echo");
    wanted.idempotency_key = Some("once".to_owned());
    let arguments = enqueue_arguments(&wanted).unwrap();
    assert_eq!(arguments.task_name.as_str(), "echo");
    assert_eq!(arguments.handler_version, 1);
    assert_eq!(arguments.max_attempts, 5);
    assert_eq!(arguments.idempotency_key, &Some("once".to_owned()));

    wanted.max_attempts = 0;
    wanted.handler_version = version(u32::MAX);
    assert_eq!(
        enqueue_arguments(&wanted).unwrap_err(),
        PostgresError::InvalidMaxAttempts
    );
    wanted.max_attempts = 1;
    assert_eq!(
        enqueue_arguments(&wanted).unwrap_err(),
        PostgresError::InvalidHandlerVersion
    );
    assert_eq!(
        validate_batch(&vec![request("fine"), wanted]).unwrap_err(),
        PostgresError::InvalidHandlerVersion
    );
    assert!(validate_batch(&vec![request("a"), request("b")]).is_ok());
    assert!(validate_batch(&Vec::new()).is_ok());
}

#[test]
fn child_tasks_are_checked_with_their_step() {
    let step = StepName::new("spawn").unwrap();
    let child = request("child");
    let mut spawn = SpawnRequest {
        parent_task_id: TaskId::from_uuid(Uuid::from_u128(1)),
        parent_attempt: 2,
        parent_lease_token: LeaseToken::from_uuid(Uuid::from_u128(3)),
        step_name: &step,
        occurrence: 4,
        task: &child,
    };
    let arguments = spawn_arguments(&spawn).unwrap();
    assert_eq!(arguments.parent_task_id, Uuid::from_u128(1));
    assert_eq!(arguments.parent_attempt, 2);
    assert_eq!(arguments.parent_lease_token, Uuid::from_u128(3));
    assert_eq!(arguments.occurrence, 4);
    spawn.occurrence = u32::MAX;
    assert_eq!(spawn_arguments(&spawn).unwrap_err().to_string(), RANGE);
}

#[test]
fn capabilities_become_columns() {
    let capabilities = vec![
        (TaskName::new("a").unwrap(), version(1)),
        (TaskName::new("b").unwrap(), version(7)),
    ];
    let columns = capability_columns(&capabilities).unwrap();
    assert_eq!(columns.task_names, ["a", "b"]);
    assert_eq!(columns.handler_versions, [1, 7]);
    assert_eq!(
        capability_columns(&Vec::new()),
        Err(PostgresError::MissingCapabilities)
    );

    let claim = claim_arguments(&capabilities, 3, Duration::from_millis(1_500)).unwrap();
    assert_eq!(claim.limit, 3);
    assert_eq!(claim.lease_milliseconds, 1_500);
    assert_eq!(claim.capabilities, columns);
    assert_eq!(
        claim_arguments(&Vec::new(), 0, Duration::zero()),
        Err(PostgresError::InvalidClaimLimit)
    );
    assert_eq!(
        claim_arguments(&Vec::new(), 1, Duration::zero()),
        Err(PostgresError::InvalidLeaseDuration)
    );
    assert_eq!(
        claim_arguments(&Vec::new(), 1, Duration::max_value()),
        Err(PostgresError::MissingCapabilities)
    );
    assert_eq!(
        claim_arguments(&capabilities, 1, Duration::max_value()),
        Err(PostgresError::InvalidLeaseDuration)
    );
}

#[test]
fn registrations_carry_their_retry_policies() {
    let name = || TaskName::new("a").unwrap();
    let registrations = vec![(
        name(),
        version(1),
        RetryPolicy::Fixed {
            delay: Duration::from_secs(2),
        },
    )];
    let columns = registration_columns(&registrations, Duration::from_secs(30)).unwrap();
    assert_eq!(columns.ttl_milliseconds, 30_000);
    assert_eq!(columns.policies[0].kind, "fixed");
    assert_eq!(columns.policies[0].base_delay, Some(2_000));
    assert_eq!(
        registration_columns(&Vec::new(), Duration::zero()).unwrap_err(),
        PostgresError::MissingCapabilities
    );
    assert_eq!(
        registration_columns(&registrations, Duration::from_micros(999)).unwrap_err(),
        PostgresError::InvalidLeaseDuration
    );
    assert_eq!(
        registration_columns(&vec![(name(), version(u32::MAX), RetryPolicy::Never)], Duration::from_secs(1)).unwrap_err(),
        PostgresError::InvalidHandlerVersion
    );
    let endless = RetryPolicy::Fixed {
        delay: Duration::max_value(),
    };
    assert_eq!(
        registration_columns(&vec![(name(), version(1), endless)], Duration::from_secs(1)).unwrap_err(),
        PostgresError::InvalidRetryPolicy
    );
    assert_eq!(ttl_argument(Duration::from_millis(1)), Ok(1));
    assert_eq!(
        ttl_argument(Duration::zero()),
        Err(PostgresError::InvalidLeaseDuration)
    );
}

#[test]
fn queue_limits_have_to_fit() {
    let mut config = QueueConfig::new(QueueName::new("reports").unwrap());
    config.max_outstanding_tasks = NonZeroU64::new(100_000);
    let arguments = queue_arguments(&config).unwrap();
    assert_eq!(arguments.retention_seconds, 604_800);
    assert_eq!(arguments.idempotency_retention_seconds, 2_592_000);
    assert_eq!(arguments.max_outstanding_tasks, Some(100_000));
    assert_eq!(arguments.starvation_timeout_seconds, 300);
    config.starvation_timeout = Duration::max_value();
    assert_eq!(
        queue_arguments(&config).unwrap_err().to_string(),
        "invalid task data returned by Postgres: starvation timeout exceeds the Postgres bigint range"
    );
    config.max_outstanding_tasks = NonZeroU64::new(u64::MAX);
    assert_eq!(
        queue_arguments(&config).unwrap_err().to_string(),
        "invalid task data returned by Postgres: queue capacity exceeds the Postgres bigint range"
    );
    config.idempotency_retention = Duration::max_value();
    assert_eq!(
        queue_arguments(&config).unwrap_err().to_string(),
        "invalid task data returned by Postgres: idempotency retention exceeds the Postgres bigint range"
    );
    config.terminal_retention = Duration::max_value();
    assert_eq!(
        queue_arguments(&config).unwrap_err().to_string(),
        "invalid task data returned by Postgres: queue retention exceeds the Postgres bigint range"
    );
}

#[test]
fn configured_queues_read_back() {
    let mut config = QueueConfig::new(QueueName::new("reports").unwrap());
    config.terminal_retention = Duration::from_millis(2_500);
    let arguments = queue_arguments(&config).unwrap();
    let queue = Queue::try_from(QueueRow {
        name: "reports".to_owned(),
        terminal_retention_seconds: arguments.retention_seconds,
        idempotency_retention_seconds: arguments.idempotency_retention_seconds,
        max_outstanding_tasks: arguments.max_outstanding_tasks,
        starvation_timeout_seconds: arguments.starvation_timeout_seconds,
        paused_at: None,
        created_at: instant(0),
        updated_at: instant(0),
    })
    .unwrap();
    assert_eq!(queue.name, config.name);
    assert_eq!(queue.terminal_retention, Duration::from_secs(2));
    assert_eq!(queue.idempotency_retention, config.idempotency_retention);
    assert_eq!(queue.starvation_timeout, config.starvation_timeout);
}

#[test]
fn schedules_are_stored_and_read_back() {
    let mut config = ScheduleConfig::new(
        ScheduleName::new("nightly").unwrap(),
        ScheduleDefinition::interval(Duration::from_secs(60)).unwrap(),
        request("render"),
    );
    config.misfire_policy = MisfirePolicy::CatchUp {
        limit: NonZeroU16::new(3).unwrap(),
    };
    let arguments = schedule_arguments(&config, instant(100)).unwrap();
    assert_eq!(arguments.kind, "interval");
    assert_eq!(arguments.interval_milliseconds, Some(60_000));
    assert_eq!(arguments.cron_expression, None);
    assert_eq!(arguments.misfire_policy, "catch_up");
    assert_eq!(arguments.catch_up_limit, Some(3));
    assert_eq!(arguments.next_run_at, instant(160));
    config.start_at = Some(instant(5));
    assert_eq!(
        schedule_arguments(&config, instant(100)).unwrap().next_run_at,
        instant(5)
    );
    let read = Schedule::try_from(schedule_row()).unwrap();
    assert_eq!(read.config.definition, config.definition);
    assert_eq!(read.config.misfire_policy, config.misfire_policy);
    assert_eq!(read.config.task.max_attempts, 6);
    assert_eq!(read.next_run_at, instant(600));

    config.task.max_attempts = 0;
    assert_eq!(
        schedule_arguments(&config, instant(100)).unwrap_err(),
        PostgresError::InvalidMaxAttempts
    );
    config.task.max_attempts = 1;
    config.task.handler_version = version(u32::MAX);
    assert_eq!(
        schedule_arguments(&config, instant(100)).unwrap_err(),
        PostgresError::InvalidHandlerVersion
    );
    config.definition = ScheduleDefinition::cron("0 0 0 1 1 * 1970").unwrap();
    assert_eq!(
        schedule_arguments(&config, instant(100)).unwrap_err(),
        PostgresError::Schedule(ScheduleError::NoNextOccurrence),
        "the next occurrence has to exist even where the start is given"
    );
    config.task.handler_version = version(1);
    config.misfire_policy = MisfirePolicy::Skip;
    config.definition = ScheduleDefinition::cron("@hourly").unwrap();
    config.start_at = None;
    let arguments = schedule_arguments(&config, instant(100)).unwrap();
    assert_eq!(arguments.next_run_at, instant(3_600));
    let arguments = schedule_arguments_for(&config, Ok(instant(7_200))).unwrap();
    assert_eq!(arguments.next_run_at, instant(7_200));
    assert_eq!(arguments.kind, "cron");
    assert_eq!(arguments.cron_expression, Some("@hourly".to_owned()));
    assert_eq!(arguments.misfire_policy, "skip");
    assert_eq!(arguments.catch_up_limit, None);
}

#[test]
fn broken_schedule_rows_are_refused() {
    let refuse = |change: fn(&mut ScheduleRow)| {
        let mut row = schedule_row();
        change(&mut row);
        Schedule::try_from(row).unwrap_err().to_string()
    };
    let prefix = "invalid task data returned by Postgres: ";
    assert_eq!(
        refuse(|row| row.kind = "cron".to_owned()),
        format!("{prefix}invalid schedule definition")
    );
    assert_eq!(
        refuse(|row| {
            row.kind = "cron".to_owned();
            row.interval_milliseconds = None;
            row.cron_expression = Some("never".to_owned());
        }),
        PostgresError::Schedule(ScheduleError::InvalidCron).to_string()
    );
    assert_eq!(refuse(|row| row.interval_milliseconds = Some(-1)), RANGE);
    assert_eq!(
        refuse(|row| row.interval_milliseconds = Some(0)),
        PostgresError::Schedule(ScheduleError::ZeroInterval).to_string()
    );
    assert_eq!(
        refuse(|row| row.catch_up_limit = None),
        format!("{prefix}invalid schedule misfire policy")
    );
    assert_eq!(
        refuse(|row| row.catch_up_limit = Some(0)),
        format!("{prefix}catch-up limit is zero")
    );
    assert_eq!(
        refuse(|row| row.headers = Json::Null),
        format!("{prefix}schedule headers are not an object")
    );
    assert_eq!(refuse(|row| row.max_attempts = 70_000), RANGE);
    assert_eq!(
        refuse(|row| row.handler_version = 0),
        format!("{prefix}handler version is zero")
    );
}

#[test]
fn batch_limits_are_above_zero() {
    assert_eq!(limit_argument(Batch::Claim, 5), Ok(5));
    assert_eq!(limit_argument(Batch::Claim, 0), Err(PostgresError::InvalidClaimLimit));
    assert_eq!(
        limit_argument(Batch::Retention, 0),
        Err(PostgresError::InvalidRetentionLimit)
    );
    assert_eq!(
        limit_argument(Batch::Schedule, 0),
        Err(PostgresError::InvalidScheduleLimit)
    );
    assert_eq!(limit_argument(Batch::Wait, 0), Err(PostgresError::InvalidWaitLimit));
}

#[test]
fn waits_and_sleeps_are_checked() {
    let step = StepName::new("wait").unwrap();
    let signal_name = SignalName::new("go").unwrap();
    let mut signal = SignalWaitRequest {
        task_id: TaskId::default(),
        attempt: 2,
        lease_token: LeaseToken::default(),
        step_name: &step,
        occurrence: 3,
        signal_name: &signal_name,
        signal_occurrence: 4,
        timeout: Some(Duration::from_millis(5)),
    };
    let arguments = signal_wait_arguments(&signal).unwrap();
    assert_eq!(
        (
            arguments.attempt,
            arguments.occurrence,
            arguments.signal_occurrence,
            arguments.timeout_milliseconds
        ),
        (2, 3, 4, Some(5))
    );
    signal.timeout = Some(Duration::max_value());
    assert_eq!(
        signal_wait_arguments(&signal),
        Err(PostgresError::InvalidSleepDuration)
    );
    signal.signal_occurrence = u32::MAX;
    assert_eq!(signal_wait_arguments(&signal).unwrap_err().to_string(), RANGE);

    let mut result = ResultWaitRequest {
        task_id: TaskId::default(),
        attempt: 2,
        lease_token: LeaseToken::default(),
        step_name: &step,
        occurrence: 3,
        result_task_id: TaskId::default(),
        timeout: None,
    };
    assert_eq!(result_wait_arguments(&result).unwrap().timeout_milliseconds, None);
    for timeout in [Duration::zero(), Duration::max_value()] {
        result.timeout = Some(timeout);
        assert_eq!(
            result_wait_arguments(&result),
            Err(PostgresError::InvalidResultWaitTimeout)
        );
    }
    let until = sleep_until_arguments(1, 2, instant(9)).unwrap();
    assert_eq!((until.wake_at, until.delay_milliseconds), (Some(instant(9)), None));
    let after = sleep_for_arguments(1, 2, Duration::from_secs(3)).unwrap();
    assert_eq!((after.wake_at, after.delay_milliseconds), (None, Some(3_000)));
    assert_eq!(
        sleep_for_arguments(1, u32::MAX, Duration::max_value()),
        Err(PostgresError::InvalidSleepDuration)
    );
    assert_eq!(checkpoint_arguments(version(8), 9), Ok((8, 9)));
    assert_eq!(
        checkpoint_arguments(version(u32::MAX), u32::MAX),
        Err(PostgresError::InvalidHandlerVersion)
    );
    assert_eq!(
        retry_argument(Some(Duration::max_value())),
        Err(PostgresError::InvalidLeaseDuration)
    );
    assert_eq!(retry_argument(None), Ok(None));
}

#[test]
fn lease_renewals_become_columns() {
    let lease = LeaseRenewal {
        task_id: TaskId::from_uuid(Uuid::from_u128(1)),
        attempt: 2,
        lease_token: LeaseToken::from_uuid(Uuid::from_u128(3)),
    };
    let columns = renewal_columns(&vec![lease], Duration::from_secs(1)).unwrap().unwrap();
    assert_eq!(columns.task_ids, [Uuid::from_u128(1)]);
    assert_eq!(columns.attempts, [2]);
    assert_eq!(columns.lease_tokens, [Uuid::from_u128(3)]);
    assert_eq!(columns.lease_milliseconds, 1_000);
    assert_eq!(renewal_columns(&Vec::new(), Duration::max_value()), Ok(None));
    assert_eq!(
        renewal_columns(&Vec::new(), Duration::zero()),
        Err(PostgresError::InvalidLeaseDuration)
    );
    assert_eq!(
        renewal_columns(&vec![lease], Duration::max_value()),
        Err(PostgresError::InvalidLeaseDuration)
    );
    assert!(was_renewed(&vec![lease.task_id], lease.task_id));
    assert!(!was_renewed(&Vec::new(), lease.task_id));
}

#[test]
fn batches_report_every_task_once() {
    let completion = |id: u128, result: Option<Json>| TaskCompletion {
        task_id: TaskId::from_uuid(Uuid::from_u128(id)),
        attempt: 1,
        lease_token: LeaseToken::from_uuid(Uuid::from_u128(9)),
        result,
    };
    let reports = complete_many_argument(vec![
        completion(1, Some(Json::Null)),
        completion(2, None),
    ])
    .unwrap();
    assert_eq!(
        reports[0].get("task_id"),
        Some(&Json::text("00000000-0000-0000-0000-000000000001"))
    );
    assert_eq!(reports[0].get("attempt"), Some(&Json::unsigned(1)));
    assert_eq!(reports[0].get("has_result"), Some(&Json::Bool(true)));
    assert_eq!(reports[1].get("has_result"), Some(&Json::Bool(false)));
    assert_eq!(reports[1].get("result"), Some(&Json::Null));
    assert_eq!(
        complete_many_argument(vec![completion(1, None), completion(1, None)])
            .unwrap_err()
            .to_string(),
        "invalid task data returned by Postgres: batch completions must contain unique task ids"
    );
    assert_eq!(complete_many_argument(Vec::new()), Ok(Vec::new()));

    let failure = |id: u128, retry_after: Option<Duration>| TaskFailure {
        task_id: TaskId::from_uuid(Uuid::from_u128(id)),
        attempt: 1,
        lease_token: LeaseToken::from_uuid(Uuid::from_u128(9)),
        error: Json::text("broken"),
        retry_after,
    };
    let reports = fail_many_argument(vec![
        failure(1, Some(Duration::from_secs(2))),
        failure(2, None),
    ])
    .unwrap();
    assert_eq!(reports[0].get("retry_milliseconds"), Some(&Json::unsigned(2_000)));
    assert_eq!(reports[1].get("retry_milliseconds"), Some(&Json::Null));
    assert_eq!(reports[1].get("error"), Some(&Json::text("broken")));
    assert_eq!(
        fail_many_argument(vec![failure(1, None), failure(1, None)])
            .unwrap_err()
            .to_string(),
        "invalid task data returned by Postgres: batch failures must contain unique task ids"
    );
    assert_eq!(
        fail_many_argument(vec![failure(1, Some(Duration::max_value()))]),
        Err(PostgresError::InvalidLeaseDuration)
    );
}

#[test]
fn storage_protocols_have_to_overlap() {
    let client = StorageProtocolRange::new(1, 1).unwrap();
    let rolling = StorageProtocolRange::new(1, 2).unwrap();
    let future = StorageProtocolRange::new(2, 3).unwrap();
    assert_eq!(check_storage_protocol(rolling, client), Ok(rolling));
    let error = check_storage_protocol(future, client).unwrap_err();
    assert_eq!(
        error.to_string(),
        "database storage protocols 2..=3 are incompatible with client protocols 1..=1"
    );
    assert_eq!(ensure_storage_protocol(Ok(rolling), client), Ok(Some(rolling)));
    assert_eq!(ensure_storage_protocol(Ok(future), client), Err(error));
    let failure = |code: Option<&str>| {
        PostgresError::Database(DatabaseFailure {
            code: code.map(str::to_owned),
            message: "gone".to_owned(),
        })
    };
    assert_eq!(ensure_storage_protocol(Err(failure(Some("3F000"))), client), Ok(None));
    assert_eq!(
        ensure_storage_protocol(Err(failure(Some("42501"))), client),
        Err(failure(Some("42501")))
    );
    assert_eq!(
        ensure_storage_protocol(Err(failure(None)), client),
        Err(failure(None))
    );
    assert_eq!(stored_protocol_version(3), Ok(3));
    assert_eq!(
        stored_protocol_version(-1),
        Err(PostgresError::InvalidTask(
            "out of range integral type conversion attempted".to_owned()
        ))
    );
    assert_eq!(stored_protocol_range(1, 2), Ok(rolling));
    for (minimum, maximum) in [(-1, 2), (1, -2), (0, 2), (3, 2)] {
        assert_eq!(
            stored_protocol_range(minimum, maximum),
            Err(PostgresError::InvalidStorageProtocolRange { minimum, maximum })
        );
    }
}

#[test]
fn stored_tasks_are_read_or_refused() {
    let task = Task::try_from(task_row()).unwrap();
    assert_eq!(task.id, TaskId::from_uuid(Uuid::from_u128(1)));
    assert_eq!(task.queue_name.as_str(), "queue");
    assert_eq!(task.handler_version.get(), 2);
    assert_eq!(task.state, TaskState::Running);
    assert_eq!(task.priority, -3);
    assert_eq!(task.lease_token, Some(LeaseToken::from_uuid(Uuid::from_u128(2))));
    assert_eq!(task.retry_policy, None);

    let refuse = |change: fn(&mut TaskRow)| {
        let mut row = task_row();
        change(&mut row);
        Task::try_from(row).unwrap_err().to_string()
    };
    let prefix = "invalid task data returned by Postgres: ";
    assert_eq!(
        refuse(|row| row.headers = Json::Null),
        format!("{prefix}headers are not an object")
    );
    assert_eq!(
        refuse(|row| row.queue_name = String::new()),
        format!("{prefix}queue name must not be empty")
    );
    assert_eq!(
        refuse(|row| row.state = "odd\"".to_owned()),
        format!("{prefix}unknown state \"odd\\\"\"")
    );
    assert_eq!(refuse(|row| row.attempt = -1), RANGE);
    assert_eq!(
        refuse(|row| row.retry_kind = Some("sometimes".to_owned())),
        format!("{prefix}invalid retry policy")
    );
}

#[test]
fn claimed_tasks_are_measured_up_to_the_first_broken_one() {
    let (tasks, measurements) = claimed_tasks(vec![task_row(), task_row()]);
    assert_eq!(tasks.unwrap().len(), 2);
    assert_eq!(measurements.len(), 2);
    assert_eq!(measurements[0].instrument, Instrument::Tasks);
    assert_eq!(
        attribute(&measurements[0], "pgtask.queue.name"),
        Some("queue".to_owned())
    );
    let mut broken = task_row();
    broken.attempt = -1;
    let (tasks, measurements) = claimed_tasks(vec![task_row(), broken, task_row()]);
    assert_eq!(tasks.unwrap_err().to_string(), RANGE);
    assert_eq!(measurements.len(), 1);
}

#[test]
fn retry_policies_read_back_in_milliseconds() {
    for policy in [
        RetryPolicy::Never,
        RetryPolicy::Fixed {
            delay: Duration::from_millis(12),
        },
        RetryPolicy::Exponential {
            base_delay: Duration::from_secs(1),
            factor: 2,
            max_delay: Duration::from_secs(60),
        },
    ] {
        let columns = retry_policy_columns(policy).unwrap();
        assert_eq!(
            parse_retry_policy(
                Some(columns.kind),
                columns.base_delay,
                columns.factor,
                columns.max_delay
            ),
            Ok(Some(policy))
        );
    }
    assert_eq!(parse_retry_policy(None, None, None, None), Ok(None));
    assert!(parse_retry_policy(Some("never"), Some(1), None, None).is_err());
    assert_eq!(
        parse_retry_policy(Some("fixed"), Some(-1), None, None)
            .unwrap_err()
            .to_string(),
        RANGE
    );
    assert_eq!(
        retry_policy_columns(RetryPolicy::Exponential {
            base_delay: Duration::zero(),
            factor: u32::MAX,
            max_delay: Duration::zero(),
        }),
        Err(PostgresError::InvalidRetryPolicy)
    );
}

#[test]
fn small_rows_are_read_or_refused() {
    assert_eq!(stored_count(5), Ok(5));
    assert_eq!(stored_count(-5).unwrap_err().to_string(), RANGE);
    assert_eq!(stored_delay(Some(7)), Ok(Some(Duration::from_millis(7))));
    assert_eq!(stored_delay(None), Ok(None));
    assert!(stored_delay(Some(-1)).is_err());
    let checkpoint = Checkpoint::try_from(CheckpointRow {
        task_id: Uuid::from_u128(1),
        handler_version: 1,
        step_name: "any step".to_owned(),
        occurrence: 3,
        value: Json::Null,
        created_at: instant(0),
    })
    .unwrap();
    assert_eq!(checkpoint.occurrence, 3);
    let signal = Signal::try_from(SignalRow {
        task_id: Uuid::from_u128(1),
        signal_name: "go".to_owned(),
        occurrence: -3,
        value: Json::Null,
        created_at: instant(0),
    });
    assert_eq!(signal.unwrap_err().to_string(), RANGE);
    let wait = |status: &str, checkpoint: Option<Json>| WaitRow {
        status: status.to_owned(),
        checkpoint,
    };
    assert_eq!(
        SignalWait::try_from(wait("ready", Some(Json::Null))),
        Ok(SignalWait::Ready(Json::Null))
    );
    assert_eq!(ResultWait::try_from(wait("waiting", None)), Ok(ResultWait::Waiting));
    assert_eq!(
        SignalWait::try_from(wait("ready", None)).unwrap_err().to_string(),
        "invalid task data returned by Postgres: invalid signal wait result"
    );
    assert_eq!(
        ResultWait::try_from(wait("odd", None)).unwrap_err().to_string(),
        "invalid task data returned by Postgres: invalid result wait response"
    );
    let demand = QueueDemand::try_from(QueueDemandRow {
        ready: 3,
        capable: 2,
        unroutable: 1,
    })
    .unwrap();
    assert_eq!(
        (demand.ready_tasks, demand.capable_tasks, demand.unroutable_tasks),
        (3, 2, 1)
    );
    let record = WorkerRow {
        id: Uuid::from_u128(1),
        queue_name: "queue".to_owned(),
        version: "1.0".to_owned(),
        draining: false,
        started_at: instant(0),
        heartbeat_at: instant(1),
        expires_at: instant(2),
    }
    .try_into_record(vec![CapabilityRow {
        task_name: "task".to_owned(),
        handler_version: 3,
    }])
    .unwrap();
    assert_eq!(record.capabilities[0].1.get(), 3);
    assert_eq!(
        parse_state("odd").unwrap_err().to_string(),
        "invalid task data returned by Postgres: unknown state \"odd\""
    );
}

#[test]
fn enqueued_tasks_are_measured_when_they_are_new() {
    let queue = QueueName::new("queue").unwrap();
    let name = TaskName::new("task").unwrap();
    let row = EnqueueRow {
        task_id: Uuid::from_u128(4),
        created: true,
    };
    let (result, measurement) = enqueued(row, &queue, &name);
    assert_eq!(result.task_id.as_uuid(), Uuid::from_u128(4));
    assert_eq!(measurement.unwrap().amount, Amount::Count(1));
    let (result, measurement) = enqueued(
        EnqueueRow {
            created: false,
            ..row
        },
        &queue,
        &name,
    );
    assert!(!result.created);
    assert!(measurement.is_none());

    let requests = vec![request("a"), request("b")];
    let rows = |second: i64| {
        vec![
            BatchEnqueueRow {
                request_index: 0,
                task_id: Uuid::from_u128(1),
                created: false,
            },
            BatchEnqueueRow {
                request_index: second,
                task_id: Uuid::from_u128(2),
                created: true,
            },
        ]
    };
    let (results, measurements) = batch_results(&rows(1), &requests).unwrap();
    assert_eq!(results[1].task_id.as_uuid(), Uuid::from_u128(2));
    assert_eq!(measurements.len(), 1);
    assert_eq!(
        attribute(&measurements[0], "pgtask.task.name"),
        Some("b".to_owned())
    );
    for wrong in [-1, 0, 2] {
        assert_eq!(
            batch_results(&rows(wrong), &requests).unwrap_err().to_string(),
            "invalid task data returned by Postgres: batch enqueue returned an invalid result set"
        );
    }
}

#[test]
fn answers_about_single_tasks_are_read() {
    assert_eq!(cancelled(&None), (false, None));
    let (done, measurement) = cancelled(&Some(("queue".to_owned(), "task".to_owned())));
    assert!(done);
    assert_eq!(
        attribute(&measurement.unwrap(), "pgtask.task.state"),
        Some("cancelled".to_owned())
    );
    let queue = QueueName::new("queue").unwrap();
    assert_eq!(recovered(0, &queue), Ok((0, None)));
    let (count, measurement) = recovered(3, &queue).unwrap();
    assert_eq!(count, 3);
    assert_eq!(measurement.unwrap().amount, Amount::Count(3));
    assert_eq!(recovered(-1, &queue).unwrap_err().to_string(), RANGE);
    assert_eq!(
        failed_states(vec![None, Some("pending".to_owned())]),
        Ok(vec![None, Some(TaskState::Pending)])
    );
    assert!(failed_states(vec![Some("odd".to_owned())]).is_err());
}

#[test]
fn waiting_for_a_result_ends_with_a_terminal_state() {
    let result = |state: &str| {
        TaskResult::try_from(TaskResultRow {
            state: state.to_owned(),
            result: None,
            error: None,
            completed_at: None,
        })
        .unwrap()
    };
    assert_eq!(first_look(None), ResultLook::Return(TaskResultWait::NotFound));
    assert_eq!(first_look(Some(result("running"))), ResultLook::KeepWaiting);
    assert_eq!(
        first_look(Some(result("failed"))),
        ResultLook::Return(TaskResultWait::Ready(result("failed")))
    );
    assert_eq!(
        next_look(None).unwrap_err().to_string(),
        "invalid task data returned by Postgres: task disappeared while waiting for result"
    );
    assert_eq!(next_look(Some(result("waiting"))), Ok(ResultLook::KeepWaiting));
    assert_eq!(
        next_look(Some(result("succeeded"))),
        Ok(ResultLook::Return(TaskResultWait::Ready(result("succeeded"))))
    );
    let id = TaskId::new();
    assert!(is_about_task(&id.to_string(), id));
    assert!(!is_about_task("other", id));
}

#[test]
fn a_pass_over_schedules_counts_its_tasks() {
    let schedule = Schedule::try_from(schedule_row()).unwrap();
    let mut run = ScheduleRun::new();
    let plan = run.plan(&schedule, instant(730)).unwrap();
    assert_eq!(plan.occurrences, [instant(600), instant(660), instant(720)]);
    assert_eq!(plan.next_run_at, instant(780));
    let (outcome, measurements) = run.record(&schedule, &plan, instant(730), 3);
    assert!(outcome.is_ok());
    assert_eq!(run.total(), 3);
    assert_eq!(measurements.len(), 3);
    assert_eq!(measurements[0].amount, Amount::Count(3));
    assert_eq!(measurements[1].amount, Amount::Count(0));
    assert_eq!(measurements[2].amount, Amount::Span(Duration::from_secs(130)));
    assert_eq!(
        attribute(&measurements[0], "pgtask.schedule.kind"),
        Some("interval".to_owned())
    );
    let (outcome, measurements) = run.record(&schedule, &plan, instant(730), -1);
    assert_eq!(outcome.unwrap_err().to_string(), RANGE);
    assert!(measurements.is_empty());
    let (first, _) = run.record(&schedule, &plan, instant(730), i64::MAX);
    assert!(first.is_ok());
    let (second, _) = run.record(&schedule, &plan, instant(730), i64::MAX);
    assert_eq!(
        second.unwrap_err().to_string(),
        "invalid task data returned by Postgres: materialized task count overflowed"
    );
    let missing = Schedule {
        config: ScheduleConfig {
            definition: ScheduleDefinition::cron("0 0 0 1 1 * 1970").unwrap(),
            ..schedule.config
        },
        ..schedule
    };
    assert_eq!(
        run.plan(&missing, instant(730)),
        Err(PostgresError::Schedule(ScheduleError::NoNextOccurrence))
    );
}

#[test]
fn errors_say_what_went_wrong() {
    let failure = PostgresError::Database(DatabaseFailure {
        code: None,
        message: "connection refused".to_owned(),
    });
    for (error, text) in [
        (failure, "database operation failed: connection refused"),
        (
            PostgresError::Migration("no".to_owned()),
            "database migration failed: no",
        ),
        (PostgresError::InvalidMaxAttempts, "max_attempts must be greater than zero"),
        (PostgresError::InvalidClaimLimit, "claim limit must be greater than zero"),
        (
            PostgresError::InvalidRetentionLimit,
            "retention limit must be greater than zero",
        ),
        (
            PostgresError::InvalidLeaseDuration,
            "lease duration must be greater than zero",
        ),
        (
            PostgresError::MissingCapabilities,
            "at least one handler capability is required",
        ),
        (PostgresError::MissingQueues, "at least one queue is required"),
        (
            PostgresError::InvalidHandlerVersion,
            "handler version exceeds the Postgres integer range",
        ),
        (
            PostgresError::InvalidScheduleLimit,
            "schedule claim limit must be greater than zero",
        ),
        (
            PostgresError::InvalidSleepDuration,
            "sleep duration exceeds the PostgreSQL bigint range",
        ),
        (
            PostgresError::InvalidWaitLimit,
            "wait recovery limit must be greater than zero",
        ),
        (
            PostgresError::InvalidResultWaitTimeout,
            "result wait timeout must be greater than zero and fit in the PostgreSQL bigint range",
        ),
        (
            PostgresError::InvalidRetryPolicy,
            "retry policy values exceed the PostgreSQL integer range",
        ),
        (
            PostgresError::Notification("lost".to_owned()),
            "notification listener failed: lost",
        ),
        (
            PostgresError::InvalidStorageProtocolRange {
                minimum: -1,
                maximum: 2,
            },
            "invalid storage protocol range -1..=2 returned by Postgres",
        ),
    ] {
        assert_eq!(error.to_string(), text);
    }
}

#[test]
fn every_instrument_is_described_once() {
    let all = metrics();
    assert_eq!(all.len(), 20);
    for (index, (_, description)) in all.iter().enumerate() {
        assert!(all
            .iter()
            .skip(index + 1)
            .all(|(_, other)| other.name != description.name));
    }
    let (_, tasks) = all
        .iter()
        .find(|(instrument, _)| *instrument == Instrument::Tasks)
        .unwrap();
    assert_eq!(tasks.name, "pgtask.tasks");
    assert_eq!(tasks.description, "Task state transitions");
    assert!(matches!(tasks.kind, InstrumentKind::Counter));
}

#[test]
fn workers_are_measured_by_queue() {
    let heartbeat = record_heartbeat("email", "lost");
    assert_eq!(heartbeat.instrument, Instrument::WorkerHeartbeats);
    assert_eq!(heartbeat.amount, Amount::Count(1));
    assert_eq!(attribute(&heartbeat, "pgtask.queue.name").as_deref(), Some("email"));
    assert_eq!(attribute(&heartbeat, "pgtask.heartbeat.outcome").as_deref(), Some("lost"));

    let live = record_live_workers("email", 3);
    assert_eq!(live.instrument, Instrument::WorkersLive);
    assert_eq!(live.amount, Amount::Count(3));
    assert_eq!(attribute(&live, "pgtask.queue.name").as_deref(), Some("email"));

    let failure = record_recovery_failure("email");
    assert_eq!(failure.instrument, Instrument::LeaseRecoveryFailures);
    assert_eq!(failure.amount, Amount::Count(1));
    assert_eq!(attribute(&failure, "pgtask.queue.name").as_deref(), Some("email"));
}
