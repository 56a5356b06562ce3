use pgtask::control::{OverloadDetector, OverloadProtectionConfig, WorkerControl};
use pgtask::error::PostgresError;
use pgtask::execution::{
    admit_task, after_complete, after_fail, execution_step, finish_execution,
    handle_handler_result, measure_finish, measure_latency, record_failure_state, ExecutionStep,
    HandlerOutcome,
};
use pgtask::health::{ready_answer, Health, HealthObservation};
use pgtask::identifier::{
    HandlerVersion, LeaseToken, QueueName, ScheduleName, StepName, TaskId, TaskName,
};
use pgtask::json::{Json, JsonObject};
use pgtask::leases::{renewal_interval, renewals, ActiveLease, ActiveLeases};
use pgtask::metrics::{Amount, AttributeValue, Instrument, Measurement};
use pgtask::notification::{
    ready_filters, result_filters, subscribed, Filters, HubAction, HubPhase, HubStep, Notification,
    NotificationEvent, NotificationHub, ReadyListener, Received,
};
use pgtask::number::NonZeroU16;
use pgtask::protocol::StorageProtocolRange;
use pgtask::registry::{
    begin_step, checkpoint_exists, decode_signal_checkpoint, finish_result_wait,
    finish_signal_wait, finish_sleep, finish_spawn, finish_step, look_up_step, HandlerError,
    HandlerRegistry, StepDecision,
};
use pgtask::retry::RetryPolicy;
use pgtask::rows::{QueueDemand, ResultWait, SignalWait};
use pgtask::runtime::{
    on_demand, on_heartbeat, scheduler_delay, wakeup, HandlerLoop, LoopAction, LoopPhase,
    ReadyWatch, Wakeup,
};
use pgtask::schedule::{ScheduleConfig, ScheduleDefinition};
use pgtask::task::{Checkpoint, EnqueueRequest, EnqueueResult, LeaseRenewal, Task, TaskState};
use pgtask::time::{Duration, Timestamp};
use pgtask::unique::Uuid;
use pgtask::worker::{Startup, StartupAction, Worker, WorkerConfig, WorkerError};

fn queue(name: &str) -> QueueName {
    QueueName::new(name).unwrap()
}

fn name(text: &str) -> TaskName {
    TaskName::new(text).unwrap()
}

fn number(value: u16) -> NonZeroU16 {
    NonZeroU16::new(value).unwrap()
}

fn registry(task_name: &str) -> HandlerRegistry<&'static str> {
    let mut registry = HandlerRegistry::new();
    registry.register(
        name(task_name),
        HandlerVersion::default(),
        RetryPolicy::Never,
        "handler",
    );
    registry
}

fn worker(config: WorkerConfig) -> Worker<&'static str> {
    Worker::new(registry("task"), config).unwrap()
}

fn task() -> Task {
    let instant = |secs: i64| Timestamp::from_unix_secs(secs).unwrap();
    Task {
        id: TaskId::from_uuid(Uuid::from_u128(1)),
        parent_task_id: None,
        queue_name: queue("queue"),
        task_name: name("task"),
        handler_version: HandlerVersion::default(),
        payload: Json::Null,
        headers: JsonObject::new(),
        state: TaskState::Running,
        priority: 0,
        run_at: instant(0),
        attempt: 2,
        max_attempts: 5,
        retry_policy: None,
        lease_token: Some(LeaseToken::from_uuid(Uuid::from_u128(2))),
        lease_owner: None,
        lease_expires_at: None,
        created_at: instant(10),
        updated_at: instant(13),
        completed_at: None,
        result: None,
        error: None,
    }
}

fn failure() -> PostgresError {
    PostgresError::InvalidMaxAttempts
}

fn words(measurements: &[Measurement], key: &str) -> Vec<String> {
    measurements
        .iter()
        .flat_map(|measurement| measurement.attributes.iter())
        .filter(|attribute| attribute.key == key)
        .map(|attribute| match &attribute.value {
            AttributeValue::Text(text) => text.clone(),
            AttributeValue::Flag(flag) => flag.to_string(),
        })
        .collect()
}

#[test]
fn handler_registry_and_errors_expose_explicit_public_values() {
    let task_name = TaskName::new("public-handler").unwrap();
    let mut registry: HandlerRegistry<fn()> = HandlerRegistry::new();
    assert!(registry.register(
        task_name.clone(),
        HandlerVersion::default(),
        RetryPolicy::Never,
        || {},
    ));
    assert!(!registry.register(
        task_name.clone(),
        HandlerVersion::default(),
        RetryPolicy::Never,
        || {},
    ));
    assert_eq!(
        registry.capabilities(),
        vec![(task_name, HandlerVersion::default())]
    );

    let retryable = HandlerError::retryable("again");
    assert!(retryable.retryable);
    assert_eq!(retryable.error.get("message"), Some(&Json::text("again")));
    assert!(!retryable.is_suspended());
    let terminal = HandlerError::terminal("stop");
    assert!(!terminal.retryable);
    assert_eq!(terminal.error.get("message"), Some(&Json::text("stop")));
    let suspended = HandlerError::suspended();
    assert!(suspended.is_suspended());
}

#[test]
fn reference_crate_exposes_the_supported_engine_surface() {
    let queue_name = QueueName::new("public-contract").unwrap();
    let task_name = TaskName::new("contract.echo").unwrap();
    let request = EnqueueRequest::new(
        task_name.clone(),
        Json::Object(JsonObject::new().with("value", Json::unsigned(42))),
    );
    assert_eq!(request.queue_name.as_str(), "default");

    let mut registry: HandlerRegistry<fn(Task) -> Json> = HandlerRegistry::new();
    assert!(registry.register(
        task_name,
        HandlerVersion::default(),
        RetryPolicy::Never,
        |task| task.payload,
    ));
    let mut config = WorkerConfig::new(queue_name);
    config.concurrency = NonZeroU16::new(4).unwrap();
    config.poll_interval = Duration::from_secs(30);

    assert_eq!(config.concurrency.get(), 4);
    assert!(Worker::new(registry, config).is_ok());
}

#[test]
fn registrations_name_each_handler_with_its_policy() {
    let mut registry: HandlerRegistry<u8> = HandlerRegistry::new();
    let fixed = RetryPolicy::Fixed {
        delay: Duration::from_secs(1),
    };
    assert!(registry.register(name("a"), HandlerVersion::default(), RetryPolicy::Never, 1));
    assert!(registry.register_durable(name("b"), HandlerVersion::default(), fixed, 2));
    assert!(!registry.register_durable(name("a"), HandlerVersion::default(), fixed, 3));
    assert_eq!(
        registry.registrations(),
        vec![
            (name("a"), HandlerVersion::default(), fixed),
            (name("b"), HandlerVersion::default(), fixed),
        ]
    );
    assert_eq!(
        registry.get(&name("a"), HandlerVersion::default()).unwrap().function,
        3
    );
    assert!(registry.get(&name("c"), HandlerVersion::default()).is_none());
}

#[test]
fn worker_configuration_rejects_every_invalid_invariant() {
    let queue_name = QueueName::new("worker-validation").unwrap();
    let task_name = "worker-validation";

    assert!(matches!(
        Worker::new(
            HandlerRegistry::<&'static str>::new(),
            WorkerConfig::new(queue_name.clone())
        ),
        Err(WorkerError::MissingHandlers)
    ));

    assert!(matches!(
        Worker::new(registry(task_name), WorkerConfig::with_queues(Vec::new())),
        Err(WorkerError::MissingQueues)
    ));

    assert!(matches!(
        Worker::new(
            registry(task_name),
            WorkerConfig::with_queues(vec![queue_name.clone(), queue_name.clone()])
        ),
        Err(WorkerError::DuplicateQueues)
    ));

    let mut config = WorkerConfig::new(queue_name.clone());
    config.lease_duration = Duration::from_millis(2);
    assert!(matches!(
        Worker::new(registry(task_name), config),
        Err(WorkerError::InvalidLeaseDuration)
    ));

    let mut config = WorkerConfig::new(queue_name.clone());
    config.poll_interval = Duration::zero();
    assert!(matches!(
        Worker::new(registry(task_name), config),
        Err(WorkerError::InvalidPollInterval)
    ));

    for heartbeat in [Duration::zero(), Duration::from_micros(500), Duration::from_secs(30)] {
        let mut config = WorkerConfig::new(queue_name.clone());
        config.worker_heartbeat_interval = heartbeat;
        assert!(matches!(
            Worker::new(registry(task_name), config),
            Err(WorkerError::InvalidWorkerHeartbeat)
        ));
    }

    let mut config = WorkerConfig::new(queue_name.clone());
    config.schedule_reconciliation_interval = Duration::zero();
    assert!(matches!(
        Worker::new(registry(task_name), config),
        Err(WorkerError::InvalidScheduleReconciliationInterval)
    ));

    let mut config = WorkerConfig::new(queue_name.clone());
    config.retention_interval = Duration::zero();
    assert!(matches!(
        Worker::new(registry(task_name), config),
        Err(WorkerError::InvalidRetentionInterval)
    ));

    let mut config = WorkerConfig::new(queue_name.clone());
    config.supervisor_interval = Duration::zero();
    assert!(matches!(
        Worker::new(registry(task_name), config),
        Err(WorkerError::InvalidSupervisorInterval)
    ));

    let mut config = WorkerConfig::new(queue_name.clone());
    config.concurrency = NonZeroU16::new(1).unwrap();
    config.overload_protection.minimum_concurrency = NonZeroU16::new(2).unwrap();
    assert!(matches!(
        Worker::new(registry(task_name), config),
        Err(WorkerError::InvalidMinimumConcurrency)
    ));

    let mut config = WorkerConfig::new(queue_name);
    let mut request = EnqueueRequest::new(name(task_name), Json::Object(JsonObject::new()));
    request.queue_name = QueueName::new("another-queue").unwrap();
    config.declared_schedules.push(ScheduleConfig::new(
        ScheduleName::new("invalid-worker-schedule").unwrap(),
        ScheduleDefinition::interval(Duration::from_secs(1)).unwrap(),
        request,
    ));
    assert!(matches!(
        Worker::new(registry(task_name), config),
        Err(WorkerError::InvalidDeclaredSchedule(_))
    ));
}

#[test]
fn declared_schedules_may_target_any_queue_of_the_worker() {
    let mut config = WorkerConfig::with_queues(vec![queue("high"), queue("low")]);
    let mut request = EnqueueRequest::new(name("task"), Json::Null);
    request.queue_name = queue("low");
    config.declared_schedules.push(ScheduleConfig::new(
        ScheduleName::new("own").unwrap(),
        ScheduleDefinition::interval(Duration::from_secs(1)).unwrap(),
        request,
    ));
    assert!(Worker::new(registry("task"), config).is_ok());

    let mut config = WorkerConfig::new(queue("default"));
    config.declared_schedules.push(ScheduleConfig::new(
        ScheduleName::new("unregistered").unwrap(),
        ScheduleDefinition::interval(Duration::from_secs(1)).unwrap(),
        EnqueueRequest::new(name("other"), Json::Null),
    ));
    assert_eq!(
        Worker::new(registry("task"), config).unwrap_err().to_string(),
        "declared schedule unregistered targets another queue or an unregistered handler"
    );
}

#[test]
fn worker_errors_say_what_went_wrong() {
    for (error, text) in [
        (
            WorkerError::Postgres(failure()),
            "max_attempts must be greater than zero",
        ),
        (WorkerError::MissingQueues, "at least one queue is required"),
        (WorkerError::DuplicateQueues, "worker queues must be unique"),
        (
            WorkerError::InvalidLeaseDuration,
            "lease duration must be at least three milliseconds",
        ),
        (
            WorkerError::InvalidPollInterval,
            "poll interval must be greater than zero",
        ),
        (
            WorkerError::InvalidWorkerHeartbeat,
            "worker heartbeat interval must be nonzero and shorter than its time to live",
        ),
        (
            WorkerError::InvalidScheduleReconciliationInterval,
            "schedule reconciliation interval must be greater than zero",
        ),
        (
            WorkerError::InvalidRetentionInterval,
            "retention interval must be greater than zero",
        ),
        (
            WorkerError::InvalidSupervisorInterval,
            "supervisor interval must be greater than zero",
        ),
        (
            WorkerError::InvalidMinimumConcurrency,
            "overload protection minimum concurrency exceeds configured concurrency",
        ),
        (
            WorkerError::Supervisor("address in use".to_owned()),
            "worker supervisor failed: address in use",
        ),
        (
            WorkerError::IncompatibleStorageProtocol {
                database_minimum: 2,
                database_maximum: 3,
                worker_minimum: 1,
                worker_maximum: 1,
            },
            "database storage protocols 2..=3 are incompatible with worker protocols 1..=1",
        ),
        (WorkerError::MissingHandlers, "worker has no registered handlers"),
        (
            WorkerError::AdmissionLimitExceedsConfigured {
                requested: 3,
                configured: 2,
            },
            "effective concurrency 3 exceeds configured concurrency 2",
        ),
        (
            WorkerError::MissingLeaseToken(TaskId::from_uuid(Uuid::nil())),
            "claimed task 00000000-0000-0000-0000-000000000000 has no lease token",
        ),
        (
            WorkerError::MissingHandler,
            "claimed task has no registered handler",
        ),
    ] {
        assert_eq!(error.to_string(), text);
    }
    assert!(!WorkerError::OutdatedStorageSchema.to_string().is_empty());
}

#[test]
fn a_worker_starts_step_by_step() {
    let mut config = WorkerConfig::with_queues(vec![queue("high"), queue("low")]);
    let mut request = EnqueueRequest::new(name("task"), Json::Null);
    request.queue_name = queue("high");
    config.declared_schedules.push(ScheduleConfig::new(
        ScheduleName::new("own").unwrap(),
        ScheduleDefinition::interval(Duration::from_secs(1)).unwrap(),
        request,
    ));
    let worker = worker(config);
    let mut startup = Startup::new(&worker);
    let mut health = Health::new(Duration::zero());
    let current = StorageProtocolRange::current();
    let future = StorageProtocolRange::new(2, 3).unwrap();

    assert_eq!(startup.action, StartupAction::ReadStorageProtocol);
    assert_eq!(
        startup.on_storage_protocol(Err(failure()), current),
        Err(WorkerError::Postgres(failure()))
    );
    assert_eq!(
        startup.on_storage_protocol(Ok(future), current),
        Err(WorkerError::IncompatibleStorageProtocol {
            database_minimum: 2,
            database_maximum: 3,
            worker_minimum: 1,
            worker_maximum: 1,
        })
    );
    assert!(startup.on_storage_protocol(Ok(current), current).is_ok());
    assert_eq!(startup.action, StartupAction::CheckDemandSampling);
    assert_eq!(
        startup.on_demand_sampling(Ok(false)),
        Err(WorkerError::OutdatedStorageSchema)
    );
    assert!(startup.on_demand_sampling(Ok(true)).is_ok());
    assert_eq!(startup.action, StartupAction::StartSupervisor);
    assert_eq!(
        startup.on_supervisor(Some("busy".to_owned())),
        Err(WorkerError::Supervisor("busy".to_owned()))
    );
    assert!(startup.on_supervisor(None).is_ok());
    assert_eq!(startup.action, StartupAction::OpenListener);
    assert!(startup.on_statement(Ok(()), &mut health).is_ok());
    assert!(health.listener);
    assert_eq!(startup.action, StartupAction::PutSchedule(0));
    assert_eq!(
        startup.on_statement(Err(failure()), &mut health),
        Err(WorkerError::Postgres(failure()))
    );
    assert!(startup.on_statement(Ok(()), &mut health).is_ok());
    assert_eq!(startup.action, StartupAction::Register(0));
    assert!(startup.on_statement(Ok(()), &mut health).is_ok());
    assert_eq!(startup.action, StartupAction::Register(1));
    assert!(!health.ready());
    assert!(startup.on_statement(Ok(()), &mut health).is_ok());
    assert_eq!(startup.action, StartupAction::Run);
    assert!(health.ready());
}

#[test]
fn limits_are_set_by_hand_up_to_the_configured_one() {
    let mut control = WorkerControl::new(number(2), queue("queue"));
    assert_eq!(control.configured_concurrency().get(), 2);
    assert_eq!(control.effective_concurrency().get(), 2);
    assert_eq!(
        control.set_effective_concurrency(number(3)),
        Err(WorkerError::AdmissionLimitExceedsConfigured {
            requested: 3,
            configured: 2,
        })
    );
    assert_eq!(control.effective_concurrency().get(), 2);
    let measurements = control.set_effective_concurrency(number(1)).unwrap();
    assert_eq!(control.effective_concurrency().get(), 1);
    assert_eq!(measurements[0].amount, Amount::Count(1));
    assert_eq!(words(&measurements, "pgtask.admission.reason"), ["manual"]);
    assert_eq!(words(&measurements, "pgtask.admission.decision"), ["applied"]);
    assert!(control.set_effective_concurrency(number(1)).unwrap().is_empty());
}

fn observation() -> HealthObservation {
    HealthObservation {
        active_leases: false,
        database: true,
        lease_renewal: true,
        lease_renewal_age: Duration::zero(),
        runtime_lag: Duration::zero(),
    }
}

#[test]
fn overload_is_proposed_and_enforced_only_when_configured() {
    let threshold = Duration::from_secs(20);
    let mut config = OverloadProtectionConfig::default();
    config.event_loop_lag_threshold = Duration::zero();
    config.sustained_samples = number(1);
    let mut control = WorkerControl::new(number(4), queue("queue"));
    let mut detector = OverloadDetector::new();
    let measurements = detector.observe(&mut control, &config, threshold, &observation());
    assert_eq!(control.proposed_concurrency().get(), 2);
    assert_eq!(control.effective_concurrency().get(), 4);
    assert_eq!(words(&measurements, "pgtask.admission.reason"), ["event_loop_lag"]);

    config.enforce = true;
    detector.observe(&mut control, &config, threshold, &observation());
    assert_eq!(control.effective_concurrency().get(), 2);
    detector.observe(&mut control, &config, threshold, &observation());
    detector.observe(&mut control, &config, threshold, &observation());
    assert_eq!(control.effective_concurrency().get(), 1);
    assert_eq!(control.proposed_concurrency().get(), 1);

    config.enabled = false;
    assert!(detector
        .observe(&mut control, &config, threshold, &observation())
        .is_empty());
}

#[test]
fn limits_recover_one_by_one() {
    let threshold = Duration::from_secs(20);
    let mut config = OverloadProtectionConfig::default();
    config.event_loop_lag_threshold = Duration::max_value();
    config.recovery_samples = number(3);
    config.enforce = true;
    let mut control = WorkerControl::new(number(4), queue("queue"));
    control.set_effective_concurrency(number(1)).unwrap();
    let mut detector = OverloadDetector::new();
    let mut limits = Vec::new();
    for _ in 0..7 {
        detector.observe(&mut control, &config, threshold, &observation());
        limits.push(control.effective_concurrency().get());
    }
    assert_eq!(limits, [1, 1, 2, 3, 4, 4, 4]);
}

#[test]
fn lost_databases_and_late_renewals_are_overload() {
    let threshold = Duration::from_secs(20);
    let config = OverloadProtectionConfig::default();
    let reason = |observation: HealthObservation| {
        let mut control = WorkerControl::new(number(4), queue("queue"));
        let mut detector = OverloadDetector::new();
        let measurements = detector.observe(&mut control, &config, threshold, &observation);
        words(&measurements, "pgtask.admission.reason")
    };
    assert_eq!(
        reason(HealthObservation {
            database: false,
            ..observation()
        }),
        ["database_unavailable"]
    );
    assert_eq!(
        reason(HealthObservation {
            active_leases: true,
            lease_renewal_age: threshold,
            ..observation()
        }),
        ["lease_renewal_late"]
    );
    assert_eq!(
        reason(HealthObservation {
            active_leases: true,
            lease_renewal: false,
            ..observation()
        }),
        ["lease_renewal_late"]
    );
    assert!(reason(HealthObservation {
        lease_renewal_age: threshold,
        ..observation()
    })
    .is_empty());
}

#[test]
fn health_is_the_conjunction_of_its_parts() {
    let mut health = Health::new(Duration::from_secs(100));
    assert_eq!(ready_answer(&health), (503, "not ready"));
    health.set_admission(true);
    health.set_database(true);
    health.set_listener(true);
    assert_eq!(ready_answer(&health), (200, "ready"));
    health.set_active_leases(true);
    health.record_lease_renewal(false, Duration::from_secs(105));
    assert!(!health.ready());
    let (observed, measurements) = health.record_metrics(
        &queue("queue"),
        Duration::from_secs(1),
        Duration::from_secs(110),
    );
    assert_eq!(observed.runtime_lag, Duration::from_secs(9));
    assert_eq!(observed.lease_renewal_age, Duration::from_secs(10));
    assert_eq!(measurements[0].instrument, Instrument::WorkerEventLoopLag);
    assert_eq!(measurements[0].amount, Amount::Span(Duration::from_secs(9)));
    assert_eq!(measurements[1].amount, Amount::Span(Duration::from_secs(10)));
    health.record_lease_renewal(true, Duration::from_secs(109));
    health.record_runtime_progress(Duration::from_secs(110));
    let (observed, _) = health.record_metrics(
        &queue("queue"),
        Duration::from_secs(1),
        Duration::from_secs(110),
    );
    assert_eq!(observed.runtime_lag, Duration::zero());
    assert_eq!(observed.lease_renewal_age, Duration::from_secs(1));
    health.record_lease_renewal(false, Duration::from_secs(111));
    health.set_active_leases(false);
    assert!(health.ready());
}

#[test]
fn claimed_tasks_need_a_lease_and_a_handler() {
    let handlers = registry("task");
    let (lease, handler) = admit_task(&task(), &handlers).unwrap();
    assert_eq!(lease.attempt, 2);
    assert_eq!(lease.lease_token, LeaseToken::from_uuid(Uuid::from_u128(2)));
    assert_eq!(handler.function, "handler");
    let mut bare = task();
    bare.lease_token = None;
    assert_eq!(
        admit_task(&bare, &handlers).unwrap_err(),
        WorkerError::MissingLeaseToken(bare.id)
    );
    assert_eq!(
        admit_task(&task(), &registry("other")).unwrap_err(),
        WorkerError::MissingHandler
    );
}

#[test]
fn outcomes_become_reports() {
    let delay = Some(Duration::from_secs(5));
    assert_eq!(
        execution_step(HandlerOutcome::Returned(Json::Bool(true)), delay),
        ExecutionStep::Complete(Json::Bool(true))
    );
    let retryable = HandlerError::retryable("again");
    let report = HandlerError::retryable("again").error;
    assert_eq!(
        execution_step(HandlerOutcome::Failed(retryable), delay),
        ExecutionStep::Fail {
            error: report,
            retry_after: delay,
            panicked: false,
        }
    );
    assert!(matches!(
        execution_step(HandlerOutcome::Failed(HandlerError::terminal("stop")), delay),
        ExecutionStep::Fail {
            retry_after: None,
            panicked: false,
            ..
        }
    ));
    assert_eq!(
        execution_step(HandlerOutcome::Failed(HandlerError::suspended()), delay),
        ExecutionStep::Finish {
            outcome: "suspended"
        }
    );
    assert_eq!(
        execution_step(HandlerOutcome::Panicked, delay),
        ExecutionStep::Fail {
            error: Json::Object(JsonObject::new().with("type", Json::text("handler_panic"))),
            retry_after: delay,
            panicked: true,
        }
    );
    assert_eq!(
        execution_step(HandlerOutcome::LeaseLost, delay),
        ExecutionStep::Finish {
            outcome: "lease_lost"
        }
    );
}

#[test]
fn the_policy_of_a_task_goes_before_that_of_its_handler() {
    let fixed = |secs: u64| RetryPolicy::Fixed {
        delay: Duration::from_secs(secs),
    };
    let retry_after = |step: ExecutionStep| match step {
        ExecutionStep::Fail { retry_after, .. } => retry_after,
        _ => None,
    };
    let mut run = task();
    assert_eq!(
        retry_after(finish_execution(&run, fixed(1), HandlerOutcome::Panicked)),
        Some(Duration::from_secs(1))
    );
    run.retry_policy = Some(fixed(2));
    assert_eq!(
        retry_after(finish_execution(&run, fixed(1), HandlerOutcome::Panicked)),
        Some(Duration::from_secs(2))
    );
    run.retry_policy = Some(RetryPolicy::Never);
    assert_eq!(
        retry_after(finish_execution(&run, fixed(1), HandlerOutcome::Panicked)),
        None
    );
}

#[test]
fn executions_are_measured() {
    let elapsed = Duration::from_millis(7);
    assert_eq!(
        measure_latency(&task()).amount,
        Amount::Span(Duration::from_secs(3))
    );
    assert_eq!(measure_finish(&task(), "suspended", elapsed).amount, Amount::Span(elapsed));
    let done = after_complete(&task(), true, elapsed);
    assert_eq!(words(&done, "pgtask.task.state"), ["succeeded"]);
    assert_eq!(words(&done, "pgtask.execution.outcome"), ["succeeded"]);
    let lost = after_complete(&task(), false, elapsed);
    assert_eq!(words(&lost, "pgtask.task.state"), ["lease_lost"]);
    assert!(words(&lost, "pgtask.execution.outcome").is_empty());
    for (panicked, state, transition, outcome) in [
        (false, None, "lease_lost", "failed"),
        (false, Some(TaskState::Pending), "retried", "retry"),
        (false, Some(TaskState::Failed), "failed", "failed"),
        (true, Some(TaskState::Pending), "retried", "panic"),
        (true, None, "lease_lost", "panic"),
    ] {
        let measured = after_fail(&task(), panicked, state, elapsed);
        assert_eq!(words(&measured, "pgtask.task.state"), [transition]);
        assert_eq!(words(&measured, "pgtask.execution.outcome"), [outcome]);
    }
    assert_eq!(record_failure_state(&task(), None), []);
    let retried = record_failure_state(&task(), Some(TaskState::Pending));
    assert_eq!(words(&retried, "pgtask.task.state"), ["retried"]);
    let failed = record_failure_state(&task(), Some(TaskState::Failed));
    assert_eq!(words(&failed, "pgtask.task.state"), ["failed"]);
    assert_eq!(handle_handler_result(Ok(())), None);
    assert_eq!(handle_handler_result(Err(failure())), Some(failure()));
}

fn lease(id: u128, attempt: u16, renewed_at: u64) -> ActiveLease {
    ActiveLease {
        renewal: LeaseRenewal {
            task_id: TaskId::from_uuid(Uuid::from_u128(id)),
            attempt,
            lease_token: LeaseToken::from_uuid(Uuid::from_u128(100 + id)),
        },
        queue_name: queue("queue"),
        task_name: name("task"),
        last_renewed: Duration::from_secs(renewed_at),
    }
}

#[test]
fn leases_that_are_not_renewed_are_lost() {
    let mut health = Health::new(Duration::zero());
    let mut active = ActiveLeases::new();
    assert!(active.is_empty());
    active.start(lease(1, 1, 0), &mut health);
    active.start(lease(2, 1, 0), &mut health);
    assert!(health.active_leases);
    let snapshot = active.snapshot();
    assert_eq!(renewals(&snapshot).len(), 2);
    let now = Duration::from_secs(10);
    let answer = Ok(vec![TaskId::from_uuid(Uuid::from_u128(1))]);
    let (lost, measurements) =
        active.on_renewal(&snapshot, &answer, now, Duration::from_secs(30), &mut health);
    assert_eq!(lost, [TaskId::from_uuid(Uuid::from_u128(2))]);
    assert_eq!(measurements.len(), 3);
    assert_eq!(words(&measurements, "pgtask.lease.renewed"), ["true", "false"]);
    assert!(!health.lease_renewal);
    assert!(health.database);
    let renewed = active
        .snapshot()
        .into_iter()
        .find(|lease| lease.renewal.task_id.as_uuid() == Uuid::from_u128(1))
        .unwrap();
    assert_eq!(renewed.last_renewed, now);
    active.finish(TaskId::from_uuid(Uuid::from_u128(1)), &mut health);
    assert!(health.active_leases);
    active.finish(TaskId::from_uuid(Uuid::from_u128(2)), &mut health);
    assert!(!health.active_leases);
    assert!(health.lease_renewal);
}

#[test]
fn a_lease_of_a_later_attempt_is_left_alone() {
    let mut health = Health::new(Duration::zero());
    let mut active = ActiveLeases::new();
    active.start(lease(1, 1, 0), &mut health);
    let snapshot = active.snapshot();
    active.start(lease(1, 2, 5), &mut health);
    let (lost, measurements) = active.update_renewed(&snapshot, &Vec::new(), Duration::from_secs(9));
    assert!(lost.is_empty());
    assert_eq!(measurements.len(), 1);
    assert_eq!(active.snapshot(), [lease(1, 2, 5)]);
    active.clear();
    assert!(active.is_empty());
}

#[test]
fn uncertain_leases_are_given_up_after_two_thirds() {
    let mut health = Health::new(Duration::zero());
    let mut active = ActiveLeases::new();
    active.start(lease(1, 1, 0), &mut health);
    active.start(lease(2, 1, 5), &mut health);
    let snapshot = active.snapshot();
    let duration = Duration::from_secs(30);
    let failed: Result<Vec<TaskId>, PostgresError> = Err(failure());
    let (lost, measurements) =
        active.on_renewal(&snapshot, &failed, Duration::from_secs(20), duration, &mut health);
    assert_eq!(lost, [TaskId::from_uuid(Uuid::from_u128(1))]);
    assert_eq!(measurements.len(), 1);
    assert!(!health.database);
    assert!(!health.lease_renewal);
    assert_eq!(renewal_interval(duration), Duration::from_secs(10));
}

#[test]
fn earlier_queues_are_drained_before_later_ones() {
    let mut config = WorkerConfig::with_queues(vec![queue("high"), queue("low")]);
    config.concurrency = number(4);
    config.claim_batch_size = number(3);
    let worker = worker(config);
    let mut health = Health::new(Duration::zero());
    let mut run = HandlerLoop::new(&worker);
    let now = Duration::from_secs(1);
    let (action, measurements) = run.on_top(&worker, false, 1, now, &mut health);
    assert_eq!(action, LoopAction::Recover(0));
    assert_eq!(measurements.len(), 4);
    assert_eq!(measurements[3].amount, Amount::Count(3));
    assert_eq!(health.runtime_progress, now);
    assert_eq!(run.on_recovered(&worker, true, 1, &mut health), LoopAction::Recover(1));
    assert_eq!(
        run.on_recovered(&worker, true, 1, &mut health),
        LoopAction::Claim { queue: 0, limit: 3 }
    );
    assert_eq!(
        run.on_claimed(Some(2), &mut health),
        LoopAction::Claim { queue: 1, limit: 1 }
    );
    assert_eq!(run.on_claimed(Some(0), &mut health), LoopAction::Again);

    run.on_top(&worker, false, 3, now, &mut health);
    run.on_recovered(&worker, true, 3, &mut health);
    assert_eq!(
        run.on_recovered(&worker, true, 3, &mut health),
        LoopAction::Claim { queue: 0, limit: 1 }
    );
    assert_eq!(
        run.on_claimed(Some(1), &mut health),
        LoopAction::Again,
        "a full claim leaves nothing for the later queue"
    );
}

#[test]
fn an_idle_worker_waits_for_the_nearest_deadline() {
    let mut config = WorkerConfig::with_queues(vec![queue("high"), queue("low")]);
    config.poll_interval = Duration::from_secs(5);
    let worker = worker(config);
    let mut health = Health::new(Duration::zero());
    let mut run = HandlerLoop::new(&worker);
    let reach_delays = |run: &mut HandlerLoop, health: &mut Health| {
        run.on_top(&worker, false, 0, Duration::zero(), health);
        run.on_recovered(&worker, true, 0, health);
        run.on_recovered(&worker, true, 0, health);
        run.on_claimed(Some(0), health);
        assert_eq!(run.on_claimed(Some(0), health), LoopAction::AskDelay(0));
    };
    reach_delays(&mut run, &mut health);
    assert_eq!(
        run.on_delay(&worker, Ok(Some(Duration::from_secs(3))), &mut health),
        LoopAction::AskDelay(1)
    );
    assert_eq!(
        run.on_delay(&worker, Ok(Some(Duration::from_secs(4))), &mut health),
        LoopAction::Wait(Duration::from_secs(3))
    );
    assert_eq!(run.on_woken(&worker, false), LoopAction::Again);

    reach_delays(&mut run, &mut health);
    run.on_delay(&worker, Ok(None), &mut health);
    assert_eq!(
        run.on_delay(&worker, Ok(Some(Duration::zero())), &mut health),
        LoopAction::Wait(Duration::from_millis(1))
    );
    run.on_woken(&worker, false);

    reach_delays(&mut run, &mut health);
    run.on_delay(&worker, Ok(None), &mut health);
    assert_eq!(
        run.on_delay(&worker, Ok(None), &mut health),
        LoopAction::Wait(Duration::from_secs(5))
    );
    run.on_woken(&worker, false);

    reach_delays(&mut run, &mut health);
    assert_eq!(
        run.on_delay(&worker, Err(failure()), &mut health),
        LoopAction::Wait(Duration::from_secs(1))
    );
    assert!(!health.database);
}

#[test]
fn a_busy_or_failing_worker_claims_nothing() {
    let mut config = WorkerConfig::new(queue("queue"));
    config.concurrency = number(2);
    let worker = worker(config);
    let mut health = Health::new(Duration::zero());
    let mut run = HandlerLoop::new(&worker);
    run.on_top(&worker, false, 2, Duration::zero(), &mut health);
    assert_eq!(
        run.on_recovered(&worker, true, 2, &mut health),
        LoopAction::Wait(Duration::from_secs(30))
    );
    assert_eq!(run.on_woken(&worker, false), LoopAction::Again);
    run.on_top(&worker, false, 0, Duration::zero(), &mut health);
    assert_eq!(
        run.on_recovered(&worker, false, 0, &mut health),
        LoopAction::Pause(Duration::from_secs(1))
    );
    assert!(!health.database);
    assert_eq!(run.on_woken(&worker, true), LoopAction::Again);
    run.on_top(&worker, false, 0, Duration::zero(), &mut health);
    run.on_recovered(&worker, true, 0, &mut health);
    assert!(health.database);
    assert_eq!(
        run.on_claimed(None, &mut health),
        LoopAction::Pause(Duration::from_secs(1))
    );
    assert!(!health.database);
}

#[test]
fn a_stopping_worker_drains_its_handlers() {
    let worker = worker(WorkerConfig::new(queue("queue")));
    let mut health = Health::new(Duration::zero());
    let grace = Duration::from_secs(30);
    let mut run = HandlerLoop::new(&worker);
    let (action, measurements) = run.on_top(&worker, true, 2, Duration::zero(), &mut health);
    assert_eq!(action, LoopAction::Drain(grace));
    assert!(measurements.is_empty());
    assert_eq!(run.on_drained(2, false), None);
    assert_eq!(run.on_drained(1, false), None);
    assert_eq!(run.on_drained(0, false), Some(LoopAction::Stop));
    assert_eq!(run.phase, LoopPhase::Stopped);

    let mut run = HandlerLoop::new(&worker);
    run.on_top(&worker, false, 10, Duration::zero(), &mut health);
    run.on_recovered(&worker, true, 10, &mut health);
    assert_eq!(run.on_woken(&worker, true), LoopAction::Drain(grace));
    assert_eq!(run.on_drained(10, true), Some(LoopAction::Abort));
}

#[test]
fn notifications_wake_what_they_are_about() {
    let queues = vec![queue("high"), queue("low")];
    let wake = |channel: &str, payload: &str| {
        wakeup(
            &Notification::new(channel.to_owned(), payload.to_owned()),
            &queues,
        )
    };
    assert_eq!(wake("pgtask_ready_12", "low"), Wakeup::Tasks);
    assert_eq!(wake("pgtask_ready_12", "other"), Wakeup::Nothing);
    assert_eq!(wake("pgtask_schedule", ""), Wakeup::Schedules);
    assert_eq!(wake("pgtask_wait", "low"), Wakeup::Schedules);
    assert_eq!(wake("pgtask_read", "low"), Wakeup::Nothing);
}

#[test]
fn reconnects_slow_down_to_five_seconds() {
    let mut health = Health::new(Duration::zero());
    let mut watch = ReadyWatch::new();
    health.set_listener(true);
    watch.on_disconnected(&mut health);
    assert!(!health.listener);
    let mut delays = Vec::new();
    for _ in 0..8 {
        delays.push(watch.on_reconnect(false, &mut health).unwrap().as_millis());
    }
    assert_eq!(delays, [100, 200, 400, 800, 1_600, 3_200, 5_000, 5_000]);
    assert!(!health.database);
    assert_eq!(watch.on_reconnect(true, &mut health), None);
    assert!(health.database && health.listener && watch.connected);
    assert_eq!(watch.retry_delay, Duration::from_millis(100));
}

#[test]
fn background_loops_take_in_their_answers() {
    let interval = Duration::from_secs(30);
    assert_eq!(scheduler_delay(interval, None, None), interval);
    assert_eq!(
        scheduler_delay(interval, Some(Duration::from_secs(5)), Some(Duration::from_secs(7))),
        Duration::from_secs(5)
    );
    assert_eq!(
        scheduler_delay(interval, Some(Duration::from_secs(50)), Some(Duration::from_secs(7))),
        Duration::from_secs(7)
    );
    let mut health = Health::new(Duration::zero());
    on_heartbeat(&Ok(true), &mut health);
    assert!(health.database);
    on_heartbeat(&Ok(false), &mut health);
    assert!(!health.database);
    on_heartbeat(&Ok(true), &mut health);
    on_heartbeat(&Err(failure()), &mut health);
    assert!(!health.database);
    let demand = QueueDemand {
        ready_tasks: 9,
        capable_tasks: 5,
        unroutable_tasks: 2,
    };
    let measurements = on_demand(&queue("queue"), &Ok(demand), &mut health);
    assert_eq!(measurements[0].amount, Amount::Count(5));
    assert_eq!(measurements[1].amount, Amount::Count(2));
    assert!(on_demand(&queue("queue"), &Err(failure()), &mut health).is_empty());
}

fn checkpoint(value: Json) -> Checkpoint {
    Checkpoint {
        task_id: TaskId::default(),
        handler_version: HandlerVersion::default(),
        step_name: StepName::new("step").unwrap(),
        occurrence: 0,
        value,
        created_at: Timestamp::from_unix_secs(0).unwrap(),
    }
}

fn kind(error: &HandlerError) -> String {
    error.error.get("type").unwrap().as_str().unwrap().to_owned()
}

#[test]
fn steps_replay_their_checkpoints() {
    assert!(begin_step(false).is_ok());
    assert_eq!(kind(&begin_step(true).unwrap_err()), "lease_lost");
    assert_eq!(
        look_up_step(Ok(Some(checkpoint(Json::Bool(true))))).unwrap(),
        StepDecision::Replay(Json::Bool(true))
    );
    assert_eq!(look_up_step(Ok(None)).unwrap(), StepDecision::Run);
    let error = look_up_step(Err(failure())).unwrap_err();
    assert_eq!(kind(&error), "checkpoint_read_error");
    assert_eq!(
        error.error.get("message"),
        Some(&Json::text("max_attempts must be greater than zero"))
    );
    assert!(error.retryable);
    assert_eq!(
        finish_step(Ok(Some(checkpoint(Json::Null)))).unwrap(),
        Json::Null
    );
    assert_eq!(kind(&finish_step(Ok(None)).unwrap_err()), "lease_lost");
    assert_eq!(
        kind(&finish_step(Err(failure())).unwrap_err()),
        "checkpoint_write_error"
    );
}

#[test]
fn waits_suspend_until_they_are_over() {
    let wake_at = Timestamp::from_unix_secs(1).unwrap();
    assert!(checkpoint_exists(Ok(Some(checkpoint(Json::Null)))).unwrap());
    assert!(!checkpoint_exists(Ok(None)).unwrap());
    assert!(checkpoint_exists(Err(failure())).is_err());
    let asleep = finish_sleep(Ok(Some(wake_at))).unwrap_err();
    assert!(asleep.is_suspended());
    assert!(!asleep.retryable);
    assert_eq!(kind(&asleep), "suspended");
    assert_eq!(kind(&finish_sleep(Ok(None)).unwrap_err()), "lease_lost");
    assert_eq!(kind(&finish_sleep(Err(failure())).unwrap_err()), "sleep_write_error");

    let signal = Json::Object(
        JsonObject::new()
            .with("outcome", Json::text("signal"))
            .with("value", Json::unsigned(7)),
    );
    assert_eq!(
        finish_signal_wait(Ok(Some(SignalWait::Ready(signal)))).unwrap(),
        Some(Json::unsigned(7))
    );
    assert!(finish_signal_wait(Ok(Some(SignalWait::Waiting)))
        .unwrap_err()
        .is_suspended());
    assert_eq!(kind(&finish_signal_wait(Ok(None)).unwrap_err()), "lease_lost");
    assert_eq!(
        kind(&finish_signal_wait(Err(failure())).unwrap_err()),
        "signal_wait_error"
    );
    assert_eq!(
        finish_result_wait(Ok(Some(ResultWait::Ready(Json::Null)))).unwrap(),
        Json::Null
    );
    assert!(finish_result_wait(Ok(Some(ResultWait::Waiting)))
        .unwrap_err()
        .is_suspended());
    assert_eq!(
        kind(&finish_result_wait(Err(failure())).unwrap_err()),
        "result_wait_error"
    );
    let child = EnqueueResult {
        task_id: TaskId::default(),
        created: true,
    };
    assert_eq!(finish_spawn(Ok(Some(child))).unwrap(), child.task_id);
    assert_eq!(kind(&finish_spawn(Ok(None)).unwrap_err()), "lease_lost");
    assert_eq!(kind(&finish_spawn(Err(failure())).unwrap_err()), "child_spawn_error");
}

#[test]
fn malformed_signal_checkpoints_are_terminal() {
    let outcome = |word: &str| JsonObject::new().with("outcome", Json::text(word));
    assert_eq!(
        decode_signal_checkpoint(Json::Object(outcome("timeout"))).unwrap(),
        None
    );
    for (checkpoint, message) in [
        (Json::text("invalid"), "signal checkpoint is not an object"),
        (
            Json::Object(outcome("signal")),
            "signal checkpoint has no value",
        ),
        (
            Json::Object(outcome("invalid")),
            "signal checkpoint has an invalid outcome",
        ),
        (
            Json::Object(JsonObject::new()),
            "signal checkpoint has an invalid outcome",
        ),
    ] {
        let error = decode_signal_checkpoint(checkpoint).unwrap_err();
        assert!(!error.retryable);
        assert_eq!(error.error.get("message"), Some(&Json::text(message)));
        assert_eq!(error.to_string(), "task handler failed");
    }
}

#[test]
fn listeners_hear_only_what_they_asked_for() {
    let message = |channel: &str, payload: &str| {
        Notification::new(channel.to_owned(), payload.to_owned())
    };
    let filters = ready_filters(vec![
        ("pgtask_ready_1".to_owned(), queue("high")),
        ("pgtask_ready_2".to_owned(), queue("low")),
    ])
    .unwrap();
    let mut channels = filters.channels();
    channels.sort();
    assert_eq!(
        channels,
        ["pgtask_ready_1", "pgtask_ready_2", "pgtask_schedule", "pgtask_wait"]
    );
    let listener = ReadyListener { filters };
    let hear = |received: Received| listener.recv(received);
    let event = |notification: Notification| Received::Event(NotificationEvent::Ready(notification));
    assert_eq!(
        hear(event(message("pgtask_ready_1", "high"))),
        Some(Ok(message("pgtask_ready_1", "high")))
    );
    assert_eq!(hear(event(message("pgtask_ready_1", "low"))), None);
    assert_eq!(
        hear(event(message("pgtask_wait", "anything"))),
        Some(Ok(message("pgtask_wait", "anything")))
    );
    assert_eq!(hear(event(message("elsewhere", "high"))), None);
    assert_eq!(hear(Received::Lagged), None);
    assert_eq!(
        hear(Received::Event(NotificationEvent::Disconnected("lost".to_owned()))),
        Some(Err(PostgresError::Notification("lost".to_owned())))
    );
    assert_eq!(
        hear(Received::Closed),
        Some(Err(PostgresError::Notification(
            "notification hub stopped".to_owned()
        )))
    );
    assert_eq!(ready_filters(Vec::new()).unwrap_err(), PostgresError::MissingQueues);
    let id = TaskId::new();
    let filters = result_filters("pgtask_result_1".to_owned(), id);
    assert!(filters.hears(&message("pgtask_result_1", &id.to_string())));
    assert!(!filters.hears(&message("pgtask_result_1", "other")));
    assert!(subscribed(Some(Ok(())), Filters::new()).is_ok());
    assert_eq!(
        subscribed(Some(Err("no".to_owned())), Filters::new()).unwrap_err(),
        PostgresError::Notification("no".to_owned())
    );
    assert!(subscribed(None, Filters::new()).is_err());
}

#[test]
fn the_hub_listens_to_every_channel_again_after_a_lost_connection() {
    let text = |value: &str| value.to_owned();
    let listen = |channel: &str| HubStep {
        answer: None,
        broadcast: None,
        action: HubAction::Listen(channel.to_owned()),
    };
    let confirmed = || HubStep {
        answer: Some(Ok(())),
        broadcast: None,
        action: HubAction::AwaitCommandOrNotification,
    };
    let mut hub = NotificationHub::new();
    assert_eq!(
        hub.on_command(vec![text("a"), text("b"), text("a")]).action,
        HubAction::Connect
    );
    assert_eq!(hub.on_opened(None), listen("a"));
    assert_eq!(hub.on_listened(None), listen("b"));
    assert_eq!(hub.on_listened(None), confirmed());
    assert_eq!(hub.phase(), HubPhase::Connected);
    assert_eq!(hub.on_command(vec![text("b")]), confirmed());
    assert_eq!(hub.on_command(vec![text("c")]), listen("c"));
    assert_eq!(hub.on_listened(None), confirmed());
    let notification = Notification::new(text("a"), text("payload"));
    assert_eq!(
        hub.on_notification(Ok(notification.clone())).broadcast,
        Some(NotificationEvent::Ready(notification))
    );
    let step = hub.on_notification(Err(text("gone")));
    assert_eq!(step.broadcast, Some(NotificationEvent::Disconnected(text("gone"))));
    assert_eq!(step.action, HubAction::AwaitCommand);
    assert_eq!(hub.on_command(vec![text("d")]).action, HubAction::Connect);
    let step = hub.on_opened(Some(text("refused")));
    assert_eq!(step.answer, Some(Err(text("refused"))));
    assert_eq!(hub.on_command(Vec::new()).action, HubAction::Connect);
    assert_eq!(hub.on_opened(None), listen("a"));
    assert_eq!(hub.on_listened(None), listen("b"));
    assert_eq!(hub.on_listened(None), listen("c"));
    assert_eq!(hub.on_listened(None), listen("d"));
    assert_eq!(hub.on_listened(None), confirmed());
    assert_eq!(hub.on_command(vec![text("e")]), listen("e"));
    let step = hub.on_listened(Some(text("broken")));
    assert_eq!(step.answer, Some(Err(text("broken"))));
    assert_eq!(
        step.broadcast,
        Some(NotificationEvent::Disconnected(text("broken")))
    );
    hub.on_command(Vec::new());
    hub.on_opened(None);
    let step = hub.on_listened(Some(text("early")));
    assert_eq!(step.answer, Some(Err(text("early"))));
    assert_eq!(step.broadcast, None, "nobody was connected yet");
    assert_eq!(hub.on_closed().action, HubAction::Stop);
}
