//! Workers: their configuration and how they start.

use vstd::prelude::*;
use vstd::string::StringExecFns;

use crate::control::{Limits, OverloadProtectionConfig, WorkerControl};
use crate::error::{fault_text, Fault, PostgresError};
use crate::health::Health;
use crate::identifier::{QueueName, TaskId, WorkerId};
use crate::number::NonZeroU16;
use crate::protocol::{ranges_overlap, StorageProtocolRange};
use crate::registry::{capability_ids, HandlerRegistry};
use crate::schedule::ScheduleConfig;
use crate::text::{decimal, decimal_text};
use crate::time::{Duration, NANOS_PER_MILLI, NANOS_PER_SEC};
use crate::unique::{is_version_seven, uuid_text};

verus! {

#[derive(Debug, PartialEq, Eq)]
pub enum WorkerError {
    Postgres(PostgresError),
    MissingQueues,
    DuplicateQueues,
    InvalidLeaseDuration,
    InvalidPollInterval,
    InvalidWorkerHeartbeat,
    InvalidScheduleReconciliationInterval,
    InvalidRetentionInterval,
    InvalidSupervisorInterval,
    InvalidMinimumConcurrency,
    Supervisor(String),
    IncompatibleStorageProtocol {
        database_minimum: u32,
        database_maximum: u32,
        worker_minimum: u32,
        worker_maximum: u32,
    },
    OutdatedStorageSchema,
    MissingHandlers,
    AdmissionLimitExceedsConfigured { requested: u16, configured: u16 },
    InvalidDeclaredSchedule(String),
    MissingLeaseToken(TaskId),
    MissingHandler,
}

/// An error in the abstract, with its words as characters.
pub enum WorkerFault {
    Postgres(Fault),
    MissingQueues,
    DuplicateQueues,
    InvalidLeaseDuration,
    InvalidPollInterval,
    InvalidWorkerHeartbeat,
    InvalidScheduleReconciliationInterval,
    InvalidRetentionInterval,
    InvalidSupervisorInterval,
    InvalidMinimumConcurrency,
    Supervisor(Seq<char>),
    IncompatibleStorageProtocol {
        database_minimum: u32,
        database_maximum: u32,
        worker_minimum: u32,
        worker_maximum: u32,
    },
    OutdatedStorageSchema,
    MissingHandlers,
    AdmissionLimitExceedsConfigured { requested: u16, configured: u16 },
    InvalidDeclaredSchedule(Seq<char>),
    MissingLeaseToken(TaskId),
    MissingHandler,
}

impl View for WorkerError {
    type V = WorkerFault;

    open spec fn view(&self) -> WorkerFault {
        match *self {
            WorkerError::Postgres(error) => WorkerFault::Postgres(error@),
            WorkerError::MissingQueues => WorkerFault::MissingQueues,
            WorkerError::DuplicateQueues => WorkerFault::DuplicateQueues,
            WorkerError::InvalidLeaseDuration => WorkerFault::InvalidLeaseDuration,
            WorkerError::InvalidPollInterval => WorkerFault::InvalidPollInterval,
            WorkerError::InvalidWorkerHeartbeat => WorkerFault::InvalidWorkerHeartbeat,
            WorkerError::InvalidScheduleReconciliationInterval => {
                WorkerFault::InvalidScheduleReconciliationInterval
            },
            WorkerError::InvalidRetentionInterval => WorkerFault::InvalidRetentionInterval,
            WorkerError::InvalidSupervisorInterval => WorkerFault::InvalidSupervisorInterval,
            WorkerError::InvalidMinimumConcurrency => WorkerFault::InvalidMinimumConcurrency,
            WorkerError::Supervisor(message) => WorkerFault::Supervisor(message@),
            WorkerError::IncompatibleStorageProtocol {
                database_minimum,
                database_maximum,
                worker_minimum,
                worker_maximum,
            } => WorkerFault::IncompatibleStorageProtocol {
                database_minimum,
                database_maximum,
                worker_minimum,
                worker_maximum,
            },
            WorkerError::OutdatedStorageSchema => WorkerFault::OutdatedStorageSchema,
            WorkerError::MissingHandlers => WorkerFault::MissingHandlers,
            WorkerError::AdmissionLimitExceedsConfigured { requested, configured } => {
                WorkerFault::AdmissionLimitExceedsConfigured { requested, configured }
            },
            WorkerError::InvalidDeclaredSchedule(name) => WorkerFault::InvalidDeclaredSchedule(
                name@,
            ),
            WorkerError::MissingLeaseToken(task_id) => WorkerFault::MissingLeaseToken(task_id),
            WorkerError::MissingHandler => WorkerFault::MissingHandler,
        }
    }
}

/// What an error says.
pub open spec fn worker_fault_text(fault: WorkerFault) -> Seq<char> {
    match fault {
        WorkerFault::Postgres(fault) => fault_text(fault),
        WorkerFault::MissingQueues => "at least one queue is required"@,
        WorkerFault::DuplicateQueues => "worker queues must be unique"@,
        WorkerFault::InvalidLeaseDuration => "lease duration must be at least three milliseconds"@,
        WorkerFault::InvalidPollInterval => "poll interval must be greater than zero"@,
        WorkerFault::InvalidWorkerHeartbeat => {
            "worker heartbeat interval must be nonzero and shorter than its time to live"@
        },
        WorkerFault::InvalidScheduleReconciliationInterval => {
            "schedule reconciliation interval must be greater than zero"@
        },
        WorkerFault::InvalidRetentionInterval => "retention interval must be greater than zero"@,
        WorkerFault::InvalidSupervisorInterval => "supervisor interval must be greater than zero"@,
        WorkerFault::InvalidMinimumConcurrency => {
            "overload protection minimum concurrency exceeds configured concurrency"@
        },
        WorkerFault::Supervisor(message) => "worker supervisor failed: "@ + message,
        WorkerFault::IncompatibleStorageProtocol {
            database_minimum,
            database_maximum,
            worker_minimum,
            worker_maximum,
        } => "database storage protocols "@ + decimal_text(database_minimum as nat) + "..="@
            + decimal_text(database_maximum as nat) + " are incompatible with worker protocols "@
            + decimal_text(worker_minimum as nat) + "..="@ + decimal_text(worker_maximum as nat),
        WorkerFault::OutdatedStorageSchema => {
            "database storage schema does not sample queue demand"@
        },
        WorkerFault::MissingHandlers => "worker has no registered handlers"@,
        WorkerFault::AdmissionLimitExceedsConfigured { requested, configured } => {
            "effective concurrency "@ + decimal_text(requested as nat)
                + " exceeds configured concurrency "@ + decimal_text(configured as nat)
        },
        WorkerFault::InvalidDeclaredSchedule(name) => "declared schedule "@ + name
            + " targets another queue or an unregistered handler"@,
        WorkerFault::MissingLeaseToken(task_id) => "claimed task "@ + uuid_text(
            task_id.uuid.value,
        ) + " has no lease token"@,
        WorkerFault::MissingHandler => "claimed task has no registered handler"@,
    }
}

impl WorkerError {
    pub fn to_string(&self) -> (result: String)
        ensures
            result@ == worker_fault_text(self@),
    {
        match self {
            WorkerError::Postgres(error) => error.to_string(),
            WorkerError::MissingQueues => "at least one queue is required".to_owned(),
            WorkerError::DuplicateQueues => "worker queues must be unique".to_owned(),
            WorkerError::InvalidLeaseDuration => {
                "lease duration must be at least three milliseconds".to_owned()
            },
            WorkerError::InvalidPollInterval => {
                "poll interval must be greater than zero".to_owned()
            },
            WorkerError::InvalidWorkerHeartbeat => {
                "worker heartbeat interval must be nonzero and shorter than its time to live".to_owned()
            },
            WorkerError::InvalidScheduleReconciliationInterval => {
                "schedule reconciliation interval must be greater than zero".to_owned()
            },
            WorkerError::InvalidRetentionInterval => {
                "retention interval must be greater than zero".to_owned()
            },
            WorkerError::InvalidSupervisorInterval => {
                "supervisor interval must be greater than zero".to_owned()
            },
            WorkerError::InvalidMinimumConcurrency => {
                "overload protection minimum concurrency exceeds configured concurrency".to_owned()
            },
            WorkerError::Supervisor(message) => {
                let mut text = "worker supervisor failed: ".to_owned();
                text.append(message.as_str());
                text
            },
            WorkerError::IncompatibleStorageProtocol {
                database_minimum,
                database_maximum,
                worker_minimum,
                worker_maximum,
            } => {
                let mut text = "database storage protocols ".to_owned();
                text.append(decimal(*database_minimum as u64).as_str());
                text.append("..=");
                text.append(decimal(*database_maximum as u64).as_str());
                text.append(" are incompatible with worker protocols ");
                text.append(decimal(*worker_minimum as u64).as_str());
                text.append("..=");
                text.append(decimal(*worker_maximum as u64).as_str());
                text
            },
            WorkerError::OutdatedStorageSchema => {
                "database storage schema does not sample queue demand".to_owned()
            },
            WorkerError::MissingHandlers => "worker has no registered handlers".to_owned(),
            WorkerError::AdmissionLimitExceedsConfigured { requested, configured } => {
                let mut text = "effective concurrency ".to_owned();
                text.append(decimal(*requested as u64).as_str());
                text.append(" exceeds configured concurrency ");
                text.append(decimal(*configured as u64).as_str());
                text
            },
            WorkerError::InvalidDeclaredSchedule(name) => {
                let mut text = "declared schedule ".to_owned();
                text.append(name.as_str());
                text.append(" targets another queue or an unregistered handler");
                text
            },
            WorkerError::MissingLeaseToken(task_id) => {
                let mut text = "claimed task ".to_owned();
                text.append(task_id.to_string().as_str());
                text.append(" has no lease token");
                text
            },
            WorkerError::MissingHandler => "claimed task has no registered handler".to_owned(),
        }
    }
}

/// How a worker works. Its queues are drained in order.
#[derive(Clone, Debug, PartialEq, Eq)]
pub struct WorkerConfig {
    pub queue_names: Vec<QueueName>,
    pub concurrency: NonZeroU16,
    pub claim_batch_size: NonZeroU16,
    pub lease_duration: Duration,
    pub poll_interval: Duration,
    pub shutdown_grace: Duration,
    pub worker_heartbeat_interval: Duration,
    pub worker_ttl: Duration,
    pub scheduler_enabled: bool,
    pub schedule_batch_size: NonZeroU16,
    pub wait_batch_size: NonZeroU16,
    pub schedule_reconciliation_interval: Duration,
    pub retention_enabled: bool,
    pub retention_batch_size: NonZeroU16,
    pub retention_interval: Duration,
    pub declared_schedules: Vec<ScheduleConfig>,
    pub health_address: Option<String>,
    pub supervisor_interval: Duration,
    pub overload_protection: OverloadProtectionConfig,
}

/// Whether everything but the queues is as it is unless said otherwise.
pub open spec fn is_default_config(config: WorkerConfig) -> bool {
    &&& config.concurrency@ == 10
    &&& config.claim_batch_size@ == 10
    &&& config.lease_duration@ == 30 * NANOS_PER_SEC
    &&& config.poll_interval@ == 30 * NANOS_PER_SEC
    &&& config.shutdown_grace@ == 30 * NANOS_PER_SEC
    &&& config.worker_heartbeat_interval@ == 10 * NANOS_PER_SEC
    &&& config.worker_ttl@ == 30 * NANOS_PER_SEC
    &&& config.scheduler_enabled
    &&& config.schedule_batch_size@ == 100
    &&& config.wait_batch_size@ == 100
    &&& config.schedule_reconciliation_interval@ == 30 * NANOS_PER_SEC
    &&& config.retention_enabled
    &&& config.retention_batch_size@ == 100
    &&& config.retention_interval@ == 60 * NANOS_PER_SEC
    &&& config.declared_schedules@.len() == 0
    &&& config.health_address is None
    &&& config.supervisor_interval@ == NANOS_PER_SEC
    &&& config.overload_protection.enabled
    &&& !config.overload_protection.enforce
    &&& config.overload_protection.event_loop_lag_threshold@ == 250 * NANOS_PER_MILLI
    &&& config.overload_protection.sustained_samples@ == 3
    &&& config.overload_protection.recovery_samples@ == 5
    &&& config.overload_protection.minimum_concurrency@ == 1
}

impl WorkerConfig {
    /// A worker on one queue.
    pub fn new(queue_name: QueueName) -> (result: Self)
        ensures
            result.queue_names@ == seq![queue_name],
            is_default_config(result),
    {
        WorkerConfig::with_queues(vec![queue_name])
    }

    /// A worker on several queues, the first one first.
    pub fn with_queues(queue_names: Vec<QueueName>) -> (result: Self)
        ensures
            result.queue_names == queue_names,
            is_default_config(result),
    {
        WorkerConfig {
            queue_names,
            concurrency: NonZeroU16::of(10),
            claim_batch_size: NonZeroU16::of(10),
            lease_duration: Duration::from_secs(30),
            poll_interval: Duration::from_secs(30),
            shutdown_grace: Duration::from_secs(30),
            worker_heartbeat_interval: Duration::from_secs(10),
            worker_ttl: Duration::from_secs(30),
            scheduler_enabled: true,
            schedule_batch_size: NonZeroU16::of(100),
            wait_batch_size: NonZeroU16::of(100),
            schedule_reconciliation_interval: Duration::from_secs(30),
            retention_enabled: true,
            retention_batch_size: NonZeroU16::of(100),
            retention_interval: Duration::from_mins(1),
            declared_schedules: Vec::new(),
            health_address: None,
            supervisor_interval: Duration::from_secs(1),
            overload_protection: OverloadProtectionConfig::default(),
        }
    }
}

/// Names of queues as characters.
pub open spec fn queue_texts(names: Seq<QueueName>) -> Seq<Seq<char>> {
    names.map_values(|name: QueueName| name@)
}

/// Whether a queue is among those of a worker.
pub fn serves_queue(names: &Vec<QueueName>, name: &QueueName) -> (result: bool)
    ensures
        result == queue_texts(names@).contains(name@),
{
    let mut index: usize = 0;
    while index < names.len()
        invariant
            index <= names@.len(),
            forall|i: int| 0 <= i < index ==> (#[trigger] queue_texts(names@)[i]) != name@,
        decreases names@.len() - index,
    {
        assert(queue_texts(names@)[index as int] == names@[index as int]@);
        if names[index].same(name) {
            return true;
        }
        index += 1;
    }
    false
}

/// Whether every queue is named once.
fn queues_are_distinct(names: &Vec<QueueName>) -> (result: bool)
    ensures
        result == queue_texts(names@).no_duplicates(),
{
    let ghost all = queue_texts(names@);
    let mut index: usize = 0;
    while index < names.len()
        invariant
            index <= names@.len(),
            all == queue_texts(names@),
            forall|i: int, j: int| 0 <= i < j < index ==> all[i] != all[j],
        decreases names@.len() - index,
    {
        let mut earlier: usize = 0;
        while earlier < index
            invariant
                earlier <= index < names@.len(),
                all == queue_texts(names@),
                forall|i: int| 0 <= i < earlier ==> all[i] != all[index as int],
            decreases index - earlier,
        {
            if names[earlier].same(&names[index]) {
                assert(all[earlier as int] == all[index as int]);
                return false;
            }
            earlier += 1;
        }
        index += 1;
    }
    true
}

/// Whether a declared schedule makes tasks that the worker itself can run.
pub open spec fn is_own_schedule(
    schedule: ScheduleConfig,
    queues: Seq<QueueName>,
    handlers: Set<(Seq<char>, u32)>,
) -> bool {
    queue_texts(queues).contains(schedule.task.queue_name@) && handlers.contains(
        (schedule.task.task_name@, schedule.task.handler_version@),
    )
}

/// Whether the schedule at `place` is the first that the worker cannot run.
pub open spec fn is_first_foreign_schedule(
    config: WorkerConfig,
    handlers: Set<(Seq<char>, u32)>,
    place: int,
) -> bool {
    &&& 0 <= place < config.declared_schedules@.len()
    &&& !is_own_schedule(config.declared_schedules@[place], config.queue_names@, handlers)
    &&& forall|i: int|
        0 <= i < place ==> is_own_schedule(
            #[trigger] config.declared_schedules@[i],
            config.queue_names@,
            handlers,
        )
}

/// The first thing that is wrong with a configuration, apart from its declared schedules.
pub open spec fn config_fault(
    config: WorkerConfig,
    handlers: Set<(Seq<char>, u32)>,
) -> Option<WorkerFault> {
    if config.queue_names@.len() == 0 {
        Some(WorkerFault::MissingQueues)
    } else if !queue_texts(config.queue_names@).no_duplicates() {
        Some(WorkerFault::DuplicateQueues)
    } else if config.lease_duration@ < 3 * NANOS_PER_MILLI {
        Some(WorkerFault::InvalidLeaseDuration)
    } else if config.poll_interval@ == 0 {
        Some(WorkerFault::InvalidPollInterval)
    } else if config.worker_heartbeat_interval@ < NANOS_PER_MILLI
        || config.worker_heartbeat_interval@ >= config.worker_ttl@ {
        Some(WorkerFault::InvalidWorkerHeartbeat)
    } else if config.schedule_reconciliation_interval@ == 0 {
        Some(WorkerFault::InvalidScheduleReconciliationInterval)
    } else if config.retention_interval@ == 0 {
        Some(WorkerFault::InvalidRetentionInterval)
    } else if config.supervisor_interval@ == 0 {
        Some(WorkerFault::InvalidSupervisorInterval)
    } else if config.overload_protection.minimum_concurrency@ > config.concurrency@ {
        Some(WorkerFault::InvalidMinimumConcurrency)
    } else if handlers == Set::<(Seq<char>, u32)>::empty() {
        Some(WorkerFault::MissingHandlers)
    } else {
        None
    }
}

/// Whether every declared schedule makes tasks that the worker itself can run.
pub open spec fn schedules_are_own(config: WorkerConfig, handlers: Set<(Seq<char>, u32)>) -> bool {
    forall|i: int|
        0 <= i < config.declared_schedules@.len() ==> is_own_schedule(
            #[trigger] config.declared_schedules@[i],
            config.queue_names@,
            handlers,
        )
}

/// A worker that is ready to start.
#[derive(Debug)]
pub struct Worker<H> {
    pub registry: HandlerRegistry<H>,
    pub config: WorkerConfig,
    pub control: WorkerControl,
    pub id: WorkerId,
}

impl<H> Worker<H> {
    /// Whether the configuration is valid and the limits are within it.
    pub open spec fn well_formed(self) -> bool {
        &&& config_fault(self.config, self.registry@.dom()) is None
        &&& schedules_are_own(self.config, self.registry@.dom())
        &&& self.control.well_formed()
        &&& self.control@.configured == self.config.concurrency@
    }

    /// Checks a configuration against the handlers that there are.
    pub fn new(registry: HandlerRegistry<H>, config: WorkerConfig) -> (result: Result<
        Self,
        WorkerError,
    >)
        ensures
            match config_fault(config, registry@.dom()) {
                Some(fault) => result is Err && result->Err_0@ == fault,
                None => match result {
                    Ok(worker) => {
                        &&& worker.well_formed()
                        &&& worker.registry == registry
                        &&& worker.config == config
                        &&& worker.control@ == (Limits {
                            configured: config.concurrency@,
                            effective: config.concurrency@,
                            proposed: config.concurrency@,
                            queue_name: config.queue_names@[0]@,
                        })
                        &&& is_version_seven(worker.id.uuid.value)
                    },
                    Err(error) => exists|place: int| #[trigger]
                        is_first_foreign_schedule(config, registry@.dom(), place) && error@
                            == WorkerFault::InvalidDeclaredSchedule(
                            config.declared_schedules@[place].name@,
                        ),
                },
            },
    {
        if config.queue_names.is_empty() {
            return Err(WorkerError::MissingQueues);
        }
        if !queues_are_distinct(&config.queue_names) {
            return Err(WorkerError::DuplicateQueues);
        }
        if config.lease_duration.shorter_than(Duration::from_millis(3)) {
            return Err(WorkerError::InvalidLeaseDuration);
        }
        if config.poll_interval.is_zero() {
            return Err(WorkerError::InvalidPollInterval);
        }
        if config.worker_heartbeat_interval.shorter_than(Duration::from_millis(1))
            || !config.worker_heartbeat_interval.shorter_than(config.worker_ttl) {
            return Err(WorkerError::InvalidWorkerHeartbeat);
        }
        if config.schedule_reconciliation_interval.is_zero() {
            return Err(WorkerError::InvalidScheduleReconciliationInterval);
        }
        if config.retention_interval.is_zero() {
            return Err(WorkerError::InvalidRetentionInterval);
        }
        if config.supervisor_interval.is_zero() {
            return Err(WorkerError::InvalidSupervisorInterval);
        }
        if config.overload_protection.minimum_concurrency.get() > config.concurrency.get() {
            return Err(WorkerError::InvalidMinimumConcurrency);
        }
        let ghost handlers = registry@.dom();
        let capabilities = registry.capabilities();
        proof {
            let ids = capability_ids(capabilities@);
            if capabilities@.len() == 0 {
                assert(handlers =~= Set::<(Seq<char>, u32)>::empty());
            } else {
                assert(ids.contains(ids[0]));
                assert(handlers.contains(ids[0]));
            }
        }
        if capabilities.is_empty() {
            return Err(WorkerError::MissingHandlers);
        }
        let mut index: usize = 0;
        while index < config.declared_schedules.len()
            invariant
                index <= config.declared_schedules@.len(),
                handlers == registry@.dom(),
                config_fault(config, handlers) is None,
                forall|i: int|
                    0 <= i < index ==> is_own_schedule(
                        #[trigger] config.declared_schedules@[i],
                        config.queue_names@,
                        handlers,
                    ),
            decreases config.declared_schedules@.len() - index,
        {
            let schedule = &config.declared_schedules[index];
            if !serves_queue(&config.queue_names, &schedule.task.queue_name) || registry.get(
                &schedule.task.task_name,
                schedule.task.handler_version,
            ).is_none() {
                assert(is_first_foreign_schedule(config, handlers, index as int));
                return Err(WorkerError::InvalidDeclaredSchedule(schedule.name.to_string()));
            }
            index += 1;
        }
        let control = WorkerControl::new(config.concurrency, config.queue_names[0].clone());
        Ok(Worker { registry, config, control, id: WorkerId::new() })
    }
}

/// What a starting worker does next.
#[derive(Clone, Copy, Debug, PartialEq, Eq, Structural)]
pub enum StartupAction {
    ReadStorageProtocol,
    CheckDemandSampling,
    StartSupervisor,
    OpenListener,
    PutSchedule(usize),
    Register(usize),
    Run,
}

/// A worker on its way to its first task: what it is doing, and how many schedules and queues it
/// has.
#[derive(Clone, Copy, Debug, PartialEq, Eq, Structural)]
pub struct Startup {
    pub action: StartupAction,
    pub schedules: usize,
    pub queues: usize,
}

/// What comes after the first `schedules_done` schedules and the first `queues_done` queues.
pub open spec fn startup_after(startup: Startup, schedules_done: int, queues_done: int) -> StartupAction {
    if schedules_done < startup.schedules {
        StartupAction::PutSchedule(schedules_done as usize)
    } else if queues_done < startup.queues {
        StartupAction::Register(queues_done as usize)
    } else {
        StartupAction::Run
    }
}

/// What comes after a statement that succeeded.
pub open spec fn next_startup_action(startup: Startup) -> StartupAction {
    match startup.action {
        StartupAction::PutSchedule(index) => startup_after(startup, index + 1, 0),
        StartupAction::Register(index) => startup_after(
            startup,
            startup.schedules as int,
            index + 1,
        ),
        _ => startup_after(startup, 0, 0),
    }
}

/// Whether a startup can come about: there is a queue, and what is done is there to be done.
pub open spec fn is_startup(startup: Startup) -> bool {
    &&& startup.queues > 0
    &&& match startup.action {
        StartupAction::PutSchedule(index) => index < startup.schedules,
        StartupAction::Register(index) => index < startup.queues,
        _ => true,
    }
}

/// The health of a worker whose startup goes on to an action.
pub open spec fn health_at(health: Health, done: StartupAction, next: StartupAction) -> Health {
    let listening = if done == StartupAction::OpenListener {
        Health { listener: true, ..health }
    } else {
        health
    };
    if next == StartupAction::Run {
        Health { database: true, admission: true, ..listening }
    } else {
        listening
    }
}

impl Startup {
    pub fn new<H>(worker: &Worker<H>) -> (result: Self)
        requires
            worker.well_formed(),
        ensures
            is_startup(result),
            result == (Startup {
                action: StartupAction::ReadStorageProtocol,
                schedules: worker.config.declared_schedules@.len() as usize,
                queues: worker.config.queue_names@.len() as usize,
            }),
    {
        Startup {
            action: StartupAction::ReadStorageProtocol,
            schedules: worker.config.declared_schedules.len(),
            queues: worker.config.queue_names.len(),
        }
    }

    /// The protocols of the database were read.
    pub fn on_storage_protocol(
        &mut self,
        database: Result<StorageProtocolRange, PostgresError>,
        worker: StorageProtocolRange,
    ) -> (result: Result<(), WorkerError>)
        requires
            is_startup(*old(self)),
            old(self).action == StartupAction::ReadStorageProtocol,
        ensures
            is_startup(*final(self)),
            match database {
                Err(error) => {
                    &&& result == Err::<(), _>(WorkerError::Postgres(error))
                    &&& *final(self) == *old(self)
                },
                Ok(range) => if ranges_overlap(range, worker) {
                    &&& result is Ok
                    &&& *final(self) == (Startup {
                        action: StartupAction::CheckDemandSampling,
                        ..*old(self)
                    })
                } else {
                    &&& result == Err::<(), _>(
                        WorkerError::IncompatibleStorageProtocol {
                            database_minimum: range.minimum,
                            database_maximum: range.maximum,
                            worker_minimum: worker.minimum,
                            worker_maximum: worker.maximum,
                        },
                    )
                    &&& *final(self) == *old(self)
                },
            },
    {
        match database {
            Err(error) => Err(WorkerError::Postgres(error)),
            Ok(range) => if range.overlaps(worker) {
                self.action = StartupAction::CheckDemandSampling;
                Ok(())
            } else {
                Err(
                    WorkerError::IncompatibleStorageProtocol {
                        database_minimum: range.minimum,
                        database_maximum: range.maximum,
                        worker_minimum: worker.minimum,
                        worker_maximum: worker.maximum,
                    },
                )
            },
        }
    }

    /// Whether the database samples the demand for work was found out.
    pub fn on_demand_sampling(&mut self, present: Result<bool, PostgresError>) -> (result: Result<
        (),
        WorkerError,
    >)
        requires
            is_startup(*old(self)),
            old(self).action == StartupAction::CheckDemandSampling,
        ensures
            is_startup(*final(self)),
            match present {
                Err(error) => {
                    &&& result == Err::<(), _>(WorkerError::Postgres(error))
                    &&& *final(self) == *old(self)
                },
                Ok(false) => {
                    &&& result == Err::<(), _>(WorkerError::OutdatedStorageSchema)
                    &&& *final(self) == *old(self)
                },
                Ok(true) => {
                    &&& result is Ok
                    &&& *final(self) == (Startup {
                        action: StartupAction::StartSupervisor,
                        ..*old(self)
                    })
                },
            },
    {
        match present {
            Err(error) => Err(WorkerError::Postgres(error)),
            Ok(false) => Err(WorkerError::OutdatedStorageSchema),
            Ok(true) => {
                self.action = StartupAction::StartSupervisor;
                Ok(())
            },
        }
    }

    /// The supervisor was started, or could not be.
    pub fn on_supervisor(&mut self, error: Option<String>) -> (result: Result<(), WorkerError>)
        requires
            is_startup(*old(self)),
            old(self).action == StartupAction::StartSupervisor,
        ensures
            is_startup(*final(self)),
            match error {
                Some(message) => {
                    &&& result == Err::<(), _>(WorkerError::Supervisor(message))
                    &&& *final(self) == *old(self)
                },
                None => {
                    &&& result is Ok
                    &&& *final(self) == (Startup {
                        action: StartupAction::OpenListener,
                        ..*old(self)
                    })
                },
            },
    {
        match error {
            Some(message) => Err(WorkerError::Supervisor(message)),
            None => {
                self.action = StartupAction::OpenListener;
                Ok(())
            },
        }
    }

    /// The listener was opened, a schedule was put, or the worker was registered on a queue.
    pub fn on_statement(&mut self, outcome: Result<(), PostgresError>, health: &mut Health) -> (result:
        Result<(), WorkerError>)
        requires
            is_startup(*old(self)),
            old(self).action is OpenListener || old(self).action is PutSchedule || old(
                self,
            ).action is Register,
        ensures
            is_startup(*final(self)),
            match outcome {
                Err(error) => {
                    &&& result == Err::<(), _>(WorkerError::Postgres(error))
                    &&& *final(self) == *old(self)
                    &&& *final(health) == *old(health)
                },
                Ok(()) => {
                    &&& result is Ok
                    &&& *final(self) == (Startup {
                        action: next_startup_action(*old(self)),
                        ..*old(self)
                    })
                    &&& *final(health) == health_at(
                        *old(health),
                        old(self).action,
                        final(self).action,
                    )
                },
            },
    {
        match outcome {
            Err(error) => return Err(WorkerError::Postgres(error)),
            Ok(()) => {},
        }
        let (schedules_done, queues_done): (usize, usize) = match self.action {
            StartupAction::PutSchedule(index) => (index + 1, 0),
            StartupAction::Register(index) => (self.schedules, index + 1),
            _ => {
                health.set_listener(true);
                (0, 0)
            },
        };
        if schedules_done < self.schedules {
            self.action = StartupAction::PutSchedule(schedules_done);
        } else if queues_done < self.queues {
            self.action = StartupAction::Register(queues_done);
        } else {
            self.action = StartupAction::Run;
            health.set_database(true);
            health.set_admission(true);
        }
        Ok(())
    }
}

/// The startup after `count` statements that succeeded, the first being the listener's.
pub open spec fn after_statements(startup: Startup, count: nat) -> StartupAction
    decreases count,
{
    if count == 0 {
        StartupAction::OpenListener
    } else {
        next_startup_action(
            Startup { action: after_statements(startup, (count - 1) as nat), ..startup },
        )
    }
}

/// A worker runs only after it listens, every declared schedule is stored and every queue knows
/// it: that takes one statement for each, in this order.
pub proof fn startup_reaches_every_step(startup: Startup, index: nat)
    requires
        is_startup(startup),
    ensures
        index < startup.schedules ==> after_statements(startup, 1 + index)
            == StartupAction::PutSchedule(index as usize),
        index < startup.queues ==> after_statements(startup, 1 + startup.schedules as nat + index)
            == StartupAction::Register(index as usize),
        after_statements(startup, 1 + startup.schedules as nat + startup.queues as nat)
            == StartupAction::Run,
{
    if index < startup.schedules {
        lemma_startup_place(startup, index);
    }
    if index < startup.queues {
        lemma_startup_place(startup, startup.schedules as nat + index);
    }
    lemma_startup_place(startup, startup.schedules as nat + startup.queues as nat);
}

proof fn lemma_startup_place(startup: Startup, count: nat)
    requires
        is_startup(startup),
        count <= startup.schedules + startup.queues,
    ensures
        after_statements(startup, 1 + count) == if count < startup.schedules {
            StartupAction::PutSchedule(count as usize)
        } else if count < startup.schedules + startup.queues {
            StartupAction::Register((count - startup.schedules) as usize)
        } else {
            StartupAction::Run
        },
    decreases count,
{
    if count == 0 {
        assert(after_statements(startup, 0) == StartupAction::OpenListener);
    } else {
        lemma_startup_place(startup, (count - 1) as nat);
    }
}

/// A configuration is valid exactly when there is a queue and none twice, a lease of three
/// milliseconds or more, a poll, a heartbeat of a millisecond or more within the time to live, every
/// interval longer than nothing, no more enforced than is configured, and a handler.
pub proof fn configurations_are_valid_as_a_whole(
    config: WorkerConfig,
    handlers: Set<(Seq<char>, u32)>,
)
    ensures
        config_fault(config, handlers) is None <==> {
            &&& config.queue_names@.len() > 0
            &&& forall|i: int, j: int|
                0 <= i < j < config.queue_names@.len() ==> (#[trigger] config.queue_names@[i])@ != (
                #[trigger] config.queue_names@[j])@
            &&& config.lease_duration@ >= 3_000_000
            &&& config.poll_interval@ > 0
            &&& 1_000_000 <= config.worker_heartbeat_interval@ < config.worker_ttl@
            &&& config.schedule_reconciliation_interval@ > 0
            &&& config.retention_interval@ > 0
            &&& config.supervisor_interval@ > 0
            &&& config.overload_protection.minimum_concurrency@ <= config.concurrency@
            &&& exists|handler: (Seq<char>, u32)| handlers.contains(handler)
        },
{
    let names = config.queue_names@;
    let all = queue_texts(names);
    assert(all.len() == names.len());
    if all.no_duplicates() {
        assert forall|i: int, j: int| 0 <= i < j < names.len() implies (#[trigger] names[i])@ != (
        #[trigger] names[j])@ by {
            assert(all[i] == names[i]@ && all[j] == names[j]@);
        }
    }
    if forall|i: int, j: int|
        0 <= i < j < names.len() ==> (#[trigger] names[i])@ != (#[trigger] names[j])@ {
        assert forall|i: int, j: int| 0 <= i < all.len() && 0 <= j < all.len() && i != j implies all[i]
            != all[j] by {
            if i < j {
                assert(names[i]@ != names[j]@);
            } else {
                assert(names[j]@ != names[i]@);
            }
        }
    }
    if handlers != Set::<(Seq<char>, u32)>::empty() {
        if forall|handler: (Seq<char>, u32)| !handlers.contains(handler) {
            assert(handlers =~= Set::<(Seq<char>, u32)>::empty());
        }
    }
}

/// A configuration is refused for something that is wrong with it.
pub proof fn configurations_are_refused_for_a_reason(
    config: WorkerConfig,
    handlers: Set<(Seq<char>, u32)>,
)
    ensures
        match config_fault(config, handlers) {
            None => true,
            Some(WorkerFault::MissingQueues) => config.queue_names@.len() == 0,
            Some(WorkerFault::DuplicateQueues) => config.queue_names@.len() > 1,
            Some(WorkerFault::InvalidLeaseDuration) => config.lease_duration@ < 3_000_000,
            Some(WorkerFault::InvalidPollInterval) => config.poll_interval@ == 0,
            Some(WorkerFault::InvalidWorkerHeartbeat) => config.worker_heartbeat_interval@ < 1_000_000
                || config.worker_heartbeat_interval@ >= config.worker_ttl@,
            Some(WorkerFault::InvalidScheduleReconciliationInterval) => {
                config.schedule_reconciliation_interval@ == 0
            },
            Some(WorkerFault::InvalidRetentionInterval) => config.retention_interval@ == 0,
            Some(WorkerFault::InvalidSupervisorInterval) => config.supervisor_interval@ == 0,
            Some(WorkerFault::InvalidMinimumConcurrency) => {
                config.overload_protection.minimum_concurrency@ > config.concurrency@
            },
            Some(WorkerFault::MissingHandlers) => forall|handler: (Seq<char>, u32)|
                !handlers.contains(handler),
            Some(_) => false,
        },
{
}

/// A worker is valid as it is by default, on any one queue and with any handler.
pub proof fn defaults_are_valid(config: WorkerConfig, handlers: Set<(Seq<char>, u32)>)
    requires
        is_default_config(config),
        config.queue_names@.len() == 1,
        exists|handler: (Seq<char>, u32)| handlers.contains(handler),
    ensures
        config_fault(config, handlers) is None,
        schedules_are_own(config, handlers),
{
    assert(queue_texts(config.queue_names@).len() == 1);
}

/// A worker declares only schedules that it can run itself: for one of its queues, and for a handler
/// that it has.
pub proof fn declared_schedules_stay_at_home(
    config: WorkerConfig,
    handlers: Set<(Seq<char>, u32)>,
)
    ensures
        schedules_are_own(config, handlers) <==> forall|i: int|
            0 <= i < config.declared_schedules@.len() ==> {
                let task = (#[trigger] config.declared_schedules@[i]).task;
                &&& handlers.contains((task.task_name@, task.handler_version@))
                &&& exists|j: int|
                    0 <= j < config.queue_names@.len() && (#[trigger] config.queue_names@[j])@
                        == task.queue_name@
            },
{
    let names = config.queue_names@;
    let all = queue_texts(names);
    assert forall|i: int| 0 <= i < config.declared_schedules@.len() implies (all.contains(
        (#[trigger] config.declared_schedules@[i]).task.queue_name@,
    ) <==> exists|j: int|
        0 <= j < names.len() && (#[trigger] names[j])@
            == config.declared_schedules@[i].task.queue_name@) by {
        let wanted = config.declared_schedules@[i].task.queue_name@;
        if all.contains(wanted) {
            let at = all.index_of(wanted);
            assert(names[at]@ == wanted);
        }
        if exists|j: int| 0 <= j < names.len() && (#[trigger] names[j])@ == wanted {
            let at = choose|j: int| 0 <= j < names.len() && (#[trigger] names[j])@ == wanted;
            assert(all[at] == wanted);
        }
    }
    if schedules_are_own(config, handlers) {
        assert forall|i: int| 0 <= i < config.declared_schedules@.len() implies {
            let task = (#[trigger] config.declared_schedules@[i]).task;
            &&& handlers.contains((task.task_name@, task.handler_version@))
            &&& exists|j: int| 0 <= j < names.len() && (#[trigger] names[j])@ == task.queue_name@
        } by {
            assert(is_own_schedule(config.declared_schedules@[i], names, handlers));
        }
    }
}

/// A worker counts as listening once its listener is open, and as ready for tasks, with its database
/// at hand, only once it runs; nothing else of its health changes while it starts.
pub proof fn starting_workers_become_healthy_in_order(
    health: Health,
    done: StartupAction,
    next: StartupAction,
)
    ensures
        ({
            let after = health_at(health, done, next);
            &&& after.listener == (health.listener || done is OpenListener)
            &&& after.database == (health.database || next is Run)
            &&& after.admission == (health.admission || next is Run)
            &&& after.lease_renewal == health.lease_renewal
            &&& after.active_leases == health.active_leases
            &&& after.runtime_progress == health.runtime_progress
            &&& after.last_lease_renewal == health.last_lease_renewal
        }),
{
}

/// A worker that starts puts its schedules in order, then registers with its queues in order, and
/// then runs.
pub proof fn startups_go_step_by_step(startup: Startup)
    requires
        is_startup(startup),
    ensures
        ({
            let next = next_startup_action(startup);
            &&& startup.action matches StartupAction::PutSchedule(index) ==> {
                &&& index + 1 < startup.schedules ==> next == StartupAction::PutSchedule(
                    (index + 1) as usize,
                )
                &&& index + 1 == startup.schedules ==> next == StartupAction::Register(0)
            }
            &&& startup.action matches StartupAction::Register(index) ==> {
                &&& index + 1 < startup.queues ==> next == StartupAction::Register(
                    (index + 1) as usize,
                )
                &&& index + 1 == startup.queues ==> next == StartupAction::Run
            }
            &&& startup.action is OpenListener ==> if startup.schedules > 0 {
                next == StartupAction::PutSchedule(0)
            } else {
                next == StartupAction::Register(0)
            }
        }),
{
}

/// A declared schedule belongs to a worker exactly if the worker serves its queue and handles its
/// task in that version; the first that does not is the one that is named.
pub proof fn foreign_schedules_are_named_in_order(
    config: WorkerConfig,
    handlers: Set<(Seq<char>, u32)>,
    schedule: ScheduleConfig,
    one: int,
    other: int,
)
    ensures
        is_own_schedule(schedule, config.queue_names@, handlers) <==> (exists|i: int|
            0 <= i < config.queue_names@.len() && (#[trigger] config.queue_names@[i])@
                == schedule.task.queue_name@) && handlers.contains(
            (schedule.task.task_name@, schedule.task.handler_version@),
        ),
        is_first_foreign_schedule(config, handlers, one) ==> {
            &&& 0 <= one < config.declared_schedules@.len()
            &&& !is_own_schedule(config.declared_schedules@[one], config.queue_names@, handlers)
            &&& forall|i: int|
                0 <= i < one ==> is_own_schedule(
                    #[trigger] config.declared_schedules@[i],
                    config.queue_names@,
                    handlers,
                )
        },
        is_first_foreign_schedule(config, handlers, one) && is_first_foreign_schedule(
            config,
            handlers,
            other,
        ) ==> one == other,
{
    let names = queue_texts(config.queue_names@);
    let wanted = schedule.task.queue_name@;
    if names.contains(wanted) {
        let i = names.index_of(wanted);
        assert(config.queue_names@[i]@ == wanted);
    }
    if exists|i: int|
        0 <= i < config.queue_names@.len() && (#[trigger] config.queue_names@[i])@ == wanted {
        let i = choose|i: int|
            0 <= i < config.queue_names@.len() && (#[trigger] config.queue_names@[i])@ == wanted;
        assert(names[i] == wanted);
    }
    if is_first_foreign_schedule(config, handlers, one) && is_first_foreign_schedule(
        config,
        handlers,
        other,
    ) {
        assert(!(other < one) && !(one < other));
    }
}

/// Without settings a worker runs ten handlers, claims ten tasks, holds them for half a minute, and
/// says every ten seconds that it lives.
pub proof fn defaults_are_what_they_are(config: WorkerConfig)
    requires
        is_default_config(config),
    ensures
        config.concurrency@ == 10 && config.claim_batch_size@ == 10,
        config.lease_duration@ == 30_000_000_000 && config.poll_interval@ == 30_000_000_000,
        config.shutdown_grace@ == 30_000_000_000 && config.worker_ttl@ == 30_000_000_000,
        config.worker_heartbeat_interval@ == 10_000_000_000,
        config.scheduler_enabled && config.retention_enabled,
        config.schedule_batch_size@ == 100 && config.wait_batch_size@ == 100,
        config.retention_batch_size@ == 100,
        config.schedule_reconciliation_interval@ == 30_000_000_000,
        config.retention_interval@ == 60_000_000_000,
        config.supervisor_interval@ == 1_000_000_000,
        config.declared_schedules@.len() == 0 && config.health_address is None,
        config.overload_protection.enabled && !config.overload_protection.enforce,
        config.overload_protection.event_loop_lag_threshold@ == 250_000_000,
        config.overload_protection.sustained_samples@ == 3,
        config.overload_protection.recovery_samples@ == 5,
        config.overload_protection.minimum_concurrency@ == 1,
{
}

/// Of several things that are wrong with a configuration, the first counts: its queues, its lease,
/// its pauses, its limits, and then its handlers.
pub proof fn configurations_are_checked_in_order(
    config: WorkerConfig,
    handlers: Set<(Seq<char>, u32)>,
)
    ensures
        ({
            let fault = config_fault(config, handlers);
            let distinct = forall|i: int, j: int|
                0 <= i < j < config.queue_names@.len() ==> (#[trigger] config.queue_names@[i])@ != (
                #[trigger] config.queue_names@[j])@;
            let served = config.queue_names@.len() > 0 && distinct;
            let leased = served && config.lease_duration@ >= 3_000_000;
            let polled = leased && config.poll_interval@ > 0;
            let alive = polled && 1_000_000 <= config.worker_heartbeat_interval@
                < config.worker_ttl@;
            let scheduled = alive && config.schedule_reconciliation_interval@ > 0;
            let retained = scheduled && config.retention_interval@ > 0;
            let supervised = retained && config.supervisor_interval@ > 0;
            let bounded = supervised && config.overload_protection.minimum_concurrency@
                <= config.concurrency@;
            &&& config.queue_names@.len() == 0 ==> fault == Some(WorkerFault::MissingQueues)
            &&& config.queue_names@.len() > 0 && !distinct ==> fault == Some(
                WorkerFault::DuplicateQueues,
            )
            &&& served && !leased ==> fault == Some(WorkerFault::InvalidLeaseDuration)
            &&& leased && !polled ==> fault == Some(WorkerFault::InvalidPollInterval)
            &&& polled && !alive ==> fault == Some(WorkerFault::InvalidWorkerHeartbeat)
            &&& alive && !scheduled ==> fault == Some(
                WorkerFault::InvalidScheduleReconciliationInterval,
            )
            &&& scheduled && !retained ==> fault == Some(WorkerFault::InvalidRetentionInterval)
            &&& retained && !supervised ==> fault == Some(WorkerFault::InvalidSupervisorInterval)
            &&& supervised && !bounded ==> fault == Some(WorkerFault::InvalidMinimumConcurrency)
            &&& bounded && (forall|handler: (Seq<char>, u32)| !handlers.contains(handler))
                ==> fault == Some(WorkerFault::MissingHandlers)
        }),
{
    let names = queue_texts(config.queue_names@);
    let distinct = forall|i: int, j: int|
        0 <= i < j < config.queue_names@.len() ==> (#[trigger] config.queue_names@[i])@ != (
        #[trigger] config.queue_names@[j])@;
    assert(forall|i: int|
        0 <= i < names.len() ==> #[trigger] names[i] == config.queue_names@[i]@);
    if distinct {
        assert forall|i: int, j: int|
            0 <= i < names.len() && 0 <= j < names.len() && i != j implies names[i]
            != names[j] by {
            if i < j {
                assert(config.queue_names@[i]@ != config.queue_names@[j]@);
            } else {
                assert(config.queue_names@[j]@ != config.queue_names@[i]@);
            }
        }
        assert(names.no_duplicates());
    } else {
        let (i, j): (int, int) = choose|i: int, j: int|
            0 <= i < j < config.queue_names@.len() && (#[trigger] config.queue_names@[i])@ == (
            #[trigger] config.queue_names@[j])@;
        assert(names[i] == names[j]);
        assert(!names.no_duplicates());
    }
    if forall|handler: (Seq<char>, u32)| !handlers.contains(handler) {
        assert(handlers =~= Set::<(Seq<char>, u32)>::empty());
    }
}

/// A fault of a worker says what was asked for and what there is, in this order.
pub proof fn worker_faults_name_what_they_are_about(
    fault: Fault,
    message: Seq<char>,
    requested: u16,
    configured: u16,
    task_id: TaskId,
)
    ensures
        worker_fault_text(WorkerFault::Postgres(fault)) == fault_text(fault),
        worker_fault_text(WorkerFault::Supervisor(message)) == "worker supervisor failed: "@
            + message,
        worker_fault_text(WorkerFault::AdmissionLimitExceedsConfigured { requested, configured })
            == "effective concurrency "@ + decimal_text(requested as nat)
            + " exceeds configured concurrency "@ + decimal_text(configured as nat),
        worker_fault_text(WorkerFault::InvalidDeclaredSchedule(message)) == "declared schedule "@
            + message + " targets another queue or an unregistered handler"@,
        worker_fault_text(WorkerFault::MissingLeaseToken(task_id)) == "claimed task "@ + uuid_text(
            task_id.uuid.value,
        ) + " has no lease token"@,
        worker_fault_text(WorkerFault::OutdatedStorageSchema)
            == "database storage schema does not sample queue demand"@,
{
}

} // verus!
