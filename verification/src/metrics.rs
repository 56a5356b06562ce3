//! What the engine measures.

use vstd::prelude::*;

use crate::time::Duration;

verus! {

/// Everything that is measured.
#[derive(Clone, Copy, Debug, PartialEq, Eq, Structural)]
pub enum Instrument {
    Tasks,
    LeaseRenewals,
    LeaseRecoveryFailures,
    QueueLatency,
    ExecutionDuration,
    ScheduleOccurrences,
    ScheduleSkippedOccurrences,
    ScheduleLag,
    ScheduleMaterializationDuration,
    WorkersLive,
    WorkerHeartbeats,
    QueueReadyTasks,
    QueueUnroutableTasks,
    WorkerConfiguredConcurrency,
    WorkerEffectiveConcurrency,
    WorkerActiveHandlers,
    WorkerAvailableSlots,
    WorkerEventLoopLag,
    WorkerLeaseRenewalAge,
    WorkerAdmissionLimit,
}

/// How measurements of an instrument combine, and whether they count or time.
#[derive(Clone, Copy, Debug, PartialEq, Eq, Structural)]
pub enum InstrumentKind {
    Counter,
    Gauge,
    SecondsGauge,
    SecondsHistogram,
}

#[derive(Clone, Copy, Debug, PartialEq, Eq)]
pub struct InstrumentDescription {
    pub name: &'static str,
    pub description: &'static str,
    pub unit: Option<&'static str>,
    pub kind: InstrumentKind,
}

/// How an instrument is announced.
pub open spec fn instrument_description(instrument: Instrument) -> InstrumentDescription {
    match instrument {
        Instrument::Tasks => InstrumentDescription {
            name: "pgtask.tasks",
            description: "Task state transitions",
            unit: None,
            kind: InstrumentKind::Counter,
        },
        Instrument::LeaseRenewals => InstrumentDescription {
            name: "pgtask.lease.renewals",
            description: "Lease renewal outcomes",
            unit: None,
            kind: InstrumentKind::Counter,
        },
        Instrument::LeaseRecoveryFailures => InstrumentDescription {
            name: "pgtask.lease.recovery.failures",
            description: "Failed expired-lease recovery batches",
            unit: None,
            kind: InstrumentKind::Counter,
        },
        Instrument::QueueLatency => InstrumentDescription {
            name: "pgtask.queue.latency",
            description: "Time from task creation until execution starts",
            unit: Some("s"),
            kind: InstrumentKind::SecondsHistogram,
        },
        Instrument::ExecutionDuration => InstrumentDescription {
            name: "pgtask.execution.duration",
            description: "Task handler execution duration",
            unit: Some("s"),
            kind: InstrumentKind::SecondsHistogram,
        },
        Instrument::ScheduleOccurrences => InstrumentDescription {
            name: "pgtask.schedule.occurrences",
            description: "Schedule occurrences materialized as tasks",
            unit: None,
            kind: InstrumentKind::Counter,
        },
        Instrument::ScheduleSkippedOccurrences => InstrumentDescription {
            name: "pgtask.schedule.skipped_occurrences",
            description: "Due schedule occurrences discarded by the misfire policy",
            unit: None,
            kind: InstrumentKind::Counter,
        },
        Instrument::ScheduleLag => InstrumentDescription {
            name: "pgtask.schedule.lag",
            description: "Time from a logical schedule occurrence until materialization",
            unit: Some("s"),
            kind: InstrumentKind::SecondsHistogram,
        },
        Instrument::ScheduleMaterializationDuration => InstrumentDescription {
            name: "pgtask.schedule.materialization.duration",
            description: "Schedule materialization transaction duration",
            unit: Some("s"),
            kind: InstrumentKind::SecondsHistogram,
        },
        Instrument::WorkersLive => InstrumentDescription {
            name: "pgtask.workers.live",
            description: "Workers the database still considers live for this queue",
            unit: Some("{worker}"),
            kind: InstrumentKind::Gauge,
        },
        Instrument::WorkerHeartbeats => InstrumentDescription {
            name: "pgtask.worker.heartbeats",
            description: "Worker heartbeat attempts by outcome",
            unit: None,
            kind: InstrumentKind::Counter,
        },
        Instrument::QueueReadyTasks => InstrumentDescription {
            name: "pgtask.queue.ready.tasks",
            description: "Due tasks routable to any live, non-draining worker on this queue",
            unit: Some("{task}"),
            kind: InstrumentKind::Gauge,
        },
        Instrument::QueueUnroutableTasks => InstrumentDescription {
            name: "pgtask.queue.unroutable.tasks",
            description: "Due tasks with no live capable worker on this queue",
            unit: Some("{task}"),
            kind: InstrumentKind::Gauge,
        },
        Instrument::WorkerConfiguredConcurrency => InstrumentDescription {
            name: "pgtask.worker.concurrency.configured",
            description: "Configured maximum active task handlers",
            unit: Some("{handler}"),
            kind: InstrumentKind::Gauge,
        },
        Instrument::WorkerEffectiveConcurrency => InstrumentDescription {
            name: "pgtask.worker.concurrency.effective",
            description: "Current admission limit for active task handlers",
            unit: Some("{handler}"),
            kind: InstrumentKind::Gauge,
        },
        Instrument::WorkerActiveHandlers => InstrumentDescription {
            name: "pgtask.worker.handlers.active",
            description: "Active task handlers",
            unit: Some("{handler}"),
            kind: InstrumentKind::Gauge,
        },
        Instrument::WorkerAvailableSlots => InstrumentDescription {
            name: "pgtask.worker.slots.available",
            description: "Task handler slots available under the effective admission limit",
            unit: Some("{handler}"),
            kind: InstrumentKind::Gauge,
        },
        Instrument::WorkerEventLoopLag => InstrumentDescription {
            name: "pgtask.worker.event_loop.lag",
            description: "Delay beyond the expected worker runtime health-sampling deadline",
            unit: Some("s"),
            kind: InstrumentKind::SecondsGauge,
        },
        Instrument::WorkerLeaseRenewalAge => InstrumentDescription {
            name: "pgtask.worker.lease.renewal.age",
            description: "Age of the oldest active task lease renewal",
            unit: Some("s"),
            kind: InstrumentKind::SecondsGauge,
        },
        Instrument::WorkerAdmissionLimit => InstrumentDescription {
            name: "pgtask.worker.admission.limit",
            description: "Proposed or applied worker admission limit changes",
            unit: Some("{handler}"),
            kind: InstrumentKind::Gauge,
        },
    }
}

impl Instrument {
    /// How the instrument is announced.
    pub fn describe(self) -> (result: InstrumentDescription)
        ensures
            result == instrument_description(self),
    {
        match self {
            Instrument::Tasks => InstrumentDescription {
                name: "pgtask.tasks",
                description: "Task state transitions",
                unit: None,
                kind: InstrumentKind::Counter,
            },
            Instrument::LeaseRenewals => InstrumentDescription {
                name: "pgtask.lease.renewals",
                description: "Lease renewal outcomes",
                unit: None,
                kind: InstrumentKind::Counter,
            },
            Instrument::LeaseRecoveryFailures => InstrumentDescription {
                name: "pgtask.lease.recovery.failures",
                description: "Failed expired-lease recovery batches",
                unit: None,
                kind: InstrumentKind::Counter,
            },
            Instrument::QueueLatency => InstrumentDescription {
                name: "pgtask.queue.latency",
                description: "Time from task creation until execution starts",
                unit: Some("s"),
                kind: InstrumentKind::SecondsHistogram,
            },
            Instrument::ExecutionDuration => InstrumentDescription {
                name: "pgtask.execution.duration",
                description: "Task handler execution duration",
                unit: Some("s"),
                kind: InstrumentKind::SecondsHistogram,
            },
            Instrument::ScheduleOccurrences => InstrumentDescription {
                name: "pgtask.schedule.occurrences",
                description: "Schedule occurrences materialized as tasks",
                unit: None,
                kind: InstrumentKind::Counter,
            },
            Instrument::ScheduleSkippedOccurrences => InstrumentDescription {
                name: "pgtask.schedule.skipped_occurrences",
                description: "Due schedule occurrences discarded by the misfire policy",
                unit: None,
                kind: InstrumentKind::Counter,
            },
            Instrument::ScheduleLag => InstrumentDescription {
                name: "pgtask.schedule.lag",
                description: "Time from a logical schedule occurrence until materialization",
                unit: Some("s"),
                kind: InstrumentKind::SecondsHistogram,
            },
            Instrument::ScheduleMaterializationDuration => InstrumentDescription {
                name: "pgtask.schedule.materialization.duration",
                description: "Schedule materialization transaction duration",
                unit: Some("s"),
                kind: InstrumentKind::SecondsHistogram,
            },
            Instrument::WorkersLive => InstrumentDescription {
                name: "pgtask.workers.live",
                description: "Workers the database still considers live for this queue",
                unit: Some("{worker}"),
                kind: InstrumentKind::Gauge,
            },
            Instrument::WorkerHeartbeats => InstrumentDescription {
                name: "pgtask.worker.heartbeats",
                description: "Worker heartbeat attempts by outcome",
                unit: None,
                kind: InstrumentKind::Counter,
            },
            Instrument::QueueReadyTasks => InstrumentDescription {
                name: "pgtask.queue.ready.tasks",
                description: "Due tasks routable to any live, non-draining worker on this queue",
                unit: Some("{task}"),
                kind: InstrumentKind::Gauge,
            },
            Instrument::QueueUnroutableTasks => InstrumentDescription {
                name: "pgtask.queue.unroutable.tasks",
                description: "Due tasks with no live capable worker on this queue",
                unit: Some("{task}"),
                kind: InstrumentKind::Gauge,
            },
            Instrument::WorkerConfiguredConcurrency => InstrumentDescription {
                name: "pgtask.worker.concurrency.configured",
                description: "Configured maximum active task handlers",
                unit: Some("{handler}"),
                kind: InstrumentKind::Gauge,
            },
            Instrument::WorkerEffectiveConcurrency => InstrumentDescription {
                name: "pgtask.worker.concurrency.effective",
                description: "Current admission limit for active task handlers",
                unit: Some("{handler}"),
                kind: InstrumentKind::Gauge,
            },
            Instrument::WorkerActiveHandlers => InstrumentDescription {
                name: "pgtask.worker.handlers.active",
                description: "Active task handlers",
                unit: Some("{handler}"),
                kind: InstrumentKind::Gauge,
            },
            Instrument::WorkerAvailableSlots => InstrumentDescription {
                name: "pgtask.worker.slots.available",
                description: "Task handler slots available under the effective admission limit",
                unit: Some("{handler}"),
                kind: InstrumentKind::Gauge,
            },
            Instrument::WorkerEventLoopLag => InstrumentDescription {
                name: "pgtask.worker.event_loop.lag",
                description: "Delay beyond the expected worker runtime health-sampling deadline",
                unit: Some("s"),
                kind: InstrumentKind::SecondsGauge,
            },
            Instrument::WorkerLeaseRenewalAge => InstrumentDescription {
                name: "pgtask.worker.lease.renewal.age",
                description: "Age of the oldest active task lease renewal",
                unit: Some("s"),
                kind: InstrumentKind::SecondsGauge,
            },
            Instrument::WorkerAdmissionLimit => InstrumentDescription {
                name: "pgtask.worker.admission.limit",
                description: "Proposed or applied worker admission limit changes",
                unit: Some("{handler}"),
                kind: InstrumentKind::Gauge,
            },
        }
    }
}

/// Whether a list announces an instrument.
pub open spec fn is_announced(
    list: Seq<(Instrument, InstrumentDescription)>,
    instrument: Instrument,
) -> bool {
    exists|i: int| 0 <= i < list.len() && (#[trigger] list[i]).0 == instrument
}

/// All instruments with what announces them, each once.
pub fn metrics() -> (result: Vec<(Instrument, InstrumentDescription)>)
    ensures
        forall|i: int|
            0 <= i < result@.len() ==> (#[trigger] result@[i]).1 == instrument_description(
                result@[i].0,
            ),
        forall|i: int, j: int|
            0 <= i < j < result@.len() ==> (#[trigger] result@[i]).0 != (#[trigger] result@[j]).0,
        forall|instrument: Instrument| #[trigger] is_announced(result@, instrument),
{
    let result = vec![
        (Instrument::Tasks, Instrument::Tasks.describe()),
        (Instrument::LeaseRenewals, Instrument::LeaseRenewals.describe()),
        (Instrument::LeaseRecoveryFailures, Instrument::LeaseRecoveryFailures.describe()),
        (Instrument::QueueLatency, Instrument::QueueLatency.describe()),
        (Instrument::ExecutionDuration, Instrument::ExecutionDuration.describe()),
        (Instrument::ScheduleOccurrences, Instrument::ScheduleOccurrences.describe()),
        (Instrument::ScheduleSkippedOccurrences, Instrument::ScheduleSkippedOccurrences.describe()),
        (Instrument::ScheduleLag, Instrument::ScheduleLag.describe()),
        (Instrument::ScheduleMaterializationDuration, Instrument::ScheduleMaterializationDuration.describe()),
        (Instrument::WorkersLive, Instrument::WorkersLive.describe()),
        (Instrument::WorkerHeartbeats, Instrument::WorkerHeartbeats.describe()),
        (Instrument::QueueReadyTasks, Instrument::QueueReadyTasks.describe()),
        (Instrument::QueueUnroutableTasks, Instrument::QueueUnroutableTasks.describe()),
        (Instrument::WorkerConfiguredConcurrency, Instrument::WorkerConfiguredConcurrency.describe()),
        (Instrument::WorkerEffectiveConcurrency, Instrument::WorkerEffectiveConcurrency.describe()),
        (Instrument::WorkerActiveHandlers, Instrument::WorkerActiveHandlers.describe()),
        (Instrument::WorkerAvailableSlots, Instrument::WorkerAvailableSlots.describe()),
        (Instrument::WorkerEventLoopLag, Instrument::WorkerEventLoopLag.describe()),
        (Instrument::WorkerLeaseRenewalAge, Instrument::WorkerLeaseRenewalAge.describe()),
        (Instrument::WorkerAdmissionLimit, Instrument::WorkerAdmissionLimit.describe()),
    ];
    assert forall|instrument: Instrument| #[trigger] is_announced(result@, instrument) by {
        match instrument {
            Instrument::Tasks => assert(result@[0].0 == instrument),
            Instrument::LeaseRenewals => assert(result@[1].0 == instrument),
            Instrument::LeaseRecoveryFailures => assert(result@[2].0 == instrument),
            Instrument::QueueLatency => assert(result@[3].0 == instrument),
            Instrument::ExecutionDuration => assert(result@[4].0 == instrument),
            Instrument::ScheduleOccurrences => assert(result@[5].0 == instrument),
            Instrument::ScheduleSkippedOccurrences => assert(result@[6].0 == instrument),
            Instrument::ScheduleLag => assert(result@[7].0 == instrument),
            Instrument::ScheduleMaterializationDuration => assert(result@[8].0 == instrument),
            Instrument::WorkersLive => assert(result@[9].0 == instrument),
            Instrument::WorkerHeartbeats => assert(result@[10].0 == instrument),
            Instrument::QueueReadyTasks => assert(result@[11].0 == instrument),
            Instrument::QueueUnroutableTasks => assert(result@[12].0 == instrument),
            Instrument::WorkerConfiguredConcurrency => assert(result@[13].0 == instrument),
            Instrument::WorkerEffectiveConcurrency => assert(result@[14].0 == instrument),
            Instrument::WorkerActiveHandlers => assert(result@[15].0 == instrument),
            Instrument::WorkerAvailableSlots => assert(result@[16].0 == instrument),
            Instrument::WorkerEventLoopLag => assert(result@[17].0 == instrument),
            Instrument::WorkerLeaseRenewalAge => assert(result@[18].0 == instrument),
            Instrument::WorkerAdmissionLimit => assert(result@[19].0 == instrument),
        }
    }
    result
}

/// What an attribute says.
#[derive(Debug, PartialEq, Eq)]
pub enum AttributeValue {
    Text(String),
    Flag(bool),
}

/// What an attribute says, in the abstract.
#[verifier::ext_equal]
pub enum AttributeText {
    Text(Seq<char>),
    Flag(bool),
}

impl View for AttributeValue {
    type V = AttributeText;

    open spec fn view(&self) -> AttributeText {
        match self {
            AttributeValue::Text(text) => AttributeText::Text(text@),
            AttributeValue::Flag(flag) => AttributeText::Flag(*flag),
        }
    }
}

#[derive(Debug, PartialEq, Eq)]
pub struct Attribute {
    pub key: &'static str,
    pub value: AttributeValue,
}

impl View for Attribute {
    type V = (Seq<char>, AttributeText);

    open spec fn view(&self) -> (Seq<char>, AttributeText) {
        (self.key@, self.value@)
    }
}

/// How much was measured: a number of things or a span of time.
#[derive(Clone, Copy, Debug, PartialEq, Eq, Structural)]
pub enum Amount {
    Count(u64),
    Span(Duration),
}

/// One measurement.
#[derive(Debug, PartialEq, Eq)]
pub struct Measurement {
    pub instrument: Instrument,
    pub amount: Amount,
    pub attributes: Vec<Attribute>,
}

/// One measurement in the abstract: the attributes by their keys and what they say.
#[verifier::ext_equal]
pub struct Reading {
    pub instrument: Instrument,
    pub amount: Amount,
    pub attributes: Seq<(Seq<char>, AttributeText)>,
}

impl View for Measurement {
    type V = Reading;

    open spec fn view(&self) -> Reading {
        Reading {
            instrument: self.instrument,
            amount: self.amount,
            attributes: self.attributes@.map_values(|attribute: Attribute| attribute@),
        }
    }
}

/// Several measurements in the abstract.
pub open spec fn readings(measurements: Seq<Measurement>) -> Seq<Reading> {
    measurements.map_values(|measurement: Measurement| measurement@)
}

/// An attribute that says a text.
pub open spec fn says(key: &'static str, text: Seq<char>) -> (Seq<char>, AttributeText) {
    (key@, AttributeText::Text(text))
}

/// The attribute that every measurement of a queue has.
pub open spec fn of_queue(queue_name: Seq<char>) -> (Seq<char>, AttributeText) {
    says("pgtask.queue.name", queue_name)
}

/// The attribute that every measurement of a task has.
pub open spec fn of_task(task_name: Seq<char>) -> (Seq<char>, AttributeText) {
    says("pgtask.task.name", task_name)
}

fn text_attribute(key: &'static str, text: &str) -> (result: Attribute)
    ensures
        result@ == says(key, text@),
{
    Attribute { key, value: AttributeValue::Text(text.to_owned()) }
}

/// `count` tasks of a queue entered a state; the task name is missing where they have several.
pub open spec fn transition_reading(
    state: Seq<char>,
    queue_name: Seq<char>,
    task_name: Option<Seq<char>>,
    count: u64,
) -> Reading {
    let common = seq![says("pgtask.task.state", state), of_queue(queue_name)];
    Reading {
        instrument: Instrument::Tasks,
        amount: Amount::Count(count),
        attributes: match task_name {
            Some(name) => common.push(of_task(name)),
            None => common,
        },
    }
}

fn record_task_transition(
    state: &'static str,
    queue_name: &str,
    task_name: Option<&str>,
    count: u64,
) -> (result: Measurement)
    ensures
        result@ == transition_reading(
            state@,
            queue_name@,
            match task_name {
                Some(name) => Some(name@),
                None => None,
            },
            count,
        ),
{
    let mut attributes = vec![
        text_attribute("pgtask.task.state", state),
        text_attribute("pgtask.queue.name", queue_name),
    ];
    if let Some(task_name) = task_name {
        attributes.push(text_attribute("pgtask.task.name", task_name));
    }
    Measurement { instrument: Instrument::Tasks, amount: Amount::Count(count), attributes }
}

pub fn record_enqueued(queue_name: &str, task_name: &str, count: u64) -> (result: Measurement)
    ensures
        result@ == transition_reading("enqueued"@, queue_name@, Some(task_name@), count),
{
    record_task_transition("enqueued", queue_name, Some(task_name), count)
}

pub fn record_claimed(queue_name: &str, task_name: &str) -> (result: Measurement)
    ensures
        result@ == transition_reading("claimed"@, queue_name@, Some(task_name@), 1),
{
    record_task_transition("claimed", queue_name, Some(task_name), 1)
}

pub fn record_cancelled(queue_name: &str, task_name: &str) -> (result: Measurement)
    ensures
        result@ == transition_reading("cancelled"@, queue_name@, Some(task_name@), 1),
{
    record_task_transition("cancelled", queue_name, Some(task_name), 1)
}

pub fn record_succeeded(queue_name: &str, task_name: &str) -> (result: Measurement)
    ensures
        result@ == transition_reading("succeeded"@, queue_name@, Some(task_name@), 1),
{
    record_task_transition("succeeded", queue_name, Some(task_name), 1)
}

pub fn record_failed(queue_name: &str, task_name: &str) -> (result: Measurement)
    ensures
        result@ == transition_reading("failed"@, queue_name@, Some(task_name@), 1),
{
    record_task_transition("failed", queue_name, Some(task_name), 1)
}

pub fn record_retried(queue_name: &str, task_name: &str) -> (result: Measurement)
    ensures
        result@ == transition_reading("retried"@, queue_name@, Some(task_name@), 1),
{
    record_task_transition("retried", queue_name, Some(task_name), 1)
}

pub fn record_lease_lost(queue_name: &str, task_name: &str) -> (result: Measurement)
    ensures
        result@ == transition_reading("lease_lost"@, queue_name@, Some(task_name@), 1),
{
    record_task_transition("lease_lost", queue_name, Some(task_name), 1)
}

pub fn record_recovered(queue_name: &str, count: u64) -> (result: Measurement)
    ensures
        result@ == transition_reading("recovered"@, queue_name@, None, count),
{
    record_task_transition("recovered", queue_name, None, count)
}

/// A measurement whose only attribute is the queue.
pub open spec fn queue_reading(instrument: Instrument, queue_name: Seq<char>, amount: Amount) -> Reading {
    Reading { instrument, amount, attributes: seq![of_queue(queue_name)] }
}

fn queue_measurement(instrument: Instrument, queue_name: &str, amount: Amount) -> (result:
    Measurement)
    ensures
        result@ == queue_reading(instrument, queue_name@, amount),
{
    Measurement { instrument, amount, attributes: vec![text_attribute("pgtask.queue.name", queue_name)] }
}

pub fn record_recovery_failure(queue_name: &str) -> (result: Measurement)
    ensures
        result@ == queue_reading(Instrument::LeaseRecoveryFailures, queue_name@, Amount::Count(1)),
{
    queue_measurement(Instrument::LeaseRecoveryFailures, queue_name, Amount::Count(1))
}

/// A lease of a task was renewed or not.
pub open spec fn renewal_reading(queue_name: Seq<char>, task_name: Seq<char>, renewed: bool) -> Reading {
    Reading {
        instrument: Instrument::LeaseRenewals,
        amount: Amount::Count(1),
        attributes: seq![
            of_queue(queue_name),
            of_task(task_name),
            ("pgtask.lease.renewed"@, AttributeText::Flag(renewed)),
        ],
    }
}

pub fn record_renewed(queue_name: &str, task_name: &str, renewed: bool) -> (result: Measurement)
    ensures
        result@ == renewal_reading(queue_name@, task_name@, renewed),
{
    Measurement {
        instrument: Instrument::LeaseRenewals,
        amount: Amount::Count(1),
        attributes: vec![
            text_attribute("pgtask.queue.name", queue_name),
            text_attribute("pgtask.task.name", task_name),
            Attribute { key: "pgtask.lease.renewed", value: AttributeValue::Flag(renewed) },
        ],
    }
}

/// How long a task waited before its execution started.
pub open spec fn latency_reading(queue_name: Seq<char>, task_name: Seq<char>, duration: Duration) -> Reading {
    Reading {
        instrument: Instrument::QueueLatency,
        amount: Amount::Span(duration),
        attributes: seq![of_queue(queue_name), of_task(task_name)],
    }
}

pub fn record_queue_latency(queue_name: &str, task_name: &str, duration: Duration) -> (result:
    Measurement)
    ensures
        result@ == latency_reading(queue_name@, task_name@, duration),
{
    Measurement {
        instrument: Instrument::QueueLatency,
        amount: Amount::Span(duration),
        attributes: vec![
            text_attribute("pgtask.queue.name", queue_name),
            text_attribute("pgtask.task.name", task_name),
        ],
    }
}

/// The due tasks of a queue, with and without a worker for them.
pub fn record_queue_demand(queue_name: &str, ready_tasks: u64, unroutable_tasks: u64) -> (result:
    Vec<Measurement>)
    ensures
        readings(result@) == seq![
            queue_reading(Instrument::QueueReadyTasks, queue_name@, Amount::Count(ready_tasks)),
            queue_reading(
                Instrument::QueueUnroutableTasks,
                queue_name@,
                Amount::Count(unroutable_tasks),
            ),
        ],
{
    vec![
        queue_measurement(Instrument::QueueReadyTasks, queue_name, Amount::Count(ready_tasks)),
        queue_measurement(
            Instrument::QueueUnroutableTasks,
            queue_name,
            Amount::Count(unroutable_tasks),
        ),
    ]
}

/// A worker tried to report that it lives.
pub open spec fn heartbeat_reading(queue_name: Seq<char>, outcome: Seq<char>) -> Reading {
    Reading {
        instrument: Instrument::WorkerHeartbeats,
        amount: Amount::Count(1),
        attributes: seq![of_queue(queue_name), says("pgtask.heartbeat.outcome", outcome)],
    }
}

/// `outcome` is `ok`, `missing` when the registration is gone, or `error` when the call failed.
pub fn record_heartbeat(queue_name: &str, outcome: &'static str) -> (result: Measurement)
    ensures
        result@ == heartbeat_reading(queue_name@, outcome@),
{
    Measurement {
        instrument: Instrument::WorkerHeartbeats,
        amount: Amount::Count(1),
        attributes: vec![
            text_attribute("pgtask.queue.name", queue_name),
            text_attribute("pgtask.heartbeat.outcome", outcome),
        ],
    }
}

pub fn record_live_workers(queue_name: &str, live: u64) -> (result: Measurement)
    ensures
        result@ == queue_reading(Instrument::WorkersLive, queue_name@, Amount::Count(live)),
{
    queue_measurement(Instrument::WorkersLive, queue_name, Amount::Count(live))
}

/// How long a handler ran, and how that ended.
pub open spec fn execution_reading(
    queue_name: Seq<char>,
    task_name: Seq<char>,
    outcome: Seq<char>,
    duration: Duration,
) -> Reading {
    Reading {
        instrument: Instrument::ExecutionDuration,
        amount: Amount::Span(duration),
        attributes: seq![
            of_queue(queue_name),
            of_task(task_name),
            says("pgtask.execution.outcome", outcome),
        ],
    }
}

pub fn record_execution(
    queue_name: &str,
    task_name: &str,
    outcome: &'static str,
    duration: Duration,
) -> (result: Measurement)
    ensures
        result@ == execution_reading(queue_name@, task_name@, outcome@, duration),
{
    Measurement {
        instrument: Instrument::ExecutionDuration,
        amount: Amount::Span(duration),
        attributes: vec![
            text_attribute("pgtask.queue.name", queue_name),
            text_attribute("pgtask.task.name", task_name),
            text_attribute("pgtask.execution.outcome", outcome),
        ],
    }
}

/// A measurement of a schedule.
pub open spec fn schedule_reading(
    instrument: Instrument,
    queue_name: Seq<char>,
    task_name: Seq<char>,
    kind: Seq<char>,
    amount: Amount,
) -> Reading {
    Reading {
        instrument,
        amount,
        attributes: seq![of_queue(queue_name), of_task(task_name), says("pgtask.schedule.kind", kind)],
    }
}

fn schedule_measurement(
    instrument: Instrument,
    queue_name: &str,
    task_name: &str,
    kind: &'static str,
    amount: Amount,
) -> (result: Measurement)
    ensures
        result@ == schedule_reading(instrument, queue_name@, task_name@, kind@, amount),
{
    Measurement {
        instrument,
        amount,
        attributes: vec![
            text_attribute("pgtask.queue.name", queue_name),
            text_attribute("pgtask.task.name", task_name),
            text_attribute("pgtask.schedule.kind", kind),
        ],
    }
}

/// The three measurements of one materialized schedule.
pub open spec fn schedule_readings(
    queue_name: Seq<char>,
    task_name: Seq<char>,
    kind: Seq<char>,
    count: u64,
    skipped: u64,
    lag: Duration,
) -> Seq<Reading> {
    seq![
        schedule_reading(
            Instrument::ScheduleOccurrences,
            queue_name,
            task_name,
            kind,
            Amount::Count(count),
        ),
        schedule_reading(
            Instrument::ScheduleSkippedOccurrences,
            queue_name,
            task_name,
            kind,
            Amount::Count(skipped),
        ),
        schedule_reading(Instrument::ScheduleLag, queue_name, task_name, kind, Amount::Span(lag)),
    ]
}

pub fn record_schedule_occurrences(
    queue_name: &str,
    task_name: &str,
    kind: &'static str,
    count: u64,
    skipped: u64,
    lag: Duration,
) -> (result: Vec<Measurement>)
    ensures
        readings(result@) == schedule_readings(queue_name@, task_name@, kind@, count, skipped, lag),
{
    vec![
        schedule_measurement(
            Instrument::ScheduleOccurrences,
            queue_name,
            task_name,
            kind,
            Amount::Count(count),
        ),
        schedule_measurement(
            Instrument::ScheduleSkippedOccurrences,
            queue_name,
            task_name,
            kind,
            Amount::Count(skipped),
        ),
        schedule_measurement(
            Instrument::ScheduleLag,
            queue_name,
            task_name,
            kind,
            Amount::Span(lag),
        ),
    ]
}

pub fn record_schedule_materialization(duration: Duration) -> (result: Measurement)
    ensures
        result@ == (Reading {
            instrument: Instrument::ScheduleMaterializationDuration,
            amount: Amount::Span(duration),
            attributes: Seq::empty(),
        }),
{
    Measurement {
        instrument: Instrument::ScheduleMaterializationDuration,
        amount: Amount::Span(duration),
        attributes: Vec::new(),
    }
}

/// The four measurements of a worker's capacity: what is configured, what is admitted, what runs,
/// and what of the admitted is free.
pub open spec fn capacity_readings(
    queue_name: Seq<char>,
    configured: u16,
    effective: u16,
    active: usize,
) -> Seq<Reading> {
    let free = if effective as int >= active as int {
        (effective - active) as u64
    } else {
        0
    };
    seq![
        queue_reading(
            Instrument::WorkerConfiguredConcurrency,
            queue_name,
            Amount::Count(configured as u64),
        ),
        queue_reading(
            Instrument::WorkerEffectiveConcurrency,
            queue_name,
            Amount::Count(effective as u64),
        ),
        queue_reading(Instrument::WorkerActiveHandlers, queue_name, Amount::Count(active as u64)),
        queue_reading(Instrument::WorkerAvailableSlots, queue_name, Amount::Count(free)),
    ]
}

pub fn record_worker_capacity(
    queue_name: &str,
    configured: u16,
    effective: u16,
    active: usize,
) -> (result: Vec<Measurement>)
    ensures
        readings(result@) == capacity_readings(queue_name@, configured, effective, active),
{
    let active: u64 = active as u64;
    vec![
        queue_measurement(
            Instrument::WorkerConfiguredConcurrency,
            queue_name,
            Amount::Count(configured as u64),
        ),
        queue_measurement(
            Instrument::WorkerEffectiveConcurrency,
            queue_name,
            Amount::Count(effective as u64),
        ),
        queue_measurement(Instrument::WorkerActiveHandlers, queue_name, Amount::Count(active)),
        queue_measurement(
            Instrument::WorkerAvailableSlots,
            queue_name,
            Amount::Count((effective as u64).saturating_sub(active)),
        ),
    ]
}

pub fn record_worker_event_loop_lag(queue_name: &str, duration: Duration) -> (result: Measurement)
    ensures
        result@ == queue_reading(
            Instrument::WorkerEventLoopLag,
            queue_name@,
            Amount::Span(duration),
        ),
{
    queue_measurement(Instrument::WorkerEventLoopLag, queue_name, Amount::Span(duration))
}

pub fn record_worker_lease_renewal_age(queue_name: &str, duration: Duration) -> (result:
    Measurement)
    ensures
        result@ == queue_reading(
            Instrument::WorkerLeaseRenewalAge,
            queue_name@,
            Amount::Span(duration),
        ),
{
    queue_measurement(Instrument::WorkerLeaseRenewalAge, queue_name, Amount::Span(duration))
}

/// A proposed or applied change of the admission limit.
pub open spec fn admission_reading(
    queue_name: Seq<char>,
    decision: Seq<char>,
    reason: Seq<char>,
    limit: u16,
) -> Reading {
    Reading {
        instrument: Instrument::WorkerAdmissionLimit,
        amount: Amount::Count(limit as u64),
        attributes: seq![
            of_queue(queue_name),
            says("pgtask.admission.decision", decision),
            says("pgtask.admission.reason", reason),
        ],
    }
}

pub fn record_worker_admission_limit(
    queue_name: &str,
    decision: &'static str,
    reason: &'static str,
    limit: u16,
) -> (result: Measurement)
    ensures
        result@ == admission_reading(queue_name@, decision@, reason@, limit),
{
    Measurement {
        instrument: Instrument::WorkerAdmissionLimit,
        amount: Amount::Count(limit as u64),
        attributes: vec![
            text_attribute("pgtask.queue.name", queue_name),
            text_attribute("pgtask.admission.decision", decision),
            text_attribute("pgtask.admission.reason", reason),
        ],
    }
}

/// Measurements are read one by one.
pub proof fn measurements_are_read_one_by_one(measurements: Seq<Measurement>)
    ensures
        readings(measurements).len() == measurements.len(),
        forall|i: int|
            0 <= i < measurements.len() ==> #[trigger] readings(measurements)[i] == measurements[i]@,
{
}

/// A measurement of a task says what became of it, in which queue, and by which name; where there
/// are several tasks, it names none and says how many.
pub proof fn transitions_say_what_happened(
    state: Seq<char>,
    queue_name: Seq<char>,
    task_name: Seq<char>,
    count: u64,
)
    ensures
        transition_reading(state, queue_name, Some(task_name), count) == (Reading {
            instrument: Instrument::Tasks,
            amount: Amount::Count(count),
            attributes: seq![
                ("pgtask.task.state"@, AttributeText::Text(state)),
                ("pgtask.queue.name"@, AttributeText::Text(queue_name)),
                ("pgtask.task.name"@, AttributeText::Text(task_name)),
            ],
        }),
        transition_reading(state, queue_name, None, count) == (Reading {
            instrument: Instrument::Tasks,
            amount: Amount::Count(count),
            attributes: seq![
                ("pgtask.task.state"@, AttributeText::Text(state)),
                ("pgtask.queue.name"@, AttributeText::Text(queue_name)),
            ],
        }),
{
    assert(transition_reading(state, queue_name, Some(task_name), count).attributes =~= seq![
        ("pgtask.task.state"@, AttributeText::Text(state)),
        ("pgtask.queue.name"@, AttributeText::Text(queue_name)),
        ("pgtask.task.name"@, AttributeText::Text(task_name)),
    ]);
    assert(transition_reading(state, queue_name, None, count).attributes =~= seq![
        ("pgtask.task.state"@, AttributeText::Text(state)),
        ("pgtask.queue.name"@, AttributeText::Text(queue_name)),
    ]);
}

/// The other measurements say what they are about, each with its own amount.
pub proof fn measurements_say_what_they_are_about(
    instrument: Instrument,
    amount: Amount,
    queue_name: Seq<char>,
    task_name: Seq<char>,
    word: Seq<char>,
    reason: Seq<char>,
    flag: bool,
    limit: u16,
    span: Duration,
)
    ensures
        queue_reading(instrument, queue_name, amount) == (Reading {
            instrument,
            amount,
            attributes: seq![("pgtask.queue.name"@, AttributeText::Text(queue_name))],
        }),
        renewal_reading(queue_name, task_name, flag) == (Reading {
            instrument: Instrument::LeaseRenewals,
            amount: Amount::Count(1),
            attributes: seq![
                ("pgtask.queue.name"@, AttributeText::Text(queue_name)),
                ("pgtask.task.name"@, AttributeText::Text(task_name)),
                ("pgtask.lease.renewed"@, AttributeText::Flag(flag)),
            ],
        }),
        latency_reading(queue_name, task_name, span) == (Reading {
            instrument: Instrument::QueueLatency,
            amount: Amount::Span(span),
            attributes: seq![
                ("pgtask.queue.name"@, AttributeText::Text(queue_name)),
                ("pgtask.task.name"@, AttributeText::Text(task_name)),
            ],
        }),
        heartbeat_reading(queue_name, word) == (Reading {
            instrument: Instrument::WorkerHeartbeats,
            amount: Amount::Count(1),
            attributes: seq![
                ("pgtask.queue.name"@, AttributeText::Text(queue_name)),
                ("pgtask.heartbeat.outcome"@, AttributeText::Text(word)),
            ],
        }),
        execution_reading(queue_name, task_name, word, span) == (Reading {
            instrument: Instrument::ExecutionDuration,
            amount: Amount::Span(span),
            attributes: seq![
                ("pgtask.queue.name"@, AttributeText::Text(queue_name)),
                ("pgtask.task.name"@, AttributeText::Text(task_name)),
                ("pgtask.execution.outcome"@, AttributeText::Text(word)),
            ],
        }),
        schedule_reading(instrument, queue_name, task_name, word, amount) == (Reading {
            instrument,
            amount,
            attributes: seq![
                ("pgtask.queue.name"@, AttributeText::Text(queue_name)),
                ("pgtask.task.name"@, AttributeText::Text(task_name)),
                ("pgtask.schedule.kind"@, AttributeText::Text(word)),
            ],
        }),
        admission_reading(queue_name, word, reason, limit) == (Reading {
            instrument: Instrument::WorkerAdmissionLimit,
            amount: Amount::Count(limit as u64),
            attributes: seq![
                ("pgtask.queue.name"@, AttributeText::Text(queue_name)),
                ("pgtask.admission.decision"@, AttributeText::Text(word)),
                ("pgtask.admission.reason"@, AttributeText::Text(reason)),
            ],
        }),
{
}

/// A materialized schedule is measured by the tasks that were made, by the occurrences that were
/// discarded, and by its lag.
pub proof fn schedules_are_measured_three_ways(
    queue_name: Seq<char>,
    task_name: Seq<char>,
    kind: Seq<char>,
    count: u64,
    skipped: u64,
    lag: Duration,
)
    ensures
        ({
            let measured = schedule_readings(queue_name, task_name, kind, count, skipped, lag);
            &&& measured.len() == 3
            &&& measured[0].instrument == Instrument::ScheduleOccurrences && measured[0].amount
                == Amount::Count(count)
            &&& measured[1].instrument == Instrument::ScheduleSkippedOccurrences
                && measured[1].amount == Amount::Count(skipped)
            &&& measured[2].instrument == Instrument::ScheduleLag && measured[2].amount
                == Amount::Span(lag)
            &&& forall|i: int|
                0 <= i < 3 ==> (#[trigger] measured[i]).attributes == seq![
                    ("pgtask.queue.name"@, AttributeText::Text(queue_name)),
                    ("pgtask.task.name"@, AttributeText::Text(task_name)),
                    ("pgtask.schedule.kind"@, AttributeText::Text(kind)),
                ]
        }),
{
}

/// The capacity of a worker is measured as it is configured, as it is in effect, as it is used, and
/// by what is free; what is used and what is free make up what is in effect, unless more is used.
pub proof fn capacities_add_up(queue_name: Seq<char>, configured: u16, effective: u16, active: usize)
    requires
        active <= u64::MAX,
    ensures
        ({
            let measured = capacity_readings(queue_name, configured, effective, active);
            &&& measured.len() == 4
            &&& measured[0].instrument == Instrument::WorkerConfiguredConcurrency
                && measured[0].amount == Amount::Count(configured as u64)
            &&& measured[1].instrument == Instrument::WorkerEffectiveConcurrency
                && measured[1].amount == Amount::Count(effective as u64)
            &&& measured[2].instrument == Instrument::WorkerActiveHandlers && measured[2].amount
                == Amount::Count(active as u64)
            &&& measured[3].instrument == Instrument::WorkerAvailableSlots
            &&& measured[3].amount matches Amount::Count(free) && (active <= effective ==> active
                + free == effective) && (active > effective ==> free == 0)
        }),
{
}

/// Times are measured in seconds, counters have no unit, and only what can be counted or timed at
/// an instant is a gauge.
pub proof fn instruments_have_their_units(instrument: Instrument)
    ensures
        ({
            let announced = instrument_description(instrument);
            &&& announced.kind == InstrumentKind::Counter <==> announced.unit is None
            &&& announced.kind == InstrumentKind::Counter <==> {
                ||| instrument is Tasks
                ||| instrument is LeaseRenewals
                ||| instrument is LeaseRecoveryFailures
                ||| instrument is ScheduleOccurrences
                ||| instrument is ScheduleSkippedOccurrences
                ||| instrument is WorkerHeartbeats
            }
            &&& announced.kind == InstrumentKind::SecondsHistogram <==> {
                ||| instrument is QueueLatency
                ||| instrument is ExecutionDuration
                ||| instrument is ScheduleLag
                ||| instrument is ScheduleMaterializationDuration
            }
            &&& announced.kind == InstrumentKind::SecondsGauge <==> {
                ||| instrument is WorkerEventLoopLag
                ||| instrument is WorkerLeaseRenewalAge
            }
            &&& announced.kind == InstrumentKind::SecondsHistogram || announced.kind
                == InstrumentKind::SecondsGauge ==> announced.unit == Some("s")
            &&& instrument is QueueReadyTasks || instrument is QueueUnroutableTasks
                ==> announced.unit == Some("{task}")
            &&& instrument is WorkersLive ==> announced.unit == Some("{worker}")
        }),
{
}

} // verus!
