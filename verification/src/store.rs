//! What the answers of PostgreSQL mean, and what follows from them.

use vstd::prelude::*;

use crate::error::{Fault, PostgresError};
use crate::identifier::{QueueName, TaskId, TaskName};
use crate::metrics::{
    readings, record_cancelled, record_claimed, record_enqueued, record_recovered,
    record_schedule_occurrences, schedule_readings, transition_reading, Amount, Measurement, Reading,
};
use crate::number::NonZeroU32;
use crate::requests::fails_with;
use crate::rows::{
    is_stored_task, out_of_range_text, parse_state, state_fault, stored_count, task_fault, EnqueueRow,
    TaskRow,
};
use crate::schedule::{
    definition_kind, materialization_outcome, Materialization, Schedule,
};
use crate::task::{
    is_terminal_state, state_text, EnqueueResult, Task, TaskResult, TaskState,
};
use crate::text::same_text;
use crate::time::{Duration, Timestamp};
use crate::unique::uuid_text;

verus! {

/// Where the database is, and how many connections are opened to it: some for statements, some
/// that only listen.
#[derive(Clone, Debug, PartialEq, Eq)]
pub struct StoreConfig {
    database_url: String,
    listener_url: String,
    query_connections: NonZeroU32,
    listener_connections: NonZeroU32,
}

/// A configuration in the abstract.
#[verifier::ext_equal]
pub struct Connections {
    pub database_url: Seq<char>,
    pub listener_url: Seq<char>,
    pub query_connections: u32,
    pub listener_connections: u32,
}

impl View for StoreConfig {
    type V = Connections;

    closed spec fn view(&self) -> Connections {
        Connections {
            database_url: self.database_url@,
            listener_url: self.listener_url@,
            query_connections: self.query_connections@,
            listener_connections: self.listener_connections@,
        }
    }
}

impl StoreConfig {
    /// Ten connections for statements and one that listens, all to the same database.
    pub fn new(database_url: &str) -> (result: Self)
        ensures
            result@ == (Connections {
                database_url: database_url@,
                listener_url: database_url@,
                query_connections: 10,
                listener_connections: 1,
            }),
    {
        let query_connections = match NonZeroU32::new(10) {
            Some(connections) => connections,
            None => NonZeroU32::min_value(),
        };
        StoreConfig {
            database_url: database_url.to_owned(),
            listener_url: database_url.to_owned(),
            query_connections,
            listener_connections: NonZeroU32::min_value(),
        }
    }

    pub fn with_listener_url(self, listener_url: &str) -> (result: Self)
        ensures
            result@ == (Connections { listener_url: listener_url@, ..self@ }),
    {
        StoreConfig {
            database_url: self.database_url,
            listener_url: listener_url.to_owned(),
            query_connections: self.query_connections,
            listener_connections: self.listener_connections,
        }
    }

    pub fn with_query_connections(self, connections: NonZeroU32) -> (result: Self)
        ensures
            result@ == (Connections { query_connections: connections@, ..self@ }),
    {
        StoreConfig {
            database_url: self.database_url,
            listener_url: self.listener_url,
            query_connections: connections,
            listener_connections: self.listener_connections,
        }
    }

    pub fn with_listener_connections(self, connections: NonZeroU32) -> (result: Self)
        ensures
            result@ == (Connections { listener_connections: connections@, ..self@ }),
    {
        StoreConfig {
            database_url: self.database_url,
            listener_url: self.listener_url,
            query_connections: self.query_connections,
            listener_connections: connections,
        }
    }

    pub fn database_url(&self) -> (result: &str)
        ensures
            result@ == self@.database_url,
    {
        self.database_url.as_str()
    }

    pub fn listener_url(&self) -> (result: &str)
        ensures
            result@ == self@.listener_url,
    {
        self.listener_url.as_str()
    }

    pub fn query_connections(&self) -> (result: u32)
        ensures
            result == self@.query_connections,
            result > 0,
    {
        self.query_connections.get()
    }

    pub fn listener_connections(&self) -> (result: u32)
        ensures
            result == self@.listener_connections,
            result > 0,
    {
        self.listener_connections.get()
    }
}

/// What the answer to a request means, with a measurement when it created a task.
pub fn enqueued(row: EnqueueRow, queue_name: &QueueName, task_name: &TaskName) -> (result: (
    EnqueueResult,
    Option<Measurement>,
))
    ensures
        result.0.task_id.uuid == row.task_id,
        result.0.created == row.created,
        if row.created {
            &&& result.1 is Some
            &&& result.1->0@ == transition_reading("enqueued"@, queue_name@, Some(task_name@), 1)
        } else {
            result.1 is None
        },
{
    let outcome = EnqueueResult::from_row(row);
    if outcome.created {
        (outcome, Some(record_enqueued(queue_name.as_str(), task_name.as_str(), 1)))
    } else {
        (outcome, None)
    }
}

/// The measurement of each claimed task.
pub open spec fn claim_readings(rows: Seq<TaskRow>) -> Seq<Reading> {
    rows.map_values(
        |row: TaskRow|
            transition_reading("claimed"@, row.queue_name@, Some(row.task_name@), 1),
    )
}

/// Whether the row at `place` is the first that something is wrong with.
pub open spec fn is_first_bad_row(rows: Seq<TaskRow>, place: int) -> bool {
    &&& 0 <= place < rows.len()
    &&& task_fault(rows[place]) is Some
    &&& forall|i: int| 0 <= i < place ==> task_fault(#[trigger] rows[i]) is None
}

/// The claimed tasks, in order, with a measurement of each one that could be read.
pub fn claimed_tasks(rows: Vec<TaskRow>) -> (result: (
    Result<Vec<Task>, PostgresError>,
    Vec<Measurement>,
))
    ensures
        match result.0 {
            Ok(tasks) => {
                &&& forall|i: int| 0 <= i < rows@.len() ==> task_fault(#[trigger] rows@[i]) is None
                &&& tasks@.len() == rows@.len()
                &&& forall|i: int|
                    0 <= i < rows@.len() ==> is_stored_task(#[trigger] tasks@[i], rows@[i])
                &&& readings(result.1@) == claim_readings(rows@)
            },
            Err(error) => exists|place: int|
                {
                    &&& #[trigger] is_first_bad_row(rows@, place)
                    &&& task_fault(rows@[place]) == Some(error@)
                    &&& readings(result.1@) == claim_readings(rows@.take(place))
                },
        },
{
    let ghost given = rows@;
    let mut tasks: Vec<Task> = Vec::new();
    let mut measurements: Vec<Measurement> = Vec::new();
    for row in iter: rows
        invariant
            iter.seq() == given,
            tasks@.len() == iter.index(),
            forall|i: int| 0 <= i < iter.index() ==> task_fault(#[trigger] given[i]) is None,
            forall|i: int| 0 <= i < iter.index() ==> is_stored_task(#[trigger] tasks@[i], given[i]),
            readings(measurements@) == claim_readings(given.take(iter.index() as int)),
    {
        let ghost place = iter.index() as int;
        assert(row == given[place]);
        match Task::try_from(row) {
            Ok(task) => {
                let ghost before = measurements@;
                measurements.push(record_claimed(task.queue_name.as_str(), task.task_name.as_str()));
                tasks.push(task);
                assert(readings(measurements@) =~= readings(before).push(measurements@.last()@));
                assert(claim_readings(given.take(place + 1)) =~= claim_readings(
                    given.take(place),
                ).push(claim_readings(given)[place]));
            },
            Err(error) => {
                assert(is_first_bad_row(given, place));
                return (Err(error), measurements);
            },
        }
    }
    assert(given.take(given.len() as int) =~= given);
    (Ok(tasks), measurements)
}

/// The fault of a state that may be missing.
pub open spec fn optional_state_fault(state: Option<String>) -> Option<Fault> {
    match state {
        Some(text) => state_fault(text@),
        None => None,
    }
}

/// Whether a state that may be missing is what a stored word says.
pub open spec fn is_optional_state(state: Option<TaskState>, word: Option<String>) -> bool {
    match word {
        Some(text) => state is Some && state_text(state->0) == text@,
        None => state is None,
    }
}

/// Reads the state that a failed task went to; there is none when its lease was lost.
pub fn failed_state(state: Option<String>) -> (result: Result<Option<TaskState>, PostgresError>)
    ensures
        match optional_state_fault(state) {
            Some(fault) => fails_with(result, fault),
            None => result is Ok && is_optional_state(result->Ok_0, state),
        },
{
    match state {
        Some(text) => match parse_state(text.as_str()) {
            Ok(state) => Ok(Some(state)),
            Err(error) => Err(error),
        },
        None => Ok(None),
    }
}

/// Whether the state at `place` is the first that cannot be read.
pub open spec fn is_first_bad_state(states: Seq<Option<String>>, place: int) -> bool {
    &&& 0 <= place < states.len()
    &&& optional_state_fault(states[place]) is Some
    &&& forall|i: int| 0 <= i < place ==> optional_state_fault(#[trigger] states[i]) is None
}

/// Reads the states that failed tasks went to, in order.
pub fn failed_states(states: Vec<Option<String>>) -> (result: Result<
    Vec<Option<TaskState>>,
    PostgresError,
>)
    ensures
        match result {
            Ok(read) => {
                &&& forall|i: int|
                    0 <= i < states@.len() ==> optional_state_fault(#[trigger] states@[i]) is None
                &&& read@.len() == states@.len()
                &&& forall|i: int|
                    0 <= i < states@.len() ==> is_optional_state(#[trigger] read@[i], states@[i])
            },
            Err(error) => exists|place: int| #[trigger]
                is_first_bad_state(states@, place) && optional_state_fault(states@[place]) == Some(
                    error@,
                ),
        },
{
    let ghost given = states@;
    let mut read: Vec<Option<TaskState>> = Vec::new();
    for state in iter: states
        invariant
            iter.seq() == given,
            read@.len() == iter.index(),
            forall|i: int|
                0 <= i < iter.index() ==> optional_state_fault(#[trigger] given[i]) is None,
            forall|i: int|
                0 <= i < iter.index() ==> is_optional_state(#[trigger] read@[i], given[i]),
    {
        let ghost place = iter.index() as int;
        assert(state == given[place]);
        match failed_state(state) {
            Ok(state) => read.push(state),
            Err(error) => {
                assert(is_first_bad_state(given, place));
                return Err(error);
            },
        }
    }
    Ok(read)
}

/// Whether the lease of a task is among those that were renewed.
pub fn was_renewed(renewed: &Vec<TaskId>, task_id: TaskId) -> (result: bool)
    ensures
        result == renewed@.contains(task_id),
{
    let mut index: usize = 0;
    while index < renewed.len()
        invariant
            index <= renewed@.len(),
            forall|i: int| 0 <= i < index ==> (#[trigger] renewed@[i]) != task_id,
        decreases renewed@.len() - index,
    {
        if renewed[index] == task_id {
            return true;
        }
        index += 1;
    }
    false
}

/// Whether a task was cancelled, with its measurement. The answer names the queue and the task of
/// one that was.
pub fn cancelled(answer: &Option<(String, String)>) -> (result: (bool, Option<Measurement>))
    ensures
        result.0 == (answer is Some),
        match *answer {
            Some(task) => {
                &&& result.1 is Some
                &&& result.1->0@ == transition_reading("cancelled"@, task.0@, Some(task.1@), 1)
            },
            None => result.1 is None,
        },
{
    match answer {
        Some(task) => (true, Some(record_cancelled(task.0.as_str(), task.1.as_str()))),
        None => (false, None),
    }
}

/// How many expired leases were recovered, with a measurement when any was.
pub fn recovered(answer: i64, queue_name: &QueueName) -> (result: Result<
    (u64, Option<Measurement>),
    PostgresError,
>)
    ensures
        if answer < 0 {
            fails_with(result, Fault::InvalidTask(out_of_range_text()))
        } else {
            &&& result is Ok
            &&& result->Ok_0.0 == answer
            &&& if answer > 0 {
                &&& result->Ok_0.1 is Some
                &&& result->Ok_0.1->0@ == transition_reading(
                    "recovered"@,
                    queue_name@,
                    None,
                    answer as u64,
                )
            } else {
                result->Ok_0.1 is None
            }
        },
{
    match stored_count(answer) {
        Ok(count) => if count > 0 {
            Ok((count, Some(record_recovered(queue_name.as_str(), count))))
        } else {
            Ok((count, None))
        },
        Err(error) => Err(error),
    }
}

/// What waiting for the result of a task came to.
#[derive(Clone, Debug, PartialEq, Eq)]
pub enum TaskResultWait {
    Ready(TaskResult),
    NotFound,
    TimedOut,
}

/// What to do after looking at the result of a task.
#[derive(Debug, PartialEq, Eq)]
pub enum ResultLook {
    Return(TaskResultWait),
    KeepWaiting,
}

/// The first look at the result of a task, after its notifications are listened to.
pub fn first_look(result: Option<TaskResult>) -> (look: ResultLook)
    ensures
        look == match result {
            None => ResultLook::Return(TaskResultWait::NotFound),
            Some(outcome) => if is_terminal_state(outcome.state) {
                ResultLook::Return(TaskResultWait::Ready(outcome))
            } else {
                ResultLook::KeepWaiting
            },
        },
{
    match result {
        None => ResultLook::Return(TaskResultWait::NotFound),
        Some(outcome) => if outcome.state.is_terminal() {
            ResultLook::Return(TaskResultWait::Ready(outcome))
        } else {
            ResultLook::KeepWaiting
        },
    }
}

/// Whether a notification is about a task. One that is not calls for no look.
pub fn is_about_task(payload: &str, task_id: TaskId) -> (result: bool)
    ensures
        result == (payload@ == uuid_text(task_id.uuid.value)),
{
    same_text(payload, task_id.to_string().as_str())
}

/// The look at the result of a task after a notification. A task that was there does not go away.
pub fn next_look(result: Option<TaskResult>) -> (look: Result<ResultLook, PostgresError>)
    ensures
        match result {
            None => fails_with(
                look,
                Fault::InvalidTask("task disappeared while waiting for result"@),
            ),
            Some(outcome) => look == Ok::<_, PostgresError>(
                if is_terminal_state(outcome.state) {
                    ResultLook::Return(TaskResultWait::Ready(outcome))
                } else {
                    ResultLook::KeepWaiting
                },
            ),
        },
{
    match result {
        None => Err(PostgresError::invalid_task("task disappeared while waiting for result")),
        Some(outcome) => if outcome.state.is_terminal() {
            Ok(ResultLook::Return(TaskResultWait::Ready(outcome)))
        } else {
            Ok(ResultLook::KeepWaiting)
        },
    }
}

/// One pass over the due schedules: how many tasks they have become so far.
#[derive(Debug, PartialEq, Eq)]
pub struct ScheduleRun {
    total: u64,
}

/// How late the first occurrence of a plan is.
pub open spec fn plan_lag(materialization: Materialization, now: Timestamp) -> nat {
    if materialization.occurrences@.len() > 0 && materialization.occurrences@[0]@ <= now@ {
        (now@ - materialization.occurrences@[0]@) as nat
    } else {
        0
    }
}

/// Whether measurements say that `count` tasks were made of a plan, and how late the first was.
pub open spec fn are_plan_readings(
    recorded: Seq<Reading>,
    schedule: Schedule,
    materialization: Materialization,
    now: Timestamp,
    count: u64,
) -> bool {
    &&& recorded.len() == 3
    &&& recorded[2].amount matches Amount::Span(lag)
    &&& lag@ == plan_lag(materialization, now)
    &&& recorded == schedule_readings(
        schedule.config.task.queue_name@,
        schedule.config.task.task_name@,
        definition_kind(schedule.config.definition),
        count,
        materialization.skipped,
        lag,
    )
}

impl View for ScheduleRun {
    type V = nat;

    closed spec fn view(&self) -> nat {
        self.total as nat
    }
}

impl ScheduleRun {
    pub fn new() -> (result: Self)
        ensures
            result@ == 0,
    {
        ScheduleRun { total: 0 }
    }

    /// How many tasks the pass made.
    pub fn total(&self) -> (result: u64)
        ensures
            result == self@,
    {
        self.total
    }

    /// What one due schedule becomes at `now`.
    pub fn plan(&self, schedule: &Schedule, now: Timestamp) -> (result: Result<
        Materialization,
        PostgresError,
    >)
        ensures
            match materialization_outcome(
                schedule.config.definition,
                schedule.next_run_at@,
                now@,
                schedule.config.misfire_policy,
            ) {
                Ok(plan) => result is Ok && result->Ok_0@ == plan,
                Err(error) => result == Err::<Materialization, _>(PostgresError::Schedule(error)),
            },
    {
        match schedule.config.definition.materialize(
            schedule.next_run_at,
            now,
            schedule.config.misfire_policy,
        ) {
            Ok(materialization) => Ok(materialization),
            Err(error) => Err(PostgresError::Schedule(error)),
        }
    }

    /// Counts the tasks that one schedule became, with its measurements.
    pub fn record(
        &mut self,
        schedule: &Schedule,
        materialization: &Materialization,
        now: Timestamp,
        answer: i64,
    ) -> (result: (Result<(), PostgresError>, Vec<Measurement>))
        ensures
            if answer < 0 {
                &&& fails_with(result.0, Fault::InvalidTask(out_of_range_text()))
                &&& result.1@.len() == 0
                &&& final(self)@ == old(self)@
            } else {
                &&& are_plan_readings(
                    readings(result.1@),
                    *schedule,
                    *materialization,
                    now,
                    answer as u64,
                )
                &&& if old(self)@ + answer > u64::MAX {
                    &&& fails_with(
                        result.0,
                        Fault::InvalidTask("materialized task count overflowed"@),
                    )
                    &&& final(self)@ == old(self)@
                } else {
                    &&& result.0 is Ok
                    &&& final(self)@ == old(self)@ + answer
                }
            },
    {
        let count: u64 = match stored_count(answer) {
            Ok(count) => count,
            Err(error) => return (Err(error), Vec::new()),
        };
        let lag = if materialization.occurrences.len() > 0 {
            now.saturating_since(materialization.occurrences[0])
        } else {
            Duration::zero()
        };
        let measurements = record_schedule_occurrences(
            schedule.config.task.queue_name.as_str(),
            schedule.config.task.task_name.as_str(),
            schedule.config.definition.kind(),
            count,
            materialization.skipped,
            lag,
        );
        match self.total.checked_add(count) {
            Some(total) => {
                self.total = total;
                (Ok(()), measurements)
            },
            None => (
                Err(PostgresError::invalid_task("materialized task count overflowed")),
                measurements,
            ),
        }
    }
}

/// Each claimed task is measured once, with its own queue and name.
pub proof fn claims_are_measured_one_by_one(rows: Seq<TaskRow>)
    ensures
        claim_readings(rows).len() == rows.len(),
        forall|i: int|
            0 <= i < rows.len() ==> #[trigger] claim_readings(rows)[i] == transition_reading(
                "claimed"@,
                rows[i].queue_name@,
                Some(rows[i].task_name@),
                1,
            ),
{
}

/// A task that failed went to the state that the database names, and to none where it names none;
/// only a word that is no state is refused.
pub proof fn failed_tasks_go_where_the_database_says(
    state: Option<TaskState>,
    word: Option<String>,
)
    ensures
        is_optional_state(state, word) ==> {
            &&& state is Some <==> word is Some
            &&& state is Some ==> state_text(state->0) == word->0@
        },
        word is None ==> optional_state_fault(word) is None,
        word matches Some(text) ==> (optional_state_fault(word) is None <==> exists|known: TaskState|
            #[trigger] state_text(known) == text@),
{
    if word is Some {
        let text = word->0;
        if optional_state_fault(word) is None {
            assert(crate::rows::is_state_text(text@));
            let known = choose|known: TaskState| text@ == #[trigger] state_text(known);
            assert(state_text(known) == text@);
        }
    }
}

/// The lag of a plan runs from its first occurrence to now; it is measured with the tasks that were
/// made and the occurrences that were discarded, for the queue and the task of the schedule.
pub proof fn plans_are_measured_as_they_were_made(
    recorded: Seq<Reading>,
    schedule: Schedule,
    materialization: Materialization,
    now: Timestamp,
    count: u64,
)
    ensures
        materialization.occurrences@.len() == 0 ==> plan_lag(materialization, now) == 0,
        materialization.occurrences@.len() > 0 && materialization.occurrences@[0]@ <= now@
            ==> materialization.occurrences@[0]@ + plan_lag(materialization, now) == now@,
        materialization.occurrences@.len() > 0 && materialization.occurrences@[0]@ > now@
            ==> plan_lag(materialization, now) == 0,
        are_plan_readings(recorded, schedule, materialization, now, count) ==> exists|lag: Duration|
            lag@ == plan_lag(materialization, now) && recorded == #[trigger] schedule_readings(
                schedule.config.task.queue_name@,
                schedule.config.task.task_name@,
                definition_kind(schedule.config.definition),
                count,
                materialization.skipped,
                lag,
            ),
{
    if are_plan_readings(recorded, schedule, materialization, now, count) {
        let lag = recorded[2].amount->Span_0;
        assert(lag@ == plan_lag(materialization, now) && recorded == schedule_readings(
            schedule.config.task.queue_name@,
            schedule.config.task.task_name@,
            definition_kind(schedule.config.definition),
            count,
            materialization.skipped,
            lag,
        ));
    }
}

/// The first bad row is bad, and all before it are good; there are no two.
pub proof fn one_bad_row_is_the_first(
    rows: Seq<TaskRow>,
    states: Seq<Option<String>>,
    one: int,
    other: int,
)
    ensures
        is_first_bad_row(rows, one) ==> {
            &&& 0 <= one < rows.len() && task_fault(rows[one]) is Some
            &&& forall|i: int| 0 <= i < one ==> task_fault(#[trigger] rows[i]) is None
        },
        is_first_bad_state(states, one) ==> {
            &&& 0 <= one < states.len() && optional_state_fault(states[one]) is Some
            &&& forall|i: int| 0 <= i < one ==> optional_state_fault(#[trigger] states[i]) is None
        },
        is_first_bad_row(rows, one) && is_first_bad_row(rows, other) ==> one == other,
        is_first_bad_state(states, one) && is_first_bad_state(states, other) ==> one == other,
{
    if is_first_bad_row(rows, one) && is_first_bad_row(rows, other) {
        assert(!(other < one) && !(one < other));
    }
    if is_first_bad_state(states, one) && is_first_bad_state(states, other) {
        assert(!(other < one) && !(one < other));
    }
}

} // verus!
