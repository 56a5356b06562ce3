//! Handlers, how they fail, and what their durable steps come to.

use vstd::prelude::*;

use crate::error::{fault_text, PostgresError};
use crate::identifier::{HandlerVersion, TaskId, TaskName};
use crate::json::{is_text, Json, JsonObject};
use crate::retry::RetryPolicy;
use crate::rows::{ResultWait, SignalWait};
use crate::table::{Key, Table};
use crate::task::{Checkpoint, EnqueueResult};
use crate::text::same_text;
use crate::time::Timestamp;

verus! {

/// Whether a handler failed, or only stepped aside until it is woken.
#[derive(Clone, Copy, Debug, PartialEq, Eq, Structural)]
pub enum HandlerControl {
    Failure,
    Suspended,
}

/// How a handler ended without a result.
#[derive(Clone, Debug, PartialEq, Eq)]
pub struct HandlerError {
    pub error: Json,
    pub retryable: bool,
    pub control: HandlerControl,
}

/// Whether a value is an object that says what kind of error happened, and in words.
pub open spec fn is_error_report(value: Json, kind: Seq<char>, message: Seq<char>) -> bool {
    &&& value matches Json::Object(object)
    &&& object@.dom() == set!["type"@, "message"@]
    &&& is_text(object@["type"@], kind)
    &&& is_text(object@["message"@], message)
}

/// Whether a value is an object that says what kind of error happened, and nothing else.
pub open spec fn is_bare_report(value: Json, kind: Seq<char>) -> bool {
    &&& value matches Json::Object(object)
    &&& object@.dom() == set!["type"@]
    &&& is_text(object@["type"@], kind)
}

/// The report of an error.
pub fn error_report(kind: &str, message: String) -> (result: Json)
    ensures
        is_error_report(result, kind@, message@),
{
    proof {
        reveal_strlit("type");
        reveal_strlit("message");
        assert("type"@.len() != "message"@.len());
    }
    let object = JsonObject::new().with("type", Json::text(kind)).with(
        "message",
        Json::Text(message),
    );
    assert(object@.dom() =~= set!["type"@, "message"@]);
    Json::Object(object)
}

/// The report of an error that has no words.
pub fn bare_report(kind: &str) -> (result: Json)
    ensures
        is_bare_report(result, kind@),
{
    let object = JsonObject::new().with("type", Json::text(kind));
    assert(object@.dom() =~= set!["type"@]);
    Json::Object(object)
}

impl HandlerError {
    /// Whether the handler only stepped aside.
    pub open spec fn suspends(self) -> bool {
        self.control == HandlerControl::Suspended
    }

    /// Whether this says that the handler stepped aside.
    pub open spec fn is_suspension(self) -> bool {
        &&& is_bare_report(self.error, "suspended"@)
        &&& !self.retryable
        &&& self.suspends()
    }

    /// Whether this is a failure of some kind that another attempt may get past.
    pub open spec fn is_checkpoint_error(self, kind: Seq<char>, message: Seq<char>) -> bool {
        &&& is_error_report(self.error, kind, message)
        &&& self.retryable
        &&& !self.suspends()
    }

    /// Whether this is a failure that no attempt gets past.
    pub open spec fn is_terminal_error(self, message: Seq<char>) -> bool {
        &&& is_error_report(self.error, "handler_error"@, message)
        &&& !self.retryable
        &&& !self.suspends()
    }

    /// Whether this says that the lease is gone.
    pub open spec fn is_lease_lost(self) -> bool {
        self.is_checkpoint_error("lease_lost"@, "task lease is no longer active"@)
    }

    /// A failure that another attempt may get past.
    pub fn retryable(message: &str) -> (result: Self)
        ensures
            is_error_report(result.error, "handler_error"@, message@),
            result.retryable,
            !result.suspends(),
    {
        HandlerError {
            error: error_report("handler_error", message.to_owned()),
            retryable: true,
            control: HandlerControl::Failure,
        }
    }

    /// A failure that no attempt gets past.
    pub fn terminal(message: &str) -> (result: Self)
        ensures
            result.is_terminal_error(message@),
    {
        HandlerError {
            error: error_report("handler_error", message.to_owned()),
            retryable: false,
            control: HandlerControl::Failure,
        }
    }

    /// A failure of a durable step.
    pub fn checkpoint(kind: &str, message: String) -> (result: Self)
        ensures
            result.is_checkpoint_error(kind@, message@),
    {
        HandlerError {
            error: error_report(kind, message),
            retryable: true,
            control: HandlerControl::Failure,
        }
    }

    /// A handler that stepped aside.
    pub fn suspended() -> (result: Self)
        ensures
            result.is_suspension(),
    {
        HandlerError {
            error: bare_report("suspended"),
            retryable: false,
            control: HandlerControl::Suspended,
        }
    }

    fn lease_lost() -> (result: Self)
        ensures
            result.is_lease_lost(),
    {
        HandlerError::checkpoint("lease_lost", "task lease is no longer active".to_owned())
    }

    pub fn is_suspended(&self) -> (result: bool)
        ensures
            result == self.suspends(),
    {
        match self.control {
            HandlerControl::Suspended => true,
            HandlerControl::Failure => false,
        }
    }

    /// What a failed handler says in words.
    pub fn to_string(&self) -> (result: String)
        ensures
            result@ == "task handler failed"@,
    {
        "task handler failed".to_owned()
    }
}

/// Whether a step failed with an error of the database, reported under a kind.
pub open spec fn reports<T>(result: Result<T, HandlerError>, kind: Seq<char>, error: PostgresError) -> bool {
    result is Err && result->Err_0.is_checkpoint_error(kind, fault_text(error@))
}

/// Whether a step found its lease gone.
pub open spec fn lost_lease<T>(result: Result<T, HandlerError>) -> bool {
    result is Err && result->Err_0.is_lease_lost()
}

/// Whether a step stepped aside.
pub open spec fn steps_aside<T>(result: Result<T, HandlerError>) -> bool {
    result is Err && result->Err_0.is_suspension()
}

/// What a step does once its checkpoint has been looked up.
#[derive(Debug, PartialEq, Eq)]
pub enum StepDecision {
    /// The step ran before, with this value.
    Replay(Json),
    /// The step has to run.
    Run,
}

/// Whether a step may begin: not when its lease is gone.
pub fn begin_step(cancelled: bool) -> (result: Result<(), HandlerError>)
    ensures
        if cancelled {
            lost_lease(result)
        } else {
            result is Ok
        },
{
    if cancelled {
        return Err(HandlerError::lease_lost());
    }
    Ok(())
}

/// Decides on the checkpoint of a step. A step with a checkpoint does not run again.
pub fn look_up_step(read: Result<Option<Checkpoint>, PostgresError>) -> (result: Result<
    StepDecision,
    HandlerError,
>)
    ensures
        match read {
            Ok(Some(checkpoint)) => result == Ok::<_, HandlerError>(
                StepDecision::Replay(checkpoint.value),
            ),
            Ok(None) => result == Ok::<_, HandlerError>(StepDecision::Run),
            Err(error) => reports(result, "checkpoint_read_error"@, error),
        },
{
    match read {
        Ok(Some(checkpoint)) => Ok(StepDecision::Replay(checkpoint.value)),
        Ok(None) => Ok(StepDecision::Run),
        Err(error) => Err(HandlerError::checkpoint("checkpoint_read_error", error.to_string())),
    }
}

/// What a step returns once its checkpoint has been written: what is stored.
pub fn finish_step(written: Result<Option<Checkpoint>, PostgresError>) -> (result: Result<
    Json,
    HandlerError,
>)
    ensures
        match written {
            Ok(Some(checkpoint)) => result == Ok::<_, HandlerError>(checkpoint.value),
            Ok(None) => lost_lease(result),
            Err(error) => reports(result, "checkpoint_write_error"@, error),
        },
{
    match written {
        Ok(Some(checkpoint)) => Ok(checkpoint.value),
        Ok(None) => Err(HandlerError::lease_lost()),
        Err(error) => Err(HandlerError::checkpoint("checkpoint_write_error", error.to_string())),
    }
}

/// Whether a sleep is over: it has a checkpoint then.
pub fn checkpoint_exists(read: Result<Option<Checkpoint>, PostgresError>) -> (result: Result<
    bool,
    HandlerError,
>)
    ensures
        match read {
            Ok(checkpoint) => result == Ok::<_, HandlerError>(checkpoint is Some),
            Err(error) => reports(result, "checkpoint_read_error"@, error),
        },
{
    match read {
        Ok(checkpoint) => Ok(checkpoint.is_some()),
        Err(error) => Err(HandlerError::checkpoint("checkpoint_read_error", error.to_string())),
    }
}

/// What a sleep comes to that has been written: the handler steps aside.
pub fn finish_sleep(written: Result<Option<Timestamp>, PostgresError>) -> (result: Result<
    (),
    HandlerError,
>)
    ensures
        match written {
            Ok(Some(_)) => steps_aside(result),
            Ok(None) => lost_lease(result),
            Err(error) => reports(result, "sleep_write_error"@, error),
        },
{
    match written {
        Ok(Some(_)) => Err(HandlerError::suspended()),
        Ok(None) => Err(HandlerError::lease_lost()),
        Err(error) => Err(HandlerError::checkpoint("sleep_write_error", error.to_string())),
    }
}

/// What the checkpoint of a wait for a signal says: the value of the signal, or that there was
/// none in time.
pub open spec fn signal_outcome(checkpoint: Json) -> Result<Option<Json>, Seq<char>> {
    match checkpoint {
        Json::Object(object) => if object@.dom().contains("outcome"@) && is_text(
            object@["outcome"@],
            "signal"@,
        ) {
            if object@.dom().contains("value"@) {
                Ok(Some(object@["value"@]))
            } else {
                Err("signal checkpoint has no value"@)
            }
        } else if object@.dom().contains("outcome"@) && is_text(object@["outcome"@], "timeout"@) {
            Ok(None)
        } else {
            Err("signal checkpoint has an invalid outcome"@)
        },
        _ => Err("signal checkpoint is not an object"@),
    }
}

/// Whether a result is what the checkpoint of a wait for a signal says.
pub open spec fn is_signal_outcome(result: Result<Option<Json>, HandlerError>, checkpoint: Json) -> bool {
    match signal_outcome(checkpoint) {
        Ok(value) => result == Ok::<_, HandlerError>(value),
        Err(message) => result is Err && result->Err_0.is_terminal_error(message),
    }
}

/// Reads the checkpoint of a wait for a signal.
pub fn decode_signal_checkpoint(checkpoint: Json) -> (result: Result<Option<Json>, HandlerError>)
    ensures
        is_signal_outcome(result, checkpoint),
{
    proof {
        reveal_strlit("signal");
        reveal_strlit("timeout");
        assert("signal"@.len() != "timeout"@.len());
    }
    let object = match checkpoint.into_object() {
        Some(object) => object,
        None => return Err(HandlerError::terminal("signal checkpoint is not an object")),
    };
    let (signalled, timed_out) = match object.get("outcome") {
        Some(outcome) => match outcome.as_str() {
            Some(text) => (same_text(text, "signal"), same_text(text, "timeout")),
            None => (false, false),
        },
        None => (false, false),
    };
    if signalled {
        match object.take("value") {
            Some(value) => Ok(Some(value)),
            None => Err(HandlerError::terminal("signal checkpoint has no value")),
        }
    } else if timed_out {
        Ok(None)
    } else {
        Err(HandlerError::terminal("signal checkpoint has an invalid outcome"))
    }
}

/// What a wait for a signal comes to.
pub fn finish_signal_wait(waited: Result<Option<SignalWait>, PostgresError>) -> (result: Result<
    Option<Json>,
    HandlerError,
>)
    ensures
        match waited {
            Ok(Some(SignalWait::Ready(checkpoint))) => is_signal_outcome(result, checkpoint),
            Ok(Some(SignalWait::Waiting)) => steps_aside(result),
            Ok(None) => lost_lease(result),
            Err(error) => reports(result, "signal_wait_error"@, error),
        },
{
    match waited {
        Ok(Some(SignalWait::Ready(checkpoint))) => decode_signal_checkpoint(checkpoint),
        Ok(Some(SignalWait::Waiting)) => Err(HandlerError::suspended()),
        Ok(None) => Err(HandlerError::lease_lost()),
        Err(error) => Err(HandlerError::checkpoint("signal_wait_error", error.to_string())),
    }
}

/// What a wait for the result of another task comes to.
pub fn finish_result_wait(waited: Result<Option<ResultWait>, PostgresError>) -> (result: Result<
    Json,
    HandlerError,
>)
    ensures
        match waited {
            Ok(Some(ResultWait::Ready(checkpoint))) => result == Ok::<_, HandlerError>(checkpoint),
            Ok(Some(ResultWait::Waiting)) => steps_aside(result),
            Ok(None) => lost_lease(result),
            Err(error) => reports(result, "result_wait_error"@, error),
        },
{
    match waited {
        Ok(Some(ResultWait::Ready(checkpoint))) => Ok(checkpoint),
        Ok(Some(ResultWait::Waiting)) => Err(HandlerError::suspended()),
        Ok(None) => Err(HandlerError::lease_lost()),
        Err(error) => Err(HandlerError::checkpoint("result_wait_error", error.to_string())),
    }
}

/// What the creation of a child task comes to.
pub fn finish_spawn(spawned: Result<Option<EnqueueResult>, PostgresError>) -> (result: Result<
    TaskId,
    HandlerError,
>)
    ensures
        match spawned {
            Ok(Some(child)) => result == Ok::<_, HandlerError>(child.task_id),
            Ok(None) => lost_lease(result),
            Err(error) => reports(result, "child_spawn_error"@, error),
        },
{
    match spawned {
        Ok(Some(child)) => Ok(child.task_id),
        Ok(None) => Err(HandlerError::lease_lost()),
        Err(error) => Err(HandlerError::checkpoint("child_spawn_error", error.to_string())),
    }
}

/// What a handler is found by.
#[derive(Debug, PartialEq, Eq)]
pub struct HandlerKey {
    pub task_name: TaskName,
    pub handler_version: HandlerVersion,
}

impl Key for HandlerKey {
    type Id = (Seq<char>, u32);

    open spec fn id(&self) -> (Seq<char>, u32) {
        (self.task_name@, self.handler_version@)
    }

    fn same(&self, other: &Self) -> (result: bool) {
        self.task_name.same(&other.task_name) && self.handler_version.get()
            == other.handler_version.get()
    }
}

/// A handler with the retry policy for tasks that have none of their own.
#[derive(Clone, Debug, PartialEq, Eq)]
pub struct RegisteredHandler<H> {
    pub function: H,
    pub retry_policy: RetryPolicy,
}

/// The handlers of a worker by task and version.
#[derive(Debug)]
pub struct HandlerRegistry<H> {
    handlers: Table<HandlerKey, RegisteredHandler<H>>,
}

impl<H> View for HandlerRegistry<H> {
    type V = Map<(Seq<char>, u32), RegisteredHandler<H>>;

    closed spec fn view(&self) -> Map<(Seq<char>, u32), RegisteredHandler<H>> {
        self.handlers@
    }
}

/// What handlers are found by.
pub open spec fn capability_ids(
    capabilities: Seq<(TaskName, HandlerVersion)>,
) -> Seq<(Seq<char>, u32)> {
    capabilities.map_values(
        |capability: (TaskName, HandlerVersion)| (capability.0@, capability.1@),
    )
}

/// What registered handlers are found by.
pub open spec fn registration_ids(
    registrations: Seq<(TaskName, HandlerVersion, RetryPolicy)>,
) -> Seq<(Seq<char>, u32)> {
    registrations.map_values(
        |registration: (TaskName, HandlerVersion, RetryPolicy)|
            (registration.0@, registration.1@),
    )
}

impl<H> Default for HandlerRegistry<H> {
    fn default() -> (result: Self)
        ensures
            result@ == Map::<(Seq<char>, u32), RegisteredHandler<H>>::empty(),
    {
        HandlerRegistry::new()
    }
}

impl<H> HandlerRegistry<H> {
    /// No handler.
    pub fn new() -> (result: Self)
        ensures
            result@ == Map::<(Seq<char>, u32), RegisteredHandler<H>>::empty(),
    {
        HandlerRegistry { handlers: Table::new() }
    }

    /// Registers a handler in place of the one that there was; whether there was none.
    pub fn register(
        &mut self,
        task_name: TaskName,
        handler_version: HandlerVersion,
        retry_policy: RetryPolicy,
        function: H,
    ) -> (result: bool)
        ensures
            final(self)@ == old(self)@.insert(
                (task_name@, handler_version@),
                RegisteredHandler { function, retry_policy },
            ),
            result == !old(self)@.dom().contains((task_name@, handler_version@)),
    {
        self.handlers.insert(
            HandlerKey { task_name, handler_version },
            RegisteredHandler { function, retry_policy },
        )
    }

    /// Registers a handler that takes durable steps; `function` is handed their context.
    pub fn register_durable(
        &mut self,
        task_name: TaskName,
        handler_version: HandlerVersion,
        retry_policy: RetryPolicy,
        function: H,
    ) -> (result: bool)
        ensures
            final(self)@ == old(self)@.insert(
                (task_name@, handler_version@),
                RegisteredHandler { function, retry_policy },
            ),
            result == !old(self)@.dom().contains((task_name@, handler_version@)),
    {
        self.register(task_name, handler_version, retry_policy, function)
    }

    /// What the handlers are found by, each once.
    pub fn capabilities(&self) -> (result: Vec<(TaskName, HandlerVersion)>)
        ensures
            capability_ids(result@).no_duplicates(),
            capability_ids(result@).to_set() == self@.dom(),
    {
        let count: usize = self.handlers.len();
        let mut capabilities: Vec<(TaskName, HandlerVersion)> = Vec::new();
        let mut index: usize = 0;
        assert(capability_ids(capabilities@) =~= self.handlers.keys().take(0));
        while index < count
            invariant
                index <= count,
                count == self.handlers.keys().len(),
                capability_ids(capabilities@) == self.handlers.keys().take(index as int),
            decreases count - index,
        {
            let ghost before = capabilities@;
            let key = self.handlers.entry(index).0;
            capabilities.push((key.task_name.clone(), key.handler_version));
            assert(capability_ids(capabilities@) =~= capability_ids(before).push(key.id()));
            assert(self.handlers.keys().take(index + 1) =~= self.handlers.keys().take(
                index as int,
            ).push(self.handlers.keys()[index as int]));
            index += 1;
        }
        assert(self.handlers.keys().take(count as int) =~= self.handlers.keys());
        capabilities
    }

    /// What the handlers are found by, each once and with its retry policy.
    pub fn registrations(&self) -> (result: Vec<(TaskName, HandlerVersion, RetryPolicy)>)
        ensures
            registration_ids(result@).no_duplicates(),
            registration_ids(result@).to_set() == self@.dom(),
            forall|i: int|
                0 <= i < result@.len() ==> (#[trigger] result@[i]).2
                    == self@[registration_ids(result@)[i]].retry_policy,
    {
        let count: usize = self.handlers.len();
        let mut registrations: Vec<(TaskName, HandlerVersion, RetryPolicy)> = Vec::new();
        let mut index: usize = 0;
        assert(registration_ids(registrations@) =~= self.handlers.keys().take(0));
        while index < count
            invariant
                index <= count,
                count == self.handlers.keys().len(),
                registrations@.len() == index,
                registration_ids(registrations@) == self.handlers.keys().take(index as int),
                forall|i: int|
                    0 <= i < index ==> (#[trigger] registrations@[i]).2
                        == self@[registration_ids(registrations@)[i]].retry_policy,
            decreases count - index,
        {
            let ghost before = registrations@;
            let (key, handler) = self.handlers.entry(index);
            registrations.push((key.task_name.clone(), key.handler_version, handler.retry_policy));
            assert(registration_ids(registrations@) =~= registration_ids(before).push(key.id()));
            assert(self.handlers.keys().take(index + 1) =~= self.handlers.keys().take(
                index as int,
            ).push(self.handlers.keys()[index as int]));
            assert forall|i: int| 0 <= i < index + 1 implies (#[trigger] registrations@[i]).2
                == self@[registration_ids(registrations@)[i]].retry_policy by {
                if i < index {
                    assert(before[i].2 == self@[registration_ids(before)[i]].retry_policy);
                }
            }
            index += 1;
        }
        assert(self.handlers.keys().take(count as int) =~= self.handlers.keys());
        registrations
    }

    /// The handler of a task.
    pub fn get(&self, task_name: &TaskName, handler_version: HandlerVersion) -> (result: Option<
        &RegisteredHandler<H>,
    >)
        ensures
            match result {
                Some(handler) => self@.dom().contains((task_name@, handler_version@)) && *handler
                    == self@[(task_name@, handler_version@)],
                None => !self@.dom().contains((task_name@, handler_version@)),
            },
    {
        let key = HandlerKey { task_name: task_name.clone(), handler_version };
        self.handlers.get(&key)
    }
}

/// A report says what kind of error happened and, where there are words, the words; a bare report
/// says nothing but the kind.
pub proof fn reports_name_their_kind(value: Json, kind: Seq<char>, message: Seq<char>)
    ensures
        is_error_report(value, kind, message) ==> (value matches Json::Object(object) && {
            &&& object@.dom().contains("type"@)
            &&& object@["type"@] matches Json::Text(word) && word@ == kind
        }) && (value matches Json::Object(object) && {
            &&& object@.dom().contains("message"@)
            &&& object@["message"@] matches Json::Text(words) && words@ == message
        }),
        is_bare_report(value, kind) ==> (value matches Json::Object(object) && {
            &&& object@.dom().contains("type"@)
            &&& !object@.dom().contains("message"@)
            &&& object@["type"@] matches Json::Text(word) && word@ == kind
        }),
{
    reveal_strlit("type");
    reveal_strlit("message");
    assert("type"@.len() != "message"@.len());
}

/// A step whose lease is gone, or whose statement failed, fails so that another attempt may get past
/// it, and says why; a step that steps aside does not fail.
pub proof fn steps_fail_for_another_attempt<T>(
    result: Result<T, HandlerError>,
    kind: Seq<char>,
    error: PostgresError,
)
    ensures
        lost_lease(result) ==> result is Err && result->Err_0.retryable && result->Err_0.control
            == HandlerControl::Failure && is_error_report(
            result->Err_0.error,
            "lease_lost"@,
            "task lease is no longer active"@,
        ),
        reports(result, kind, error) ==> result is Err && result->Err_0.retryable
            && result->Err_0.control == HandlerControl::Failure && is_error_report(
            result->Err_0.error,
            kind,
            fault_text(error@),
        ),
        steps_aside(result) ==> result is Err && !result->Err_0.retryable && result->Err_0.control
            == HandlerControl::Suspended && is_bare_report(result->Err_0.error, "suspended"@),
        result matches Err(failure) ==> failure.suspends() == (failure.control
            == HandlerControl::Suspended),
{
}

/// A wait for a signal gives the value of the signal exactly when its checkpoint says that one came
/// and holds its value, nothing when it says that the time ran out, and fails for good otherwise.
pub proof fn signals_are_what_their_checkpoint_says(
    checkpoint: Json,
    result: Result<Option<Json>, HandlerError>,
)
    requires
        is_signal_outcome(result, checkpoint),
    ensures
        result matches Ok(Some(value)) ==> (checkpoint matches Json::Object(object)
            && object@.dom().contains("outcome"@) && is_text(object@["outcome"@], "signal"@)
            && object@.dom().contains("value"@) && object@["value"@] == value),
        result matches Ok(None) ==> (checkpoint matches Json::Object(object)
            && object@.dom().contains("outcome"@) && is_text(object@["outcome"@], "timeout"@)),
        (checkpoint matches Json::Object(object) && object@.dom().contains("outcome"@) && is_text(
            object@["outcome"@],
            "signal"@,
        ) && object@.dom().contains("value"@)) ==> result is Ok && result->Ok_0 is Some,
        (checkpoint matches Json::Object(object) && object@.dom().contains("outcome"@) && is_text(
            object@["outcome"@],
            "timeout"@,
        )) ==> result is Ok && result->Ok_0 is None,
        result matches Err(error) ==> !error.retryable && error.control == HandlerControl::Failure,
{
    reveal_strlit("signal");
    reveal_strlit("timeout");
    assert("signal"@.len() != "timeout"@.len());
}

/// Handlers are found by the name and the version that they are registered with, in their order.
pub proof fn handlers_are_found_by_name_and_version(
    capabilities: Seq<(TaskName, HandlerVersion)>,
    registrations: Seq<(TaskName, HandlerVersion, RetryPolicy)>,
)
    ensures
        capability_ids(capabilities).len() == capabilities.len(),
        registration_ids(registrations).len() == registrations.len(),
        forall|i: int|
            0 <= i < capabilities.len() ==> #[trigger] capability_ids(capabilities)[i] == (
                capabilities[i].0@,
                capabilities[i].1@,
            ),
        forall|i: int|
            0 <= i < registrations.len() ==> #[trigger] registration_ids(registrations)[i] == (
                registrations[i].0@,
                registrations[i].1@,
            ),
{
}

/// A failed handler is tried again unless it says otherwise; one that steps aside has not failed.
pub proof fn handler_errors_say_whether_to_retry(
    error: HandlerError,
    kind: Seq<char>,
    message: Seq<char>,
)
    ensures
        error.is_suspension() ==> !error.retryable && error.control == HandlerControl::Suspended
            && is_bare_report(error.error, "suspended"@),
        error.is_checkpoint_error(kind, message) ==> error.retryable && error.control
            != HandlerControl::Suspended && is_error_report(error.error, kind, message),
        error.is_terminal_error(message) ==> !error.retryable && error.control
            != HandlerControl::Suspended && is_error_report(error.error, "handler_error"@, message),
        error.is_lease_lost() ==> error.retryable && is_error_report(
            error.error,
            "lease_lost"@,
            "task lease is no longer active"@,
        ),
{
}

/// A report has its own members and no other.
pub proof fn reports_say_nothing_else(
    value: Json,
    kind: Seq<char>,
    message: Seq<char>,
    name: Seq<char>,
)
    requires
        value is Object,
        value->Object_0@.dom().contains(name),
    ensures
        is_error_report(value, kind, message) ==> name == "type"@ || name == "message"@,
        is_bare_report(value, kind) ==> name == "type"@,
{
}

/// A checkpoint of a wait for a signal that makes no sense fails the task for good, and says why.
pub proof fn senseless_checkpoints_say_why(
    checkpoint: Json,
    result: Result<Option<Json>, HandlerError>,
)
    requires
        is_signal_outcome(result, checkpoint),
    ensures
        !(checkpoint is Object) ==> result is Err && is_error_report(
            result->Err_0.error,
            "handler_error"@,
            "signal checkpoint is not an object"@,
        ),
        (checkpoint matches Json::Object(object) && object@.dom().contains("outcome"@) && is_text(
            object@["outcome"@],
            "signal"@,
        ) && !object@.dom().contains("value"@)) ==> result is Err && is_error_report(
            result->Err_0.error,
            "handler_error"@,
            "signal checkpoint has no value"@,
        ),
        (checkpoint matches Json::Object(object) && !(object@.dom().contains("outcome"@) && (
        is_text(object@["outcome"@], "signal"@) || is_text(object@["outcome"@], "timeout"@))))
            ==> result is Err && is_error_report(
            result->Err_0.error,
            "handler_error"@,
            "signal checkpoint has an invalid outcome"@,
        ),
{
}

} // verus!
