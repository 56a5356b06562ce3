//! What a binding to another language checks and reports.

use vstd::prelude::*;
use vstd::string::StringExecFns;

use crate::identifier::HandlerVersion;
use crate::json::Json;
use crate::number::{NonZeroU16, NonZeroU32};
use crate::registry::{is_error_report, HandlerError};
use crate::retry::RetryPolicy;
use crate::store::{Connections, StoreConfig};
use crate::time::{parts_exist, Duration, Timestamp, NANOS_PER_SEC};

verus! {

/// The configuration of a store, or what is wrong with it.
pub fn store_config(
    database_url: &str,
    listener_url: Option<&str>,
    max_query_connections: u32,
    max_listener_connections: u32,
) -> (result: Result<StoreConfig, String>)
    ensures
        if max_query_connections == 0 {
            result is Err && result->Err_0@ == "max_query_connections must be positive"@
        } else if max_listener_connections == 0 {
            result is Err && result->Err_0@ == "max_listener_connections must be positive"@
        } else {
            result is Ok && result->Ok_0@ == (Connections {
                database_url: database_url@,
                listener_url: match listener_url {
                    Some(url) => url@,
                    None => database_url@,
                },
                query_connections: max_query_connections,
                listener_connections: max_listener_connections,
            })
        },
{
    let queries = match NonZeroU32::new(max_query_connections) {
        Some(number) => number,
        None => return Err("max_query_connections must be positive".to_owned()),
    };
    let listeners = match NonZeroU32::new(max_listener_connections) {
        Some(number) => number,
        None => return Err("max_listener_connections must be positive".to_owned()),
    };
    let config = StoreConfig::new(database_url).with_query_connections(
        queries,
    ).with_listener_connections(listeners);
    match listener_url {
        Some(url) => Ok(config.with_listener_url(url)),
        None => Ok(config),
    }
}

/// The concurrency of a worker, which is above zero.
pub fn worker_concurrency(concurrency: u16) -> (result: Result<NonZeroU16, String>)
    ensures
        if concurrency == 0 {
            result is Err && result->Err_0@ == "concurrency must be positive"@
        } else {
            result is Ok && result->Ok_0@ == concurrency
        },
{
    match NonZeroU16::new(concurrency) {
        Some(number) => Ok(number),
        None => Err("concurrency must be positive".to_owned()),
    }
}

/// The retry policy of a handler: a fixed delay, or none.
pub fn handler_policy(retry_delay: Option<Duration>) -> (result: RetryPolicy)
    ensures
        result == match retry_delay {
            Some(delay) => RetryPolicy::Fixed { delay },
            None => RetryPolicy::Never,
        },
{
    match retry_delay {
        Some(delay) => RetryPolicy::Fixed { delay },
        None => RetryPolicy::Never,
    }
}

/// The version of a handler, which is above zero.
pub fn handler_version(version: u32) -> (result: Result<HandlerVersion, String>)
    ensures
        if version == 0 {
            result is Err && result->Err_0@ == "handler_version must be positive"@
        } else {
            result is Ok && result->Ok_0@ == version
        },
{
    match NonZeroU32::new(version) {
        Some(number) => Ok(HandlerVersion::new(number)),
        None => Err("handler_version must be positive".to_owned()),
    }
}

/// Whether a worker can run: it has a handler.
pub fn check_handlers(count: usize) -> (result: Result<(), String>)
    ensures
        if count == 0 {
            result is Err && result->Err_0@ == "at least one handler must be registered"@
        } else {
            result is Ok
        },
{
    if count == 0 {
        return Err("at least one handler must be registered".to_owned());
    }
    Ok(())
}

/// How an error of a handler is raised: as a suspension, or as a failure in words.
#[derive(Debug, PartialEq, Eq)]
pub enum Raised {
    Suspended,
    Failed(String),
}

/// The words of an error: its message, where it has one.
pub open spec fn error_message(error: Json) -> Seq<char> {
    match error {
        Json::Object(object) => if object@.dom().contains("message"@) {
            match object@["message"@] {
                Json::Text(message) => message@,
                _ => "task handler failed"@,
            }
        } else {
            "task handler failed"@
        },
        _ => "task handler failed"@,
    }
}

pub fn handler_error(error: &HandlerError) -> (result: Raised)
    ensures
        if error.suspends() {
            result == Raised::Suspended
        } else {
            result matches Raised::Failed(message) && message@ == error_message(error.error)
        },
{
    if error.is_suspended() {
        return Raised::Suspended;
    }
    match error.error.get("message") {
        Some(value) => match value.as_str() {
            Some(message) => Raised::Failed(message.to_owned()),
            None => Raised::Failed("task handler failed".to_owned()),
        },
        None => Raised::Failed("task handler failed".to_owned()),
    }
}

/// How a handler of another language ended: whether it raised a suspension, and what else it said.
pub fn raised_error(suspended: bool, message: &str) -> (result: HandlerError)
    ensures
        if suspended {
            result.is_suspension()
        } else {
            &&& is_error_report(result.error, "handler_error"@, message@)
            &&& result.retryable
            &&& !result.suspends()
        },
{
    if suspended {
        HandlerError::suspended()
    } else {
        HandlerError::retryable(message)
    }
}

/// The failure of a handler, or of a step, that returned what is no JSON.
pub fn invalid_json(step: bool, message: &str) -> (result: HandlerError)
    ensures
        result.is_terminal_error(
            if step {
                "step returned invalid JSON: "@ + message@
            } else {
                "handler returned invalid JSON: "@ + message@
            },
        ),
{
    let mut text = if step {
        "step returned invalid JSON: ".to_owned()
    } else {
        "handler returned invalid JSON: ".to_owned()
    };
    text.append(message);
    HandlerError::terminal(text.as_str())
}

/// What `chrono` reads from a text: an instant, as seconds from the Unix epoch and the nanoseconds
/// after, or the words of why the text is none.
pub uninterp spec fn instant_parse(text: Seq<char>) -> Result<(i64, u32), Seq<char>>;

/// Parses a text as a `chrono::DateTime<Utc>`, and puts the error in words. What it reads is an
/// instant, of the calendar or of a leap second. Which texts it accepts, which instants they stand
/// for, and what it says of the others, stays unsaid.
#[verifier::external_body]
fn parse_instant(text: &str) -> (result: Result<(i64, u32), String>)
    ensures
        match result {
            Ok(parts) => instant_parse(text@) == Ok::<(i64, u32), Seq<char>>(parts),
            Err(message) => instant_parse(text@) == Err::<(i64, u32), Seq<char>>(message@),
        },
        result matches Ok(parts) ==> parts_exist(parts.0, parts.1),
{
    match text.parse::<chrono::DateTime<chrono::Utc>>() {
        Ok(parsed) => Ok((parsed.timestamp(), parsed.timestamp_subsec_nanos())),
        Err(error) => Err(error.to_string()),
    }
}

/// The instant at which a sleeping task wants to be woken, as a handler of another language writes
/// it.
pub fn wake_instant(text: &str) -> (result: Result<Timestamp, String>)
    ensures
        match instant_parse(text@) {
            Ok((secs, nanos)) => result is Ok && result->Ok_0@ == secs * NANOS_PER_SEC + nanos,
            Err(words) => result is Err && result->Err_0@ == words,
        },
{
    match parse_instant(text) {
        Ok((secs, nanos)) => Ok(Timestamp::from_parts(secs, nanos).unwrap()),
        Err(message) => Err(message),
    }
}

/// An error's message is the text under that name, where there is one.
pub proof fn errors_are_told_by_their_message(object: crate::json::JsonObject, message: String, other: Json)
    ensures
        object@.dom().contains("message"@) && object@["message"@] == Json::Text(message)
            ==> error_message(Json::Object(object)) == message@,
        !(object@.dom().contains("message"@) && object@["message"@] is Text) ==> error_message(
            Json::Object(object),
        ) == "task handler failed"@,
        !(other is Object) ==> error_message(other) == "task handler failed"@,
{
}

} // verus!
