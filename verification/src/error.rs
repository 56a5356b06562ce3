//! What can go wrong between the engine and PostgreSQL.

use vstd::prelude::*;
use vstd::string::StringExecFns;

use crate::schedule::{schedule_error_text, ScheduleError};
use crate::text::{decimal, decimal_text, signed_decimal, signed_decimal_text};

verus! {

/// The error code of a schema that does not exist.
pub const UNDEFINED_SCHEMA: &'static str = "3F000";

/// What a failed database operation reported.
#[derive(Debug, PartialEq, Eq)]
pub struct DatabaseFailure {
    pub code: Option<String>,
    pub message: String,
}

#[derive(Debug, PartialEq, Eq)]
pub enum PostgresError {
    Database(DatabaseFailure),
    Migration(String),
    InvalidTask(String),
    InvalidMaxAttempts,
    InvalidClaimLimit,
    InvalidRetentionLimit,
    InvalidLeaseDuration,
    MissingCapabilities,
    MissingQueues,
    InvalidHandlerVersion,
    InvalidScheduleLimit,
    InvalidSleepDuration,
    InvalidWaitLimit,
    InvalidResultWaitTimeout,
    InvalidRetryPolicy,
    Notification(String),
    InvalidStorageProtocolRange { minimum: i32, maximum: i32 },
    IncompatibleStorageProtocol {
        database_minimum: u32,
        database_maximum: u32,
        client_minimum: u32,
        client_maximum: u32,
    },
    Schedule(ScheduleError),
}

/// An error in the abstract, with its words as characters.
pub enum Fault {
    Database { code: Option<Seq<char>>, message: Seq<char> },
    Migration(Seq<char>),
    InvalidTask(Seq<char>),
    InvalidMaxAttempts,
    InvalidClaimLimit,
    InvalidRetentionLimit,
    InvalidLeaseDuration,
    MissingCapabilities,
    MissingQueues,
    InvalidHandlerVersion,
    InvalidScheduleLimit,
    InvalidSleepDuration,
    InvalidWaitLimit,
    InvalidResultWaitTimeout,
    InvalidRetryPolicy,
    Notification(Seq<char>),
    InvalidStorageProtocolRange { minimum: i32, maximum: i32 },
    IncompatibleStorageProtocol {
        database_minimum: u32,
        database_maximum: u32,
        client_minimum: u32,
        client_maximum: u32,
    },
    Schedule(ScheduleError),
}

/// The characters of a text that may be missing.
pub open spec fn optional_text(text: Option<String>) -> Option<Seq<char>> {
    match text {
        Some(text) => Some(text@),
        None => None,
    }
}

impl View for PostgresError {
    type V = Fault;

    open spec fn view(&self) -> Fault {
        match *self {
            PostgresError::Database(failure) => Fault::Database {
                code: optional_text(failure.code),
                message: failure.message@,
            },
            PostgresError::Migration(message) => Fault::Migration(message@),
            PostgresError::InvalidTask(message) => Fault::InvalidTask(message@),
            PostgresError::InvalidMaxAttempts => Fault::InvalidMaxAttempts,
            PostgresError::InvalidClaimLimit => Fault::InvalidClaimLimit,
            PostgresError::InvalidRetentionLimit => Fault::InvalidRetentionLimit,
            PostgresError::InvalidLeaseDuration => Fault::InvalidLeaseDuration,
            PostgresError::MissingCapabilities => Fault::MissingCapabilities,
            PostgresError::MissingQueues => Fault::MissingQueues,
            PostgresError::InvalidHandlerVersion => Fault::InvalidHandlerVersion,
            PostgresError::InvalidScheduleLimit => Fault::InvalidScheduleLimit,
            PostgresError::InvalidSleepDuration => Fault::InvalidSleepDuration,
            PostgresError::InvalidWaitLimit => Fault::InvalidWaitLimit,
            PostgresError::InvalidResultWaitTimeout => Fault::InvalidResultWaitTimeout,
            PostgresError::InvalidRetryPolicy => Fault::InvalidRetryPolicy,
            PostgresError::Notification(message) => Fault::Notification(message@),
            PostgresError::InvalidStorageProtocolRange {
                minimum,
                maximum,
            } => Fault::InvalidStorageProtocolRange { minimum, maximum },
            PostgresError::IncompatibleStorageProtocol {
                database_minimum,
                database_maximum,
                client_minimum,
                client_maximum,
            } => Fault::IncompatibleStorageProtocol {
                database_minimum,
                database_maximum,
                client_minimum,
                client_maximum,
            },
            PostgresError::Schedule(error) => Fault::Schedule(error),
        }
    }
}

/// The words that report an error.
pub open spec fn fault_text(fault: Fault) -> Seq<char> {
    match fault {
        Fault::Database { code, message } => "database operation failed: "@ + message,
        Fault::Migration(message) => "database migration failed: "@ + message,
        Fault::InvalidTask(message) => "invalid task data returned by Postgres: "@ + message,
        Fault::InvalidMaxAttempts => "max_attempts must be greater than zero"@,
        Fault::InvalidClaimLimit => "claim limit must be greater than zero"@,
        Fault::InvalidRetentionLimit => "retention limit must be greater than zero"@,
        Fault::InvalidLeaseDuration => "lease duration must be greater than zero"@,
        Fault::MissingCapabilities => "at least one handler capability is required"@,
        Fault::MissingQueues => "at least one queue is required"@,
        Fault::InvalidHandlerVersion => "handler version exceeds the Postgres integer range"@,
        Fault::InvalidScheduleLimit => "schedule claim limit must be greater than zero"@,
        Fault::InvalidSleepDuration => "sleep duration exceeds the PostgreSQL bigint range"@,
        Fault::InvalidWaitLimit => "wait recovery limit must be greater than zero"@,
        Fault::InvalidResultWaitTimeout =>
            "result wait timeout must be greater than zero and fit in the PostgreSQL bigint range"@,
        Fault::InvalidRetryPolicy => "retry policy values exceed the PostgreSQL integer range"@,
        Fault::Notification(message) => "notification listener failed: "@ + message,
        Fault::InvalidStorageProtocolRange {
            minimum,
            maximum,
        } => "invalid storage protocol range "@ + signed_decimal_text(minimum as int) + "..="@
            + signed_decimal_text(maximum as int) + " returned by Postgres"@,
        Fault::IncompatibleStorageProtocol {
            database_minimum,
            database_maximum,
            client_minimum,
            client_maximum,
        } => "database storage protocols "@ + decimal_text(database_minimum as nat) + "..="@
            + decimal_text(database_maximum as nat) + " are incompatible with client protocols "@
            + decimal_text(client_minimum as nat) + "..="@ + decimal_text(client_maximum as nat),
        Fault::Schedule(error) => schedule_error_text(error),
    }
}

/// A message behind what introduces it.
fn introduced(introduction: &str, message: &str) -> (result: String)
    ensures
        result@ == introduction@ + message@,
{
    let mut result = introduction.to_owned();
    result.append(message);
    result
}

impl PostgresError {
    /// An error of the kind that the stored data is invalid.
    pub fn invalid_task(message: &str) -> (result: Self)
        ensures
            result@ == Fault::InvalidTask(message@),
    {
        PostgresError::InvalidTask(message.to_owned())
    }

    /// The error in words.
    pub fn to_string(&self) -> (result: String)
        ensures
            result@ == fault_text(self@),
    {
        match self {
            PostgresError::Database(failure) => introduced(
                "database operation failed: ",
                failure.message.as_str(),
            ),
            PostgresError::Migration(message) => introduced(
                "database migration failed: ",
                message.as_str(),
            ),
            PostgresError::InvalidTask(message) => introduced(
                "invalid task data returned by Postgres: ",
                message.as_str(),
            ),
            PostgresError::InvalidMaxAttempts =>
                "max_attempts must be greater than zero".to_owned(),
            PostgresError::InvalidClaimLimit => "claim limit must be greater than zero".to_owned(),
            PostgresError::InvalidRetentionLimit =>
                "retention limit must be greater than zero".to_owned(),
            PostgresError::InvalidLeaseDuration =>
                "lease duration must be greater than zero".to_owned(),
            PostgresError::MissingCapabilities =>
                "at least one handler capability is required".to_owned(),
            PostgresError::MissingQueues => "at least one queue is required".to_owned(),
            PostgresError::InvalidHandlerVersion =>
                "handler version exceeds the Postgres integer range".to_owned(),
            PostgresError::InvalidScheduleLimit =>
                "schedule claim limit must be greater than zero".to_owned(),
            PostgresError::InvalidSleepDuration =>
                "sleep duration exceeds the PostgreSQL bigint range".to_owned(),
            PostgresError::InvalidWaitLimit =>
                "wait recovery limit must be greater than zero".to_owned(),
            PostgresError::InvalidResultWaitTimeout =>
                "result wait timeout must be greater than zero and fit in the PostgreSQL bigint range".to_owned(),
            PostgresError::InvalidRetryPolicy =>
                "retry policy values exceed the PostgreSQL integer range".to_owned(),
            PostgresError::Notification(message) => introduced(
                "notification listener failed: ",
                message.as_str(),
            ),
            PostgresError::InvalidStorageProtocolRange { minimum, maximum } => {
                let mut result = "invalid storage protocol range ".to_owned();
                let minimum_text = signed_decimal(*minimum as i64);
                result.append(minimum_text.as_str());
                result.append("..=");
                let maximum_text = signed_decimal(*maximum as i64);
                result.append(maximum_text.as_str());
                result.append(" returned by Postgres");
                result
            },
            PostgresError::IncompatibleStorageProtocol {
                database_minimum,
                database_maximum,
                client_minimum,
                client_maximum,
            } => {
                let mut result = "database storage protocols ".to_owned();
                let first = decimal(*database_minimum as u64);
                result.append(first.as_str());
                result.append("..=");
                let second = decimal(*database_maximum as u64);
                result.append(second.as_str());
                result.append(" are incompatible with client protocols ");
                let third = decimal(*client_minimum as u64);
                result.append(third.as_str());
                result.append("..=");
                let fourth = decimal(*client_maximum as u64);
                result.append(fourth.as_str());
                result
            },
            PostgresError::Schedule(error) => error.to_string(),
        }
    }
}

/// A fault that carries a message or numbers says them.
pub proof fn faults_carry_their_messages(
    code: Option<Seq<char>>,
    message: Seq<char>,
    minimum: i32,
    maximum: i32,
)
    ensures
        fault_text(Fault::InvalidStorageProtocolRange { minimum, maximum })
            == "invalid storage protocol range "@ + signed_decimal_text(minimum as int) + "..="@
            + signed_decimal_text(maximum as int) + " returned by Postgres"@,
        fault_text(Fault::Database { code, message }) == "database operation failed: "@ + message,
        fault_text(Fault::Migration(message)) == "database migration failed: "@ + message,
        fault_text(Fault::InvalidTask(message)) == "invalid task data returned by Postgres: "@
            + message,
        fault_text(Fault::Notification(message)) == "notification listener failed: "@ + message,
{
}

/// A fault without a message says what has to hold.
pub proof fn faults_say_what_has_to_hold()
    ensures
        fault_text(Fault::InvalidMaxAttempts) == "max_attempts must be greater than zero"@,
        fault_text(Fault::InvalidClaimLimit) == "claim limit must be greater than zero"@,
        fault_text(Fault::InvalidRetentionLimit) == "retention limit must be greater than zero"@,
        fault_text(Fault::InvalidLeaseDuration) == "lease duration must be greater than zero"@,
        fault_text(Fault::MissingCapabilities) == "at least one handler capability is required"@,
        fault_text(Fault::MissingQueues) == "at least one queue is required"@,
        fault_text(Fault::InvalidHandlerVersion)
            == "handler version exceeds the Postgres integer range"@,
        fault_text(Fault::InvalidScheduleLimit)
            == "schedule claim limit must be greater than zero"@,
        fault_text(Fault::InvalidSleepDuration)
            == "sleep duration exceeds the PostgreSQL bigint range"@,
        fault_text(Fault::InvalidWaitLimit) == "wait recovery limit must be greater than zero"@,
        fault_text(Fault::InvalidResultWaitTimeout)
            == "result wait timeout must be greater than zero and fit in the PostgreSQL bigint range"@,
        fault_text(Fault::InvalidRetryPolicy)
            == "retry policy values exceed the PostgreSQL integer range"@,
{
}

} // verus!
