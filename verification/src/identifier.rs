//! Names and identifiers.

use vstd::prelude::*;
use vstd::string::StringExecFns;
use vstd::utf8::encode_utf8;

use crate::number::NonZeroU32;
use crate::text::{char_debug, char_debug_text, decimal, decimal_text};
use crate::unique::{is_version_seven, parses_to, uuid_parse, uuid_text, Uuid, UuidError};

verus! {

pub const MAX_QUEUE_NAME_BYTES: usize = 128;

pub const MAX_TASK_NAME_BYTES: usize = 255;

/// Why a text is not a name.
#[derive(Clone, Copy, Debug, PartialEq, Eq)]
pub enum NameError {
    Empty { kind: &'static str },
    TooLong { kind: &'static str, maximum: usize, actual: usize },
    UnsupportedCharacter { kind: &'static str, character: char },
}

/// The words that report a name error.
pub open spec fn name_error_text(error: NameError) -> Seq<char> {
    match error {
        NameError::Empty { kind } => kind@ + " must not be empty"@,
        NameError::TooLong { kind, maximum, actual } => kind@ + " must be at most "@ + decimal_text(
            maximum as nat,
        ) + " bytes, got "@ + decimal_text(actual as nat),
        NameError::UnsupportedCharacter { kind, character } => kind@
            + " contains unsupported character "@ + char_debug_text(character),
    }
}

impl NameError {
    /// The error in words.
    pub fn to_string(&self) -> (result: String)
        ensures
            result@ == name_error_text(*self),
    {
        match self {
            NameError::Empty { kind } => {
                let mut result = (*kind).to_owned();
                result.append(" must not be empty");
                result
            },
            NameError::TooLong { kind, maximum, actual } => {
                let mut result = (*kind).to_owned();
                result.append(" must be at most ");
                let maximum_text = decimal(*maximum as u64);
                result.append(maximum_text.as_str());
                result.append(" bytes, got ");
                let actual_text = decimal(*actual as u64);
                result.append(actual_text.as_str());
                result
            },
            NameError::UnsupportedCharacter { kind, character } => {
                let mut result = (*kind).to_owned();
                result.append(" contains unsupported character ");
                let shown = char_debug(*character);
                result.append(shown.as_str());
                result
            },
        }
    }
}

/// The characters that a name may hold: ASCII letters and digits, and `.`, `_`, `:` and `-`.
pub open spec fn is_name_char(character: char) -> bool {
    ||| 'a' <= character <= 'z'
    ||| 'A' <= character <= 'Z'
    ||| '0' <= character <= '9'
    ||| character == '.'
    ||| character == '_'
    ||| character == ':'
    ||| character == '-'
}

/// A text of at least one character and at most `maximum` bytes.
pub open spec fn is_bounded_text(value: Seq<char>, maximum: usize) -> bool {
    0 < value.len() && encode_utf8(value).len() <= maximum
}

/// A bounded text of name characters only.
pub open spec fn is_name(value: Seq<char>, maximum: usize) -> bool {
    is_bounded_text(value, maximum) && forall|i: int|
        0 <= i < value.len() ==> is_name_char(#[trigger] value[i])
}

/// Whether the character at `place` is the first that a name may not hold.
pub open spec fn is_first_unsupported(value: Seq<char>, place: int) -> bool {
    &&& 0 <= place < value.len()
    &&& !is_name_char(value[place])
    &&& forall|i: int| 0 <= i < place ==> is_name_char(#[trigger] value[i])
}

/// Where the first character is that a name may not hold.
pub open spec fn first_unsupported(value: Seq<char>) -> int {
    choose|place: int| is_first_unsupported(value, place)
}

/// What is wrong with the bounds of a text: emptiness comes first, then length.
pub open spec fn bounds_error(value: Seq<char>, kind: &'static str, maximum: usize) -> Option<
    NameError,
> {
    if value.len() == 0 {
        Some(NameError::Empty { kind })
    } else if encode_utf8(value).len() > maximum {
        Some(NameError::TooLong { kind, maximum, actual: encode_utf8(value).len() as usize })
    } else {
        None
    }
}

/// What is wrong with a name: first its bounds, then the first character that does not belong.
pub open spec fn name_error(value: Seq<char>, kind: &'static str, maximum: usize) -> Option<
    NameError,
> {
    if !is_bounded_text(value, maximum) {
        bounds_error(value, kind, maximum)
    } else if is_name(value, maximum) {
        None
    } else {
        Some(NameError::UnsupportedCharacter { kind, character: value[first_unsupported(value)] })
    }
}

/// Checks the bounds of a text.
pub fn validate_bounds(value: &str, kind: &'static str, maximum: usize) -> (result: Result<
    (),
    NameError,
>)
    ensures
        result is Ok <==> is_bounded_text(value@, maximum),
        match bounds_error(value@, kind, maximum) {
            Some(error) => result == Err::<(), _>(error),
            None => result is Ok,
        },
{
    if value.is_empty() {
        return Err(NameError::Empty { kind });
    }
    let actual: usize = value.as_bytes().len();
    if actual > maximum {
        return Err(NameError::TooLong { kind, maximum, actual });
    }
    Ok(())
}

fn supported(character: char) -> (result: bool)
    ensures
        result == is_name_char(character),
{
    ('a' <= character && character <= 'z') || ('A' <= character && character <= 'Z') || ('0'
        <= character && character <= '9') || character == '.' || character == '_' || character
        == ':' || character == '-'
}

/// Checks that a text is a name.
pub fn validate_name(value: &str, kind: &'static str, maximum: usize) -> (result: Result<
    (),
    NameError,
>)
    ensures
        result is Ok <==> is_name(value@, maximum),
        match name_error(value@, kind, maximum) {
            Some(error) => result == Err::<(), _>(error),
            None => result is Ok,
        },
{
    match validate_bounds(value, kind, maximum) {
        Ok(()) => {},
        Err(error) => return Err(error),
    }
    for character in iter: value.chars()
        invariant
            iter.seq() == value@,
            is_bounded_text(value@, maximum),
            forall|i: int| 0 <= i < iter.index() ==> is_name_char(#[trigger] value@[i]),
    {
        if !supported(character) {
            proof {
                let place = iter.index() as int;
                assert(is_first_unsupported(value@, place));
                let found = first_unsupported(value@);
                assert(is_first_unsupported(value@, found));
                assert(found == place);
            }
            return Err(NameError::UnsupportedCharacter { kind, character });
        }
    }
    Ok(())
}

/// The name of a queue.
#[derive(Debug, PartialEq, Eq, PartialOrd, Ord, Hash)]
pub struct QueueName {
    value: String,
}

impl View for QueueName {
    type V = Seq<char>;

    closed spec fn view(&self) -> Seq<char> {
        self.value@
    }
}

impl Clone for QueueName {
    fn clone(&self) -> (result: Self)
        ensures
            result == *self,
    {
        proof {
            use_type_invariant(self);
        }
        QueueName { value: self.value.clone() }
    }
}

impl QueueName {
    #[verifier::type_invariant]
    spec fn well_formed(self) -> bool {
        is_name(self.value@, MAX_QUEUE_NAME_BYTES)
    }

    pub fn new(value: &str) -> (result: Result<Self, NameError>)
        ensures
            result is Ok <==> is_name(value@, MAX_QUEUE_NAME_BYTES),
            result matches Ok(name) ==> name@ == value@,
            result matches Err(error) ==> name_error(value@, "queue name", MAX_QUEUE_NAME_BYTES) == Some(error),
    {
        match validate_name(value, "queue name", MAX_QUEUE_NAME_BYTES) {
            Ok(()) => Ok(QueueName { value: value.to_owned() }),
            Err(error) => Err(error),
        }
    }

    pub fn try_from(value: String) -> (result: Result<Self, NameError>)
        ensures
            result is Ok <==> is_name(value@, MAX_QUEUE_NAME_BYTES),
            result matches Ok(name) ==> name@ == value@,
            result matches Err(error) ==> name_error(value@, "queue name", MAX_QUEUE_NAME_BYTES) == Some(error),
    {
        match validate_name(value.as_str(), "queue name", MAX_QUEUE_NAME_BYTES) {
            Ok(()) => Ok(QueueName { value }),
            Err(error) => Err(error),
        }
    }

    pub fn as_str(&self) -> (result: &str)
        ensures
            result@ == self@,
            is_name(result@, MAX_QUEUE_NAME_BYTES),
    {
        proof {
            use_type_invariant(self);
        }
        self.value.as_str()
    }

    pub fn as_ref(&self) -> (result: &str)
        ensures
            result@ == self@,
    {
        self.value.as_str()
    }

    pub fn to_string(&self) -> (result: String)
        ensures
            result@ == self@,
    {
        self.value.clone()
    }

    pub fn into_string(self) -> (result: String)
        ensures
            result@ == self@,
    {
        self.value
    }

    /// Whether two names read the same.
    pub fn same(&self, other: &Self) -> (result: bool)
        ensures
            result == (self@ == other@),
    {
        self.value == other.value
    }
}

/// The name of a schedule.
#[derive(Debug, PartialEq, Eq, PartialOrd, Ord, Hash)]
pub struct ScheduleName {
    value: String,
}

impl View for ScheduleName {
    type V = Seq<char>;

    closed spec fn view(&self) -> Seq<char> {
        self.value@
    }
}

impl Clone for ScheduleName {
    fn clone(&self) -> (result: Self)
        ensures
            result == *self,
    {
        proof {
            use_type_invariant(self);
        }
        ScheduleName { value: self.value.clone() }
    }
}

impl ScheduleName {
    #[verifier::type_invariant]
    spec fn well_formed(self) -> bool {
        is_name(self.value@, MAX_TASK_NAME_BYTES)
    }

    pub fn new(value: &str) -> (result: Result<Self, NameError>)
        ensures
            result is Ok <==> is_name(value@, MAX_TASK_NAME_BYTES),
            result matches Ok(name) ==> name@ == value@,
            result matches Err(error) ==> name_error(value@, "schedule name", MAX_TASK_NAME_BYTES) == Some(error),
    {
        match validate_name(value, "schedule name", MAX_TASK_NAME_BYTES) {
            Ok(()) => Ok(ScheduleName { value: value.to_owned() }),
            Err(error) => Err(error),
        }
    }

    pub fn try_from(value: String) -> (result: Result<Self, NameError>)
        ensures
            result is Ok <==> is_name(value@, MAX_TASK_NAME_BYTES),
            result matches Ok(name) ==> name@ == value@,
            result matches Err(error) ==> name_error(value@, "schedule name", MAX_TASK_NAME_BYTES) == Some(error),
    {
        match validate_name(value.as_str(), "schedule name", MAX_TASK_NAME_BYTES) {
            Ok(()) => Ok(ScheduleName { value }),
            Err(error) => Err(error),
        }
    }

    pub fn as_str(&self) -> (result: &str)
        ensures
            result@ == self@,
            is_name(result@, MAX_TASK_NAME_BYTES),
    {
        proof {
            use_type_invariant(self);
        }
        self.value.as_str()
    }

    pub fn as_ref(&self) -> (result: &str)
        ensures
            result@ == self@,
    {
        self.value.as_str()
    }

    pub fn to_string(&self) -> (result: String)
        ensures
            result@ == self@,
    {
        self.value.clone()
    }

    pub fn into_string(self) -> (result: String)
        ensures
            result@ == self@,
    {
        self.value
    }

    /// Whether two names read the same.
    pub fn same(&self, other: &Self) -> (result: bool)
        ensures
            result == (self@ == other@),
    {
        self.value == other.value
    }
}

/// The name of a signal.
#[derive(Debug, PartialEq, Eq, PartialOrd, Ord, Hash)]
pub struct SignalName {
    value: String,
}

impl View for SignalName {
    type V = Seq<char>;

    closed spec fn view(&self) -> Seq<char> {
        self.value@
    }
}

impl Clone for SignalName {
    fn clone(&self) -> (result: Self)
        ensures
            result == *self,
    {
        proof {
            use_type_invariant(self);
        }
        SignalName { value: self.value.clone() }
    }
}

impl SignalName {
    #[verifier::type_invariant]
    spec fn well_formed(self) -> bool {
        is_name(self.value@, MAX_TASK_NAME_BYTES)
    }

    pub fn new(value: &str) -> (result: Result<Self, NameError>)
        ensures
            result is Ok <==> is_name(value@, MAX_TASK_NAME_BYTES),
            result matches Ok(name) ==> name@ == value@,
            result matches Err(error) ==> name_error(value@, "signal name", MAX_TASK_NAME_BYTES) == Some(error),
    {
        match validate_name(value, "signal name", MAX_TASK_NAME_BYTES) {
            Ok(()) => Ok(SignalName { value: value.to_owned() }),
            Err(error) => Err(error),
        }
    }

    pub fn try_from(value: String) -> (result: Result<Self, NameError>)
        ensures
            result is Ok <==> is_name(value@, MAX_TASK_NAME_BYTES),
            result matches Ok(name) ==> name@ == value@,
            result matches Err(error) ==> name_error(value@, "signal name", MAX_TASK_NAME_BYTES) == Some(error),
    {
        match validate_name(value.as_str(), "signal name", MAX_TASK_NAME_BYTES) {
            Ok(()) => Ok(SignalName { value }),
            Err(error) => Err(error),
        }
    }

    pub fn as_str(&self) -> (result: &str)
        ensures
            result@ == self@,
            is_name(result@, MAX_TASK_NAME_BYTES),
    {
        proof {
            use_type_invariant(self);
        }
        self.value.as_str()
    }

    pub fn as_ref(&self) -> (result: &str)
        ensures
            result@ == self@,
    {
        self.value.as_str()
    }

    pub fn to_string(&self) -> (result: String)
        ensures
            result@ == self@,
    {
        self.value.clone()
    }

    pub fn into_string(self) -> (result: String)
        ensures
            result@ == self@,
    {
        self.value
    }

    /// Whether two names read the same.
    pub fn same(&self, other: &Self) -> (result: bool)
        ensures
            result == (self@ == other@),
    {
        self.value == other.value
    }
}

/// The name of a step. A framework may compose it, so it holds any characters.
#[derive(Debug, PartialEq, Eq, PartialOrd, Ord, Hash)]
pub struct StepName {
    value: String,
}

impl View for StepName {
    type V = Seq<char>;

    closed spec fn view(&self) -> Seq<char> {
        self.value@
    }
}

impl Clone for StepName {
    fn clone(&self) -> (result: Self)
        ensures
            result == *self,
    {
        proof {
            use_type_invariant(self);
        }
        StepName { value: self.value.clone() }
    }
}

impl StepName {
    #[verifier::type_invariant]
    spec fn well_formed(self) -> bool {
        is_bounded_text(self.value@, MAX_TASK_NAME_BYTES)
    }

    pub fn new(value: &str) -> (result: Result<Self, NameError>)
        ensures
            result is Ok <==> is_bounded_text(value@, MAX_TASK_NAME_BYTES),
            result matches Ok(name) ==> name@ == value@,
            result matches Err(error) ==> bounds_error(value@, "step name", MAX_TASK_NAME_BYTES) == Some(error),
    {
        match validate_bounds(value, "step name", MAX_TASK_NAME_BYTES) {
            Ok(()) => Ok(StepName { value: value.to_owned() }),
            Err(error) => Err(error),
        }
    }

    pub fn try_from(value: String) -> (result: Result<Self, NameError>)
        ensures
            result is Ok <==> is_bounded_text(value@, MAX_TASK_NAME_BYTES),
            result matches Ok(name) ==> name@ == value@,
            result matches Err(error) ==> bounds_error(value@, "step name", MAX_TASK_NAME_BYTES) == Some(error),
    {
        match validate_bounds(value.as_str(), "step name", MAX_TASK_NAME_BYTES) {
            Ok(()) => Ok(StepName { value }),
            Err(error) => Err(error),
        }
    }

    pub fn as_str(&self) -> (result: &str)
        ensures
            result@ == self@,
            is_bounded_text(result@, MAX_TASK_NAME_BYTES),
    {
        proof {
            use_type_invariant(self);
        }
        self.value.as_str()
    }

    pub fn as_ref(&self) -> (result: &str)
        ensures
            result@ == self@,
    {
        self.value.as_str()
    }

    pub fn to_string(&self) -> (result: String)
        ensures
            result@ == self@,
    {
        self.value.clone()
    }

    pub fn into_string(self) -> (result: String)
        ensures
            result@ == self@,
    {
        self.value
    }

    /// Whether two names read the same.
    pub fn same(&self, other: &Self) -> (result: bool)
        ensures
            result == (self@ == other@),
    {
        self.value == other.value
    }
}

/// The name of a task.
#[derive(Debug, PartialEq, Eq, PartialOrd, Ord, Hash)]
pub struct TaskName {
    value: String,
}

impl View for TaskName {
    type V = Seq<char>;

    closed spec fn view(&self) -> Seq<char> {
        self.value@
    }
}

impl Clone for TaskName {
    fn clone(&self) -> (result: Self)
        ensures
            result == *self,
    {
        proof {
            use_type_invariant(self);
        }
        TaskName { value: self.value.clone() }
    }
}

impl TaskName {
    #[verifier::type_invariant]
    spec fn well_formed(self) -> bool {
        is_name(self.value@, MAX_TASK_NAME_BYTES)
    }

    pub fn new(value: &str) -> (result: Result<Self, NameError>)
        ensures
            result is Ok <==> is_name(value@, MAX_TASK_NAME_BYTES),
            result matches Ok(name) ==> name@ == value@,
            result matches Err(error) ==> name_error(value@, "task name", MAX_TASK_NAME_BYTES) == Some(error),
    {
        match validate_name(value, "task name", MAX_TASK_NAME_BYTES) {
            Ok(()) => Ok(TaskName { value: value.to_owned() }),
            Err(error) => Err(error),
        }
    }

    pub fn try_from(value: String) -> (result: Result<Self, NameError>)
        ensures
            result is Ok <==> is_name(value@, MAX_TASK_NAME_BYTES),
            result matches Ok(name) ==> name@ == value@,
            result matches Err(error) ==> name_error(value@, "task name", MAX_TASK_NAME_BYTES) == Some(error),
    {
        match validate_name(value.as_str(), "task name", MAX_TASK_NAME_BYTES) {
            Ok(()) => Ok(TaskName { value }),
            Err(error) => Err(error),
        }
    }

    pub fn as_str(&self) -> (result: &str)
        ensures
            result@ == self@,
            is_name(result@, MAX_TASK_NAME_BYTES),
    {
        proof {
            use_type_invariant(self);
        }
        self.value.as_str()
    }

    pub fn as_ref(&self) -> (result: &str)
        ensures
            result@ == self@,
    {
        self.value.as_str()
    }

    pub fn to_string(&self) -> (result: String)
        ensures
            result@ == self@,
    {
        self.value.clone()
    }

    pub fn into_string(self) -> (result: String)
        ensures
            result@ == self@,
    {
        self.value
    }

    /// Whether two names read the same.
    pub fn same(&self, other: &Self) -> (result: bool)
        ensures
            result == (self@ == other@),
    {
        self.value == other.value
    }
}

impl Default for QueueName {
    fn default() -> (result: Self)
        ensures
            result@ == "default"@,
    {
        proof {
            reveal_strlit("default");
            vstd::utf8::is_ascii_chars_encode_utf8("default"@);
        }
        QueueName { value: "default".to_owned() }
    }
}

/// Identifies a task.
#[derive(Clone, Copy, Debug, PartialEq, Eq, PartialOrd, Ord, Hash, Structural)]
pub struct TaskId {
    pub uuid: Uuid,
}

impl TaskId {
    /// A fresh identifier, a UUID of version 7.
    pub fn new() -> (result: Self)
        ensures
            is_version_seven(result.uuid.value),
    {
        TaskId { uuid: Uuid::new_v7() }
    }

    pub fn from_uuid(value: Uuid) -> (result: Self)
        ensures
            result.uuid == value,
    {
        TaskId { uuid: value }
    }

    pub fn as_uuid(self) -> (result: Uuid)
        ensures
            result == self.uuid,
    {
        self.uuid
    }

    /// The identifier that `text` stands for, an error when it is no UUID.
    pub fn from_str(text: &str) -> (result: Result<Self, UuidError>)
        ensures
            match uuid_parse(text@) {
                Ok(value) => result == Ok::<TaskId, UuidError>(TaskId { uuid: Uuid { value } }),
                Err(words) => result is Err && result->Err_0@ == words,
            },
    {
        match Uuid::parse_str(text) {
            Ok(uuid) => Ok(TaskId { uuid }),
            Err(error) => Err(error),
        }
    }

    /// The hyphenated text, from which `from_str` reads the identifier again.
    pub fn to_string(&self) -> (result: String)
        ensures
            result@ == uuid_text(self.uuid.value),
            parses_to(result@, self.uuid.value),
    {
        self.uuid.to_text()
    }
}

impl Default for TaskId {
    fn default() -> (result: Self)
        ensures
            is_version_seven(result.uuid.value),
    {
        TaskId::new()
    }
}

/// Identifies a schedule.
#[derive(Clone, Copy, Debug, PartialEq, Eq, PartialOrd, Ord, Hash, Structural)]
pub struct ScheduleId {
    pub uuid: Uuid,
}

impl ScheduleId {
    /// A fresh identifier, a UUID of version 7.
    pub fn new() -> (result: Self)
        ensures
            is_version_seven(result.uuid.value),
    {
        ScheduleId { uuid: Uuid::new_v7() }
    }

    pub fn from_uuid(value: Uuid) -> (result: Self)
        ensures
            result.uuid == value,
    {
        ScheduleId { uuid: value }
    }

    pub fn as_uuid(self) -> (result: Uuid)
        ensures
            result == self.uuid,
    {
        self.uuid
    }

    /// The identifier that `text` stands for, an error when it is no UUID.
    pub fn from_str(text: &str) -> (result: Result<Self, UuidError>)
        ensures
            match uuid_parse(text@) {
                Ok(value) => result == Ok::<ScheduleId, UuidError>(ScheduleId { uuid: Uuid { value } }),
                Err(words) => result is Err && result->Err_0@ == words,
            },
    {
        match Uuid::parse_str(text) {
            Ok(uuid) => Ok(ScheduleId { uuid }),
            Err(error) => Err(error),
        }
    }

    /// The hyphenated text, from which `from_str` reads the identifier again.
    pub fn to_string(&self) -> (result: String)
        ensures
            result@ == uuid_text(self.uuid.value),
            parses_to(result@, self.uuid.value),
    {
        self.uuid.to_text()
    }
}

impl Default for ScheduleId {
    fn default() -> (result: Self)
        ensures
            is_version_seven(result.uuid.value),
    {
        ScheduleId::new()
    }
}

/// Identifies a worker.
#[derive(Clone, Copy, Debug, PartialEq, Eq, PartialOrd, Ord, Hash, Structural)]
pub struct WorkerId {
    pub uuid: Uuid,
}

impl WorkerId {
    /// A fresh identifier, a UUID of version 7.
    pub fn new() -> (result: Self)
        ensures
            is_version_seven(result.uuid.value),
    {
        WorkerId { uuid: Uuid::new_v7() }
    }

    pub fn from_uuid(value: Uuid) -> (result: Self)
        ensures
            result.uuid == value,
    {
        WorkerId { uuid: value }
    }

    pub fn as_uuid(self) -> (result: Uuid)
        ensures
            result == self.uuid,
    {
        self.uuid
    }

    /// The identifier that `text` stands for, an error when it is no UUID.
    pub fn from_str(text: &str) -> (result: Result<Self, UuidError>)
        ensures
            match uuid_parse(text@) {
                Ok(value) => result == Ok::<WorkerId, UuidError>(WorkerId { uuid: Uuid { value } }),
                Err(words) => result is Err && result->Err_0@ == words,
            },
    {
        match Uuid::parse_str(text) {
            Ok(uuid) => Ok(WorkerId { uuid }),
            Err(error) => Err(error),
        }
    }

    /// The hyphenated text, from which `from_str` reads the identifier again.
    pub fn to_string(&self) -> (result: String)
        ensures
            result@ == uuid_text(self.uuid.value),
            parses_to(result@, self.uuid.value),
    {
        self.uuid.to_text()
    }
}

impl Default for WorkerId {
    fn default() -> (result: Self)
        ensures
            is_version_seven(result.uuid.value),
    {
        WorkerId::new()
    }
}

/// Fences one lease on a task: a later lease has another token.
#[derive(Clone, Copy, Debug, PartialEq, Eq, PartialOrd, Ord, Hash, Structural)]
pub struct LeaseToken {
    pub uuid: Uuid,
}

impl LeaseToken {
    /// A fresh identifier, a UUID of version 7.
    pub fn new() -> (result: Self)
        ensures
            is_version_seven(result.uuid.value),
    {
        LeaseToken { uuid: Uuid::new_v7() }
    }

    pub fn from_uuid(value: Uuid) -> (result: Self)
        ensures
            result.uuid == value,
    {
        LeaseToken { uuid: value }
    }

    pub fn as_uuid(self) -> (result: Uuid)
        ensures
            result == self.uuid,
    {
        self.uuid
    }

    /// The identifier that `text` stands for, an error when it is no UUID.
    pub fn from_str(text: &str) -> (result: Result<Self, UuidError>)
        ensures
            match uuid_parse(text@) {
                Ok(value) => result == Ok::<LeaseToken, UuidError>(LeaseToken { uuid: Uuid { value } }),
                Err(words) => result is Err && result->Err_0@ == words,
            },
    {
        match Uuid::parse_str(text) {
            Ok(uuid) => Ok(LeaseToken { uuid }),
            Err(error) => Err(error),
        }
    }

    /// The hyphenated text, from which `from_str` reads the identifier again.
    pub fn to_string(&self) -> (result: String)
        ensures
            result@ == uuid_text(self.uuid.value),
            parses_to(result@, self.uuid.value),
    {
        self.uuid.to_text()
    }
}

impl Default for LeaseToken {
    fn default() -> (result: Self)
        ensures
            is_version_seven(result.uuid.value),
    {
        LeaseToken::new()
    }
}

/// The version of a handler: an integer above zero, which is its view.
#[derive(Clone, Copy, Debug, PartialEq, Eq, PartialOrd, Ord, Hash, Structural)]
pub struct HandlerVersion {
    value: NonZeroU32,
}

impl View for HandlerVersion {
    type V = u32;

    closed spec fn view(&self) -> u32 {
        self.value@
    }
}

impl HandlerVersion {
    pub fn new(value: NonZeroU32) -> (result: Self)
        ensures
            result@ == value@,
    {
        HandlerVersion { value }
    }

    pub fn get(self) -> (result: u32)
        ensures
            result == self@,
            result > 0,
    {
        self.value.get()
    }
}

impl Default for HandlerVersion {
    fn default() -> (result: Self)
        ensures
            result@ == 1,
    {
        HandlerVersion { value: NonZeroU32::min_value() }
    }
}

/// A name is accepted exactly when it has a character, not too many bytes, and nothing but ASCII
/// letters and digits, `.`, `_`, `:` and `-`; a text that only has to be bounded may hold anything.
pub proof fn names_are_told_by_their_characters(
    value: Seq<char>,
    kind: &'static str,
    maximum: usize,
)
    ensures
        name_error(value, kind, maximum) is None <==> {
            &&& value.len() > 0
            &&& encode_utf8(value).len() <= maximum
            &&& forall|i: int|
                #![trigger value[i]]
                0 <= i < value.len() ==> ('a' <= value[i] && value[i] <= 'z') || ('A' <= value[i]
                    && value[i] <= 'Z') || ('0' <= value[i] && value[i] <= '9') || value[i] == '.'
                    || value[i] == '_' || value[i] == ':' || value[i] == '-'
        },
        bounds_error(value, kind, maximum) is None <==> value.len() > 0 && encode_utf8(value).len()
            <= maximum,
{
}

/// What is wrong with a name is said in this order: that it is empty, that it is too long and by
/// how much, or which character comes first that does not belong.
pub proof fn names_are_refused_for_a_reason(value: Seq<char>, kind: &'static str, maximum: usize)
    requires
        encode_utf8(value).len() <= usize::MAX,
    ensures
        value.len() == 0 ==> name_error(value, kind, maximum) == Some(NameError::Empty { kind })
            && bounds_error(value, kind, maximum) == Some(NameError::Empty { kind }),
        value.len() > 0 && encode_utf8(value).len() > maximum ==> {
            let error = Some(
                NameError::TooLong { kind, maximum, actual: encode_utf8(value).len() as usize },
            );
            name_error(value, kind, maximum) == error && bounds_error(value, kind, maximum) == error
        },
        name_error(value, kind, maximum) matches Some(
            NameError::UnsupportedCharacter { kind: said, character },
        ) ==> said == kind && exists|place: int|
            0 <= place < value.len() && #[trigger] value[place] == character && !is_name_char(
                character,
            ) && forall|i: int| 0 <= i < place ==> is_name_char(#[trigger] value[i]),
{
    if is_bounded_text(value, maximum) && !is_name(value, maximum) {
        lemma_first_unsupported(value, value.len() as int);
        let found = first_unsupported(value);
        assert(is_first_unsupported(value, found));
        assert(value[found] == value[first_unsupported(value)]);
    }
}

/// Where some character does not belong, one is the first.
proof fn lemma_first_unsupported(value: Seq<char>, end: int)
    requires
        0 <= end <= value.len(),
        exists|i: int| 0 <= i < end && !is_name_char(#[trigger] value[i]),
    ensures
        exists|place: int| is_first_unsupported(value, place),
    decreases end,
{
    let last = end - 1;
    if exists|i: int| 0 <= i < last && !is_name_char(#[trigger] value[i]) {
        lemma_first_unsupported(value, last);
    } else {
        assert(is_first_unsupported(value, last));
    }
}

/// A name is a text within its bound that is made of the letters, digits and signs of names.
pub proof fn names_are_made_of_their_characters(value: Seq<char>, maximum: usize)
    ensures
        is_bounded_text(value, maximum) <==> value.len() > 0 && encode_utf8(value).len() <= maximum,
        is_name(value, maximum) <==> {
            &&& value.len() > 0
            &&& encode_utf8(value).len() <= maximum
            &&& forall|i: int|
                #![trigger value[i]]
                0 <= i < value.len() ==> ('a' <= value[i] && value[i] <= 'z') || ('A' <= value[i]
                    && value[i] <= 'Z') || ('0' <= value[i] && value[i] <= '9') || value[i] == '.'
                    || value[i] == '_' || value[i] == ':' || value[i] == '-'
        },
        MAX_QUEUE_NAME_BYTES == 128,
        MAX_TASK_NAME_BYTES == 255,
{
}

/// What is wrong with a name is said of the kind of name that it is.
pub proof fn name_errors_name_their_kind(
    kind: &'static str,
    maximum: usize,
    actual: usize,
    character: char,
)
    ensures
        name_error_text(NameError::Empty { kind }) == kind@ + " must not be empty"@,
        name_error_text(NameError::TooLong { kind, maximum, actual }) == kind@
            + " must be at most "@ + decimal_text(maximum as nat) + " bytes, got "@ + decimal_text(
            actual as nat,
        ),
        name_error_text(NameError::UnsupportedCharacter { kind, character }) == kind@
            + " contains unsupported character "@ + char_debug_text(character),
{
}

} // verus!
