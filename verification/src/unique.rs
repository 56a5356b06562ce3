//! Universally unique identifiers.

use vstd::prelude::*;

verus! {

/// A UUID, held as its 128 bits with the first byte on top.
#[derive(Clone, Copy, Debug, PartialEq, Eq, PartialOrd, Ord, Hash, Structural)]
pub struct Uuid {
    pub value: u128,
}

/// The character of a hexadecimal digit, in lower case.
pub open spec fn hex_char(digit: u128) -> char {
    if digit < 10 {
        (digit + '0' as nat) as char
    } else {
        (digit - 10 + 'a' as nat) as char
    }
}

/// The hexadecimal digit at `place`, the most significant one being at place 0.
pub open spec fn hex_digit(value: u128, place: int) -> u128 {
    (value >> ((31 - place) * 4) as u128) & 0xf
}

/// A UUID as eight, four, four, four and twelve hexadecimal digits with hyphens between them.
pub open spec fn uuid_text(value: u128) -> Seq<char> {
    Seq::new(
        36,
        |i: int|
            if i == 8 || i == 13 || i == 18 || i == 23 {
                '-'
            } else {
                let hyphens: int = if i < 8 {
                    0
                } else if i < 13 {
                    1
                } else if i < 18 {
                    2
                } else if i < 23 {
                    3
                } else {
                    4
                };
                hex_char(hex_digit(value, i - hyphens))
            },
    )
}

/// The UUID that a text stands for, or the words of why it stands for none.
pub uninterp spec fn uuid_parse(text: Seq<char>) -> Result<u128, Seq<char>>;

/// Whether a text stands for a UUID.
pub open spec fn parses_to(text: Seq<char>, value: u128) -> bool {
    uuid_parse(text) == Ok::<u128, Seq<char>>(value)
}

/// Why a text is no UUID.
#[derive(Debug, PartialEq, Eq)]
pub struct UuidError {
    message: String,
}

impl View for UuidError {
    type V = Seq<char>;

    closed spec fn view(&self) -> Seq<char> {
        self.message@
    }
}

impl Clone for UuidError {
    fn clone(&self) -> (result: Self)
        ensures
            result == *self,
    {
        UuidError { message: self.message.clone() }
    }
}

impl UuidError {
    pub fn to_string(&self) -> (result: String)
        ensures
            result@ == self@,
    {
        self.message.clone()
    }
}

/// Whether the version digit is 7 and the two variant bits are 10.
pub open spec fn is_version_seven(value: u128) -> bool {
    (value >> 76) & 0xf == 7 && (value >> 62) & 0x3 == 2
}

/// Calls `uuid::Uuid::parse_str`, and puts its error in words. Which texts it accepts besides the
/// hyphenated form (plain, braced, URN), and what it says of the others, stays unsaid.
#[verifier::external_body]
fn parse_uuid(text: &str) -> (result: Result<u128, String>)
    ensures
        match result {
            Ok(value) => uuid_parse(text@) == Ok::<u128, Seq<char>>(value),
            Err(message) => uuid_parse(text@) == Err::<u128, Seq<char>>(message@),
        },
{
    match uuid::Uuid::parse_str(text) {
        Ok(parsed) => Ok(parsed.as_u128()),
        Err(error) => Err(error.to_string()),
    }
}

/// Formats a UUID through the `Display` of `uuid::Uuid`: lower case with hyphens. Parsing the text
/// gives the UUID back.
#[verifier::external_body]
fn format_uuid(value: u128) -> (result: String)
    ensures
        result@ == uuid_text(value),
        parses_to(result@, value),
{
    uuid::Uuid::from_u128(value).to_string()
}

/// Calls `uuid::Uuid::now_v7`. The time and the random bits in the result stay unsaid.
#[verifier::external_body]
fn now_v7() -> (result: u128)
    ensures
        is_version_seven(result),
{
    uuid::Uuid::now_v7().as_u128()
}

impl Uuid {
    /// The UUID of all zero bits.
    pub fn nil() -> (result: Self)
        ensures
            result.value == 0,
    {
        Uuid { value: 0 }
    }

    pub fn from_u128(value: u128) -> (result: Self)
        ensures
            result.value == value,
    {
        Uuid { value }
    }

    pub fn as_u128(self) -> (result: u128)
        ensures
            result == self.value,
    {
        self.value
    }

    /// A fresh UUID of version 7.
    pub fn new_v7() -> (result: Self)
        ensures
            is_version_seven(result.value),
    {
        Uuid { value: now_v7() }
    }

    /// The UUID that `text` stands for.
    pub fn parse_str(text: &str) -> (result: Result<Self, UuidError>)
        ensures
            match uuid_parse(text@) {
                Ok(value) => result == Ok::<Uuid, UuidError>(Uuid { value }),
                Err(words) => result is Err && result->Err_0@ == words,
            },
    {
        match parse_uuid(text) {
            Ok(value) => Ok(Uuid { value }),
            Err(message) => Err(UuidError { message }),
        }
    }

    /// The hyphenated text in lower case, which parses to this UUID again.
    pub fn to_text(self) -> (result: String)
        ensures
            result@ == uuid_text(self.value),
            parses_to(result@, self.value),
    {
        format_uuid(self.value)
    }
}

} // verus!
