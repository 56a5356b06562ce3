//! Settings that come as text.

use vstd::prelude::*;
use vstd::string::StringExecFns;

use crate::number::NonZeroU32;
use crate::text::{
    decimal_text, decimals_are_written_digit_by_digit, digit_char, same_text,
};

verus! {

/// Why a text is no number of the wanted kind.
#[derive(Clone, Copy, Debug, PartialEq, Eq, Structural)]
pub enum NumberError {
    Empty,
    InvalidDigit,
    TooLarge,
}

/// What an error says.
pub open spec fn number_error_text(error: NumberError) -> Seq<char> {
    match error {
        NumberError::Empty => "cannot parse integer from empty string"@,
        NumberError::InvalidDigit => "invalid digit found in string"@,
        NumberError::TooLarge => "number too large to fit in target type"@,
    }
}

impl NumberError {
    pub fn to_string(self) -> (result: String)
        ensures
            result@ == number_error_text(self),
    {
        match self {
            NumberError::Empty => "cannot parse integer from empty string".to_owned(),
            NumberError::InvalidDigit => "invalid digit found in string".to_owned(),
            NumberError::TooLarge => "number too large to fit in target type".to_owned(),
        }
    }
}

/// Whether a character is a decimal digit.
pub open spec fn is_digit(character: char) -> bool {
    '0' <= character <= '9'
}

/// The number that digits stand for, as far as it is not above a maximum; the first character that
/// is no digit or makes it too large is the error.
pub open spec fn digits_value(digits: Seq<char>, maximum: nat) -> Result<nat, NumberError>
    decreases digits.len(),
{
    if digits.len() == 0 {
        Ok(0)
    } else {
        match digits_value(digits.drop_last(), maximum) {
            Err(error) => Err(error),
            Ok(value) => {
                let last = digits.last();
                if !is_digit(last) {
                    Err(NumberError::InvalidDigit)
                } else if value * 10 + (last as nat - '0' as nat) > maximum {
                    Err(NumberError::TooLarge)
                } else {
                    Ok((value * 10 + (last as nat - '0' as nat)) as nat)
                }
            },
        }
    }
}

/// The number that a text stands for: digits, after a plus sign where there is one.
pub open spec fn number_value(text: Seq<char>, maximum: nat) -> Result<nat, NumberError> {
    if text.len() == 0 {
        Err(NumberError::Empty)
    } else if text[0] == '+' && text.len() > 1 {
        digits_value(text.skip(1), maximum)
    } else {
        digits_value(text, maximum)
    }
}

/// An error among the first characters is the error of all.
proof fn lemma_error_stays(digits: Seq<char>, maximum: nat, count: int)
    requires
        0 <= count <= digits.len(),
        digits_value(digits.take(count), maximum) is Err,
    ensures
        digits_value(digits, maximum) == digits_value(digits.take(count), maximum),
    decreases digits.len() - count,
{
    if count == digits.len() {
        assert(digits.take(count) =~= digits);
    } else {
        assert(digits.take(count + 1).drop_last() =~= digits.take(count));
        lemma_error_stays(digits, maximum, count + 1);
    }
}

fn digit(character: char) -> (result: Option<u64>)
    ensures
        result is Some <==> is_digit(character),
        result is Some ==> result->0 == character as nat - '0' as nat,
{
    if '0' <= character && character <= '9' {
        Some(character as u64 - 48)
    } else {
        None
    }
}

/// Reads an unsigned number up to a maximum.
pub fn parse_unsigned(text: &str, maximum: u64) -> (result: Result<u64, NumberError>)
    ensures
        match number_value(text@, maximum as nat) {
            Ok(value) => result is Ok && result->Ok_0 == value,
            Err(error) => result == Err::<u64, _>(error),
        },
{
    let length: usize = text.unicode_len();
    if length == 0 {
        return Err(NumberError::Empty);
    }
    let start: usize = if text.get_char(0) == '+' && length > 1 {
        1
    } else {
        0
    };
    let ghost digits = if start == 1 {
        text@.skip(1)
    } else {
        text@
    };
    let mut value: u64 = 0;
    let mut index: usize = start;
    assert(digits.take(0) =~= Seq::empty());
    while index < length
        invariant
            length == text@.len(),
            start <= index <= length,
            start <= 1,
            digits == if start == 1 {
                text@.skip(1)
            } else {
                text@
            },
            digits.len() == length - start,
            number_value(text@, maximum as nat) == digits_value(digits, maximum as nat),
            digits_value(digits.take(index - start), maximum as nat) == Ok::<nat, NumberError>(
                value as nat,
            ),
            value <= maximum,
        decreases length - index,
    {
        let character = text.get_char(index);
        let ghost place = index - start;
        assert(character == digits[place]);
        assert(digits.take(place + 1).drop_last() =~= digits.take(place));
        match digit(character) {
            Some(number) => {
                let next: u128 = value as u128 * 10 + number as u128;
                if next > maximum as u128 {
                    proof {
                        lemma_error_stays(digits, maximum as nat, place + 1);
                    }
                    return Err(NumberError::TooLarge);
                }
                value = next as u64;
            },
            None => {
                proof {
                    lemma_error_stays(digits, maximum as nat, place + 1);
                }
                return Err(NumberError::InvalidDigit);
            },
        }
        index += 1;
    }
    assert(digits.take(length - start) =~= digits);
    Ok(value)
}

/// Reads a setting, or takes its default where it is missing.
pub fn setting(value: Option<&str>, default: u64, maximum: u64) -> (result: Result<
    u64,
    NumberError,
>)
    ensures
        match value {
            None => result == Ok::<_, NumberError>(default),
            Some(text) => match number_value(text@, maximum as nat) {
                Ok(value) => result is Ok && result->Ok_0 == value,
                Err(error) => result == Err::<u64, _>(error),
            },
        },
{
    match value {
        None => Ok(default),
        Some(text) => parse_unsigned(text, maximum),
    }
}

/// What a setting that is a number above zero comes to; the error is in words.
pub open spec fn is_positive_setting(
    result: Result<NonZeroU32, String>,
    name: Seq<char>,
    value: Option<&str>,
    default: u32,
) -> bool {
    let number: Result<nat, NumberError> = match value {
        None => Ok(default as nat),
        Some(text) => number_value(text@, u32::MAX as nat),
    };
    match number {
        Err(error) => result is Err && result->Err_0@ == number_error_text(error),
        Ok(number) => if number == 0 {
            result is Err && result->Err_0@ == name + " must be greater than zero"@
        } else {
            result is Ok && result->Ok_0@ == number
        },
    }
}

/// Reads a setting that is a number above zero.
pub fn positive_setting(name: &str, value: Option<&str>, default: u32) -> (result: Result<
    NonZeroU32,
    String,
>)
    ensures
        is_positive_setting(result, name@, value, default),
{
    match setting(value, default as u64, u32::MAX as u64) {
        Err(error) => Err(error.to_string()),
        Ok(number) => match NonZeroU32::new(number as u32) {
            Some(number) => Ok(number),
            None => {
                let mut message = name.to_owned();
                message.append(" must be greater than zero");
                Err(message)
            },
        },
    }
}

/// Reads a setting that is `true` or `false`.
pub fn flag_setting(value: Option<&str>, default: bool) -> (result: Result<bool, String>)
    ensures
        match value {
            None => result == Ok::<_, String>(default),
            Some(text) => if text@ == "true"@ {
                result == Ok::<_, String>(true)
            } else if text@ == "false"@ {
                result == Ok::<_, String>(false)
            } else {
                result is Err && result->Err_0@ == "provided string was not `true` or `false`"@
            },
        },
{
    match value {
        None => Ok(default),
        Some(text) => if same_text(text, "true") {
            Ok(true)
        } else if same_text(text, "false") {
            Ok(false)
        } else {
            Err("provided string was not `true` or `false`".to_owned())
        },
    }
}

/// What is written in decimal is read as that number, wherever it is not too large, with a plus
/// sign before it or without one.
pub proof fn numbers_read_back(value: nat, maximum: nat)
    ensures
        value <= maximum ==> number_value(decimal_text(value), maximum) == Ok::<nat, NumberError>(
            value,
        ),
        value <= maximum ==> number_value(seq!['+'] + decimal_text(value), maximum) == Ok::<
            nat,
            NumberError,
        >(value),
        value > maximum ==> number_value(decimal_text(value), maximum) == Err::<nat, _>(
            NumberError::TooLarge,
        ),
{
    lemma_digits_read_back(value, maximum);
    let written = decimal_text(value);
    let signed = seq!['+'] + written;
    assert(signed.skip(1) =~= written);
}

proof fn lemma_digits_read_back(value: nat, maximum: nat)
    ensures
        decimal_text(value).len() > 0,
        decimal_text(value)[0] != '+',
        digits_value(decimal_text(value), maximum) == if value <= maximum {
            Ok::<nat, NumberError>(value)
        } else {
            Err::<nat, NumberError>(NumberError::TooLarge)
        },
    decreases value,
{
    let written = decimal_text(value);
    let digit = value % 10;
    decimals_are_written_digit_by_digit(value, digit, 0);
    assert(written.last() == digit_char(digit));
    if value < 10 {
        assert(written.drop_last() =~= Seq::<char>::empty());
        assert(digits_value(written.drop_last(), maximum) == Ok::<nat, NumberError>(0));
    } else {
        lemma_digits_read_back(value / 10, maximum);
        assert(written.drop_last() =~= decimal_text(value / 10));
        assert(value == value / 10 * 10 + digit);
    }
}

/// A text is read as a number only where it is made of digits, and the number is never above the
/// maximum; the empty text, and one with another character before the number is too large, is not.
pub proof fn numbers_are_made_of_digits(text: Seq<char>, maximum: nat)
    ensures
        text.len() == 0 ==> number_value(text, maximum) == Err::<nat, _>(NumberError::Empty),
        number_value(text, maximum) matches Ok(value) ==> {
            &&& value <= maximum
            &&& text.len() > 0
            &&& forall|i: int| 0 < i < text.len() ==> '0' <= #[trigger] text[i] <= '9'
            &&& '0' <= text[0] <= '9' || text[0] == '+'
        },
{
    if text.len() > 0 {
        if text[0] == '+' && text.len() > 1 {
            let digits = text.skip(1);
            lemma_digits_only(digits, maximum);
            if digits_value(digits, maximum) is Ok {
                assert forall|i: int| 0 < i < text.len() implies '0' <= #[trigger] text[i] <= '9' by {
                    assert(digits[i - 1] == text[i]);
                }
            }
        } else {
            lemma_digits_only(text, maximum);
        }
    }
}

proof fn lemma_digits_only(digits: Seq<char>, maximum: nat)
    ensures
        digits_value(digits, maximum) matches Ok(value) ==> {
            &&& value <= maximum
            &&& forall|i: int| 0 <= i < digits.len() ==> '0' <= #[trigger] digits[i] <= '9'
        },
    decreases digits.len(),
{
    if digits.len() > 0 {
        lemma_digits_only(digits.drop_last(), maximum);
        if digits_value(digits, maximum) is Ok {
            assert forall|i: int| 0 <= i < digits.len() implies '0' <= #[trigger] digits[i] <= '9' by {
                if i < digits.len() - 1 {
                    assert(digits.drop_last()[i] == digits[i]);
                }
            }
        }
    }
}

/// A setting above zero is read as its number, or as its default where it is missing; zero, and what
/// is no number, is refused.
pub proof fn positive_settings_are_above_zero(
    result: Result<NonZeroU32, String>,
    name: Seq<char>,
    value: Option<&str>,
    default: u32,
)
    requires
        is_positive_setting(result, name, value, default),
    ensures
        value is None && default > 0 ==> result is Ok && result->Ok_0@ == default,
        result matches Ok(number) ==> number@ > 0,
        result is Ok && value is Some ==> number_value(value->0@, u32::MAX as nat) == Ok::<
            nat,
            NumberError,
        >(result->Ok_0@ as nat),
        value is Some && (number_value(value->0@, u32::MAX as nat) matches Ok(number) && number > 0)
            ==> result is Ok,
{
}

/// Any other character after a number makes it none.
pub proof fn numbers_end_with_their_digits(text: Seq<char>, other: char, maximum: nat)
    requires
        number_value(text, maximum) is Ok,
        !('0' <= other && other <= '9'),
    ensures
        number_value(text.push(other), maximum) == Err::<nat, _>(NumberError::InvalidDigit),
{
    let longer = text.push(other);
    numbers_are_made_of_digits(text, maximum);
    if text[0] == '+' && text.len() > 1 {
        assert(longer.skip(1) =~= text.skip(1).push(other));
        assert(longer.skip(1).drop_last() =~= text.skip(1));
    } else {
        if text[0] == '+' {
            assert(text.drop_last() =~= Seq::<char>::empty());
            assert(text.last() == '+');
            assert(digits_value(text.drop_last(), maximum) is Ok);
            assert(digits_value(text, maximum) is Err);
        }
        assert(longer.drop_last() =~= text);
    }
}

/// Every way in which a number can be wrong has its own words.
pub proof fn number_errors_have_their_words()
    ensures
        number_error_text(NumberError::Empty) == "cannot parse integer from empty string"@,
        number_error_text(NumberError::InvalidDigit) == "invalid digit found in string"@,
        number_error_text(NumberError::TooLarge) == "number too large to fit in target type"@,
{
}

} // verus!
