//! Text: comparison, decimal numbers, and what the standard library prints.

use vstd::prelude::*;
use vstd::string::StringExecFns;

verus! {

/// Whether two texts hold the same characters.
pub fn same_text(left: &str, right: &str) -> (result: bool)
    ensures
        result == (left@ == right@),
{
    left.to_owned() == right.to_owned()
}

/// Whether `text` begins with `prefix`.
pub fn starts_with(text: &str, prefix: &str) -> (result: bool)
    ensures
        result == prefix@.is_prefix_of(text@),
{
    let length: usize = prefix.unicode_len();
    if text.unicode_len() < length {
        return false;
    }
    let mut index: usize = 0;
    while index < length
        invariant
            length == prefix@.len(),
            length <= text@.len(),
            index <= length,
            forall|i: int| 0 <= i < index ==> text@[i] == prefix@[i],
        decreases length - index,
    {
        if text.get_char(index) != prefix.get_char(index) {
            return false;
        }
        index += 1;
    }
    true
}

/// Texts as their characters.
pub open spec fn texts(values: Seq<String>) -> Seq<Seq<char>> {
    values.map_values(|value: String| value@)
}

/// Whether a text is among others.
pub fn contains_text(values: &Vec<String>, text: &str) -> (result: bool)
    ensures
        result == texts(values@).contains(text@),
{
    let mut index: usize = 0;
    while index < values.len()
        invariant
            index <= values@.len(),
            forall|i: int| 0 <= i < index ==> (#[trigger] texts(values@)[i]) != text@,
        decreases values@.len() - index,
    {
        assert(texts(values@)[index as int] == values@[index as int]@);
        if same_text(values[index].as_str(), text) {
            return true;
        }
        index += 1;
    }
    false
}

/// The character of a decimal digit.
pub open spec fn digit_char(digit: nat) -> char {
    (digit + '0' as nat) as char
}

/// A number in decimal, without leading zeros.
pub open spec fn decimal_text(value: nat) -> Seq<char>
    decreases value,
{
    if value < 10 {
        seq![digit_char(value)]
    } else {
        decimal_text(value / 10).push(digit_char(value % 10))
    }
}

/// A number in decimal, with a minus sign where it is negative.
pub open spec fn signed_decimal_text(value: int) -> Seq<char> {
    if value < 0 {
        "-"@ + decimal_text((-value) as nat)
    } else {
        decimal_text(value as nat)
    }
}

fn digit_text(value: u64) -> (result: &'static str)
    requires
        value < 10,
    ensures
        result@ == seq![digit_char(value as nat)],
{
    proof {
        reveal_strlit("0");
        reveal_strlit("1");
        reveal_strlit("2");
        reveal_strlit("3");
        reveal_strlit("4");
        reveal_strlit("5");
        reveal_strlit("6");
        reveal_strlit("7");
        reveal_strlit("8");
        reveal_strlit("9");
    }
    match value {
        0 => "0",
        1 => "1",
        2 => "2",
        3 => "3",
        4 => "4",
        5 => "5",
        6 => "6",
        7 => "7",
        8 => "8",
        _ => "9",
    }
}

/// Prints an unsigned number in decimal.
pub fn decimal(value: u64) -> (result: String)
    ensures
        result@ == decimal_text(value as nat),
    decreases value,
{
    let mut result = if value < 10 {
        String::new()
    } else {
        decimal(value / 10)
    };
    result.append(digit_text(value % 10));
    assert(result@ =~= decimal_text(value as nat));
    result
}

/// Prints a signed number in decimal.
pub fn signed_decimal(value: i64) -> (result: String)
    ensures
        result@ == signed_decimal_text(value as int),
{
    if value < 0 {
        let mut result = "-".to_owned();
        let magnitude: u64 = if value == i64::MIN {
            9_223_372_036_854_775_808
        } else {
            (-value) as u64
        };
        let digits = decimal(magnitude);
        result.append(digits.as_str());
        result
    } else {
        decimal(value as u64)
    }
}

/// What `{:?}` prints for a character.
pub uninterp spec fn char_debug_text(character: char) -> Seq<char>;

/// Formats a character with its `Debug` implementation: quotes around it, escapes where the
/// standard library puts them. The escapes themselves stay unsaid.
#[verifier::external_body]
pub(crate) fn char_debug(character: char) -> (result: String)
    ensures
        result@ == char_debug_text(character),
{
    format!("{character:?}")
}

/// What `{:?}` prints for a text.
pub uninterp spec fn str_debug_text(text: Seq<char>) -> Seq<char>;

/// Formats a text with its `Debug` implementation: quotes around it, escapes where the standard
/// library puts them. The escapes themselves stay unsaid.
#[verifier::external_body]
pub(crate) fn str_debug(text: &str) -> (result: String)
    ensures
        result@ == str_debug_text(text@),
{
    format!("{text:?}")
}

/// Texts are read one by one.
pub proof fn texts_are_their_characters(values: Seq<String>)
    ensures
        texts(values).len() == values.len(),
        forall|i: int| 0 <= i < values.len() ==> #[trigger] texts(values)[i] == values[i]@,
{
}

/// A number in decimal ends with its last digit, after the digits of the rest, and begins with a
/// minus sign exactly where it is negative.
pub proof fn decimals_are_written_digit_by_digit(value: nat, digit: nat, number: int)
    requires
        digit < 10,
    ensures
        decimal_text(digit) == seq![digit_char(digit)],
        value > 0 ==> decimal_text(value * 10 + digit) == decimal_text(value).push(
            digit_char(digit),
        ),
        digit_char(digit) as nat == 48 + digit,
        number >= 0 ==> signed_decimal_text(number) == decimal_text(number as nat),
        number < 0 ==> signed_decimal_text(number) == seq!['-'] + decimal_text((-number) as nat),
{
    reveal_strlit("-");
    assert("-"@ =~= seq!['-']);
    if value > 0 {
        let whole = value * 10 + digit;
        assert(whole / 10 == value && whole % 10 == digit);
    }
}

} // verus!
