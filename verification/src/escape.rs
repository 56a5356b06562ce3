//! Text inside HTML.

use vstd::prelude::*;

verus! {

/// What a character becomes between tags.
pub open spec fn escaped_char(character: char) -> Seq<char> {
    if character == '&' {
        "&amp;"@
    } else if character == '<' {
        "&lt;"@
    } else if character == '>' {
        "&gt;"@
    } else {
        seq![character]
    }
}

/// What a character becomes between double quotes.
pub open spec fn quoted_char(character: char) -> Seq<char> {
    if character == '"' {
        "&quot;"@
    } else {
        escaped_char(character)
    }
}

/// What a text becomes between tags.
pub open spec fn escaped(text: Seq<char>) -> Seq<char>
    decreases text.len(),
{
    if text.len() == 0 {
        Seq::empty()
    } else {
        escaped(text.drop_last()) + escaped_char(text.last())
    }
}

/// What a text becomes between double quotes.
pub open spec fn quoted(text: Seq<char>) -> Seq<char>
    decreases text.len(),
{
    if text.len() == 0 {
        Seq::empty()
    } else {
        quoted(text.drop_last()) + quoted_char(text.last())
    }
}

/// Calls `html_escape::encode_text`, which writes `&`, `<` and `>` as entities and leaves every
/// other character alone.
#[verifier::external_body]
pub(crate) fn escape_text(text: &str) -> (result: String)
    ensures
        result@ == escaped(text@),
{
    html_escape::encode_text(text).into_owned()
}

/// Calls `html_escape::encode_double_quoted_attribute`, which writes `&`, `<`, `>` and `"` as
/// entities and leaves every other character alone.
#[verifier::external_body]
pub(crate) fn quote_attribute(text: &str) -> (result: String)
    ensures
        result@ == quoted(text@),
{
    html_escape::encode_double_quoted_attribute(text).into_owned()
}

/// The entities hold no character that means something in HTML, but for the `&` they begin with.
proof fn lemma_entities()
    ensures
        !"&amp;"@.contains('<') && !"&amp;"@.contains('>') && !"&amp;"@.contains('"'),
        !"&lt;"@.contains('<') && !"&lt;"@.contains('>') && !"&lt;"@.contains('"'),
        !"&gt;"@.contains('<') && !"&gt;"@.contains('>') && !"&gt;"@.contains('"'),
        !"&quot;"@.contains('<') && !"&quot;"@.contains('>') && !"&quot;"@.contains('"'),
{
    reveal_strlit("&amp;");
    reveal_strlit("&lt;");
    reveal_strlit("&gt;");
    reveal_strlit("&quot;");
}

/// Text that is written between tags opens and closes none.
pub proof fn escaped_text_holds_no_tag(text: Seq<char>)
    ensures
        !escaped(text).contains('<'),
        !escaped(text).contains('>'),
    decreases text.len(),
{
    lemma_entities();
    if text.len() > 0 {
        let before = escaped(text.drop_last());
        let last = escaped_char(text.last());
        escaped_text_holds_no_tag(text.drop_last());
        lemma_parts(before, last, '<');
        lemma_parts(before, last, '>');
    }
}

/// Text that is written between double quotes does not end them, and opens and closes no tag.
pub proof fn quoted_text_stays_quoted(text: Seq<char>)
    ensures
        !quoted(text).contains('"'),
        !quoted(text).contains('<'),
        !quoted(text).contains('>'),
    decreases text.len(),
{
    lemma_entities();
    if text.len() > 0 {
        let before = quoted(text.drop_last());
        let last = quoted_char(text.last());
        quoted_text_stays_quoted(text.drop_last());
        lemma_parts(before, last, '"');
        lemma_parts(before, last, '<');
        lemma_parts(before, last, '>');
    }
}

proof fn lemma_parts(left: Seq<char>, right: Seq<char>, character: char)
    requires
        !left.contains(character),
        !right.contains(character),
    ensures
        !(left + right).contains(character),
{
    let whole = left + right;
    if whole.contains(character) {
        let place = choose|place: int| 0 <= place < whole.len() && whole[place] == character;
        if place < left.len() {
            assert(left[place] == character);
        } else {
            assert(right[place - left.len()] == character);
        }
    }
}

/// Text is escaped character by character, and only the characters that mean something in HTML
/// change.
pub proof fn text_is_escaped_character_by_character(text: Seq<char>, character: char)
    ensures
        escaped(Seq::<char>::empty()) == Seq::<char>::empty(),
        quoted(Seq::<char>::empty()) == Seq::<char>::empty(),
        escaped(text.push(character)) == escaped(text) + match character {
            '&' => "&amp;"@,
            '<' => "&lt;"@,
            '>' => "&gt;"@,
            _ => seq![character],
        },
        quoted(text.push(character)) == quoted(text) + match character {
            '&' => "&amp;"@,
            '<' => "&lt;"@,
            '>' => "&gt;"@,
            '"' => "&quot;"@,
            _ => seq![character],
        },
{
    assert(text.push(character).drop_last() =~= text);
}

} // verus!
