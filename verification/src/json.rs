//! JSON values, which `serde_json` parses, holds and prints.

use serde_json::Value;
use vstd::prelude::*;

use crate::text::hex_digit;

verus! {

/// A JSON value of `serde_json`. The library carries such a value and asks `serde_json`
/// about it; what it holds stays opaque here.
#[verifier::external_type_specification]
#[verifier::external_body]
pub struct ExValue(serde_json::Value);

/// What `serde_json::from_str` makes of a text: the value, or the message of its error.
pub uninterp spec fn json_parse(text: Seq<char>) -> Result<Value, Seq<char>>;

/// What a JSON value holds, as the compact text that `serde_json` prints for it.
pub uninterp spec fn json_text(value: Value) -> Seq<char>;

/// The Boolean that a JSON object has under a key, if the value is an object, the key is
/// there and a Boolean stands under it.
pub uninterp spec fn json_bool_member(value: Value, key: Seq<char>) -> Option<bool>;

/// How a character stands in a JSON string literal: a quote, a backslash and the control
/// characters below the space are escaped, all others stand as they are.
pub open spec fn json_escaped_char(c: char) -> Seq<char> {
    let n = c as int;
    if c == '"' || c == '\\' {
        seq!['\\', c]
    } else if n >= 0x20 {
        seq![c]
    } else if n == 0x08 {
        seq!['\\', 'b']
    } else if n == 0x09 {
        seq!['\\', 't']
    } else if n == 0x0a {
        seq!['\\', 'n']
    } else if n == 0x0c {
        seq!['\\', 'f']
    } else if n == 0x0d {
        seq!['\\', 'r']
    } else {
        seq!['\\', 'u', '0', '0', hex_digit(n / 16), hex_digit(n % 16)]
    }
}

/// How the characters of a text stand in a JSON string literal.
pub open spec fn json_escaped(text: Seq<char>) -> Seq<char>
    decreases text.len(),
{
    if text.len() == 0 {
        Seq::empty()
    } else {
        json_escaped(text.drop_last()) + json_escaped_char(text.last())
    }
}

/// A text as a JSON string literal.
pub open spec fn json_quoted(text: Seq<char>) -> Seq<char> {
    seq!['"'] + json_escaped(text) + seq!['"']
}

/// `serde_json::from_str`, for a `serde_json::Value`. The value, or the message of the
/// error, depends on the text alone.
#[verifier::external_body]
pub(crate) fn parse_json(text: &str) -> (r: Result<Value, String>)
    ensures
        match r {
            Ok(value) => json_parse(text@) == Ok::<Value, Seq<char>>(value),
            Err(message) => json_parse(text@) == Err::<Value, Seq<char>>(message@),
        },
{
    serde_json::from_str(text).map_err(|error: serde_json::Error| error.to_string())
}

/// `serde_json::Value::to_string`: the compact text of a value.
#[verifier::external_body]
pub(crate) fn print_json(value: &Value) -> (r: String)
    ensures
        r@ == json_text(*value),
{
    value.to_string()
}

/// `serde_json::Map::is_empty`, on the object that `serde_json::Value::as_object` finds.
/// An empty object is the only value whose compact text is `{}`.
#[verifier::external_body]
pub(crate) fn is_empty_object(value: &Value) -> (r: bool)
    ensures
        r == (json_text(*value) == "{}"@),
{
    value.as_object().is_some_and(serde_json::Map::is_empty)
}

/// `serde_json::Value::from_iter`, on one key and one text: an object with that one
/// member. Its compact text has the two as string literals, with a colon between them,
/// in braces.
#[verifier::external_body]
pub(crate) fn text_object(key: &str, text: &str) -> (r: Value)
    ensures
        json_text(r) == "{"@ + json_quoted(key@) + ":"@ + json_quoted(text@) + "}"@,
{
    Value::from_iter([(key.to_string(), text.to_string())])
}

/// `serde_json::Value::as_bool`, on the member that `serde_json::Value::get` finds.
#[verifier::external_body]
pub(crate) fn bool_member(value: &Value, key: &str) -> (r: Option<bool>)
    ensures
        r == json_bool_member(*value, key@),
{
    value.get(key).and_then(Value::as_bool)
}

/// Each character of a text is escaped by itself: a quote and a backslash get a backslash
/// in front, the control characters below the space are written by a letter or by their
/// number, and all others stand as they are.
pub proof fn law_characters_are_escaped_one_by_one(c: char, front: Seq<char>, back: Seq<char>)
    ensures
        json_escaped(front + back) == json_escaped(front) + json_escaped(back),
        c as int >= 32 && c != '"' && c != '\\' ==> json_escaped(seq![c]) == seq![c],
        c == '"' || c == '\\' ==> json_escaped(seq![c]) == seq!['\\', c],
        json_escaped(seq!['\n']) == seq!['\\', 'n'],
        json_escaped(seq!['\r']) == seq!['\\', 'r'],
        json_escaped(seq!['\t']) == seq!['\\', 't'],
        json_escaped(seq!['\u{8}']) == seq!['\\', 'b'],
        json_escaped(seq!['\u{c}']) == seq!['\\', 'f'],
        ({
            let n = c as int;
            n < 32 && n != 8 && n != 9 && n != 10 && n != 12 && n != 13 ==> {
                let written = json_escaped(seq![c]);
                &&& written.len() == 6
                &&& written.take(5) == (if n < 16 {
                    seq!['\\', 'u', '0', '0', '0']
                } else {
                    seq!['\\', 'u', '0', '0', '1']
                })
                &&& written[5] as int == (if n % 16 < 10 {
                    48 + n % 16
                } else {
                    87 + n % 16
                })
            }
        }),
    decreases back.len(),
{
    lemma_one_character(c);
    lemma_one_character('\n');
    lemma_one_character('\r');
    lemma_one_character('\t');
    lemma_one_character('\u{8}');
    lemma_one_character('\u{c}');
    if back.len() == 0 {
        assert(front + back == front);
    } else {
        law_characters_are_escaped_one_by_one(c, front, back.drop_last());
        assert((front + back).drop_last() == front + back.drop_last());
        assert((front + back).last() == back.last());
    }
}

/// A text of one character is that character, escaped.
proof fn lemma_one_character(c: char)
    ensures
        json_escaped(seq![c]) == json_escaped_char(c),
{
    reveal_with_fuel(json_escaped, 2);
    assert(seq![c].drop_last() == Seq::<char>::empty());
    assert(Seq::<char>::empty() + json_escaped_char(c) == json_escaped_char(c));
}

/// A text as a string literal is its characters, escaped, between quotes.
pub proof fn law_literals_stand_in_quotes(text: Seq<char>)
    ensures
        json_quoted(text).len() == json_escaped(text).len() + 2,
        json_quoted(text).first() == '"',
        json_quoted(text).last() == '"',
        json_quoted(text).subrange(1, json_quoted(text).len() - 1) == json_escaped(text),
{
}

} // verus!
