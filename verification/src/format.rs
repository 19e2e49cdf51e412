//! The text of the state file: a JSON object with the members `width` and
//! `height`, both unsigned integers.
//!
//! Writing is done here, character by character. Reading goes through
//! `serde_json`, which decides what is a JSON object and what its members
//! hold; the rules on top of that are this module's.

use crate::state::WindowState;
use serde_json::value::RawValue;
use std::collections::BTreeMap;
use vstd::prelude::*;
use vstd::string::*;

verus! {

/// Name of the member that holds the width.
pub const WIDTH_KEY: &'static str = "width";

/// Name of the member that holds the height.
pub const HEIGHT_KEY: &'static str = "height";

/// The decimal digit `d`, for `d` below ten.
pub open spec fn digit_text(d: nat) -> Seq<char> {
    if d == 0 {
        "0"@
    } else if d == 1 {
        "1"@
    } else if d == 2 {
        "2"@
    } else if d == 3 {
        "3"@
    } else if d == 4 {
        "4"@
    } else if d == 5 {
        "5"@
    } else if d == 6 {
        "6"@
    } else if d == 7 {
        "7"@
    } else if d == 8 {
        "8"@
    } else {
        "9"@
    }
}

/// `n` in decimal, without sign or leading zeros.
pub open spec fn decimal_text(n: nat) -> Seq<char>
    decreases n,
{
    if n < 10 {
        digit_text(n)
    } else {
        decimal_text(n / 10) + digit_text(n % 10)
    }
}

/// The text that is written for `state`: the object on four lines, indented
/// by two spaces, the width first, with no newline after the closing brace.
pub open spec fn record_text(state: WindowState) -> Seq<char> {
    "{\n  \"width\": "@ + decimal_text(state.width as nat) + ",\n  \"height\": "@ + decimal_text(
        state.height as nat,
    ) + "\n}"@
}

fn digit_str(d: u32) -> (text: &'static str)
    requires
        d < 10,
    ensures
        text@ == digit_text(d as nat),
{
    if d == 0 {
        "0"
    } else if d == 1 {
        "1"
    } else if d == 2 {
        "2"
    } else if d == 3 {
        "3"
    } else if d == 4 {
        "4"
    } else if d == 5 {
        "5"
    } else if d == 6 {
        "6"
    } else if d == 7 {
        "7"
    } else if d == 8 {
        "8"
    } else {
        "9"
    }
}

/// Appends `n` in decimal to `out`.
fn append_decimal(out: &mut String, n: u32)
    ensures
        final(out)@ == old(out)@ + decimal_text(n as nat),
    decreases n,
{
    if n >= 10 {
        append_decimal(out, n / 10);
    }
    out.append(digit_str(n % 10));
}

/// Renders `state` as the text of the state file.
pub fn encode(state: &WindowState) -> (text: String)
    ensures
        text@ == record_text(*state),
{
    let mut text = String::from_str("{\n  \"width\": ");
    append_decimal(&mut text, state.width);
    text.append(",\n  \"height\": ");
    append_decimal(&mut text, state.height);
    text.append("\n}");
    text
}

/// What `serde_json` reads in `text` under the keys `first` and `second`.
/// `None` where its parser refuses the text as a JSON object: the text is not
/// one JSON document, or the document is not an object. What the other
/// members hold is passed over without being read. Else the pair of what the
/// object holds under each key: `Some(n)` where it has a member of that name
/// (the last one, where the name is repeated) whose value the parser reads as
/// an unsigned integer of 32 bits, `n`; in every other case `None`. This is
/// `serde_json` as built here: with its feature `raw_value`, without
/// `arbitrary_precision`.
pub uninterp spec fn json_unsigned_members(
    text: Seq<char>,
    first: Seq<char>,
    second: Seq<char>,
) -> Option<(Option<u32>, Option<u32>)>;

/// Parses `text` with `serde_json::from_str` into a map from member names to
/// the raw text of their values (`serde_json::value::RawValue`), looks each
/// key up with `BTreeMap::get`, and parses the raw text found (`RawValue::get`)
/// with `serde_json::from_str` as a `u32`. The contract names the outcome,
/// which is a function of the text and the keys, and states one fact: a text
/// as [`record_text`] describes it is an object whose members `width` and
/// `height` hold the two numbers that stand in it in decimal.
#[verifier::external_body]
fn read_unsigned_members(text: &str, first: &str, second: &str) -> (found: Option<
    (Option<u32>, Option<u32>),
>)
    ensures
        found == json_unsigned_members(text@, first@, second@),
        forall|width: u32, height: u32|
            text@ == #[trigger] record_text(WindowState { width, height }) && first@ == WIDTH_KEY@
                && second@ == HEIGHT_KEY@ ==> found == Some((Some(width), Some(height))),
{
    match serde_json::from_str::<BTreeMap<String, Box<RawValue>>>(text) {
        Ok(members) => Some(
            (
                members.get(first).and_then(|raw| serde_json::from_str::<u32>(raw.get()).ok()),
                members.get(second).and_then(|raw| serde_json::from_str::<u32>(raw.get()).ok()),
            ),
        ),
        Err(_) => None,
    }
}

/// The parser accepts `text` as one JSON document that is an object,
/// whatever its members hold.
pub open spec fn is_json_object(text: Seq<char>) -> bool {
    json_unsigned_members(text, WIDTH_KEY@, HEIGHT_KEY@) is Some
}

/// The record that the members found under the two keys make: the text must
/// be an object, and both members must be there.
pub open spec fn record_of(members: Option<(Option<u32>, Option<u32>)>) -> Option<WindowState> {
    match members {
        Some((Some(width), Some(height))) => Some(WindowState { width, height }),
        _ => None,
    }
}

/// Builds the record from what was read under the two keys.
pub fn record_from_members(members: Option<(Option<u32>, Option<u32>)>) -> (record: Option<
    WindowState,
>)
    ensures
        record == record_of(members),
{
    match members {
        Some((Some(width), Some(height))) => Some(WindowState { width, height }),
        _ => None,
    }
}

/// The record that `text` holds, if it holds one. The dimensions are not
/// judged here: a record of a window that is too small is still a record.
pub open spec fn decoded(text: Seq<char>) -> Option<WindowState> {
    record_of(json_unsigned_members(text, WIDTH_KEY@, HEIGHT_KEY@))
}

/// Reads the record out of the text of a state file. A text that
/// [`encode`] wrote is read back as the record it was written from.
pub fn decode(text: &str) -> (record: Option<WindowState>)
    ensures
        record == decoded(text@),
        forall|state: WindowState| text@ == #[trigger] record_text(state) ==> record == Some(state),
{
    let record = record_from_members(read_unsigned_members(text, WIDTH_KEY, HEIGHT_KEY));
    assert forall|state: WindowState| text@ == #[trigger] record_text(state) implies record
        == Some(state) by {
        assert(state == WindowState { width: state.width, height: state.height });
    }
    record
}

} // verus!
