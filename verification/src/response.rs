//! Reading the answer of the completion service: a JSON document in which
//! the generated text stands at `choices[0].message.content`.
//!
//! Decoding and looking into the decoded document is the work of
//! `serde_json`. What it returns is known here by name only: the functions
//! below that call it are stated, not proved.

use crate::report::{Reply, ReplyView};
use vstd::prelude::*;

verus! {

/// A decoded JSON document.
#[verifier::external_type_specification]
#[verifier::external_body]
pub struct ExValue(serde_json::Value);

/// Why a text could not be decoded.
#[verifier::external_type_specification]
#[verifier::external_body]
pub struct ExDecodeCause(serde_json::Error);

/// What `serde_json::from_str` makes of a text: the document that it
/// decodes to, or why it does not decode.
pub uninterp spec fn json_decoded(text: Seq<char>) -> Result<
    serde_json::Value,
    serde_json::Error,
>;

/// What indexing a document with a key gives.
pub uninterp spec fn json_member(value: serde_json::Value, key: Seq<char>) -> serde_json::Value;

/// What indexing a document with a position gives.
pub uninterp spec fn json_element(value: serde_json::Value, index: nat) -> serde_json::Value;

/// The text of a document that is a JSON string.
pub uninterp spec fn json_string(value: serde_json::Value) -> Option<Seq<char>>;

/// A document written out with `{:?}`.
pub uninterp spec fn json_debug(value: serde_json::Value) -> Seq<char>;

/// Calls `serde_json::from_str` for a `serde_json::Value`. Whether a text
/// decodes, to which document, and with which error if not, depends on the
/// text alone.
#[verifier::external_body]
fn decode(body: &str) -> (decoded: Result<serde_json::Value, serde_json::Error>)
    ensures
        decoded == json_decoded(body@),
{
    serde_json::from_str(body)
}

/// Applies the index operator of `serde_json::Value` to a key. It does not
/// fail: where the document is no object or has no such member, it gives
/// the null document. The result depends on the document and the key alone.
#[verifier::external_body]
fn member<'a>(value: &'a serde_json::Value, key: &str) -> (found: &'a serde_json::Value)
    ensures
        *found == json_member(*value, key@),
{
    &value[key]
}

/// Applies the index operator of `serde_json::Value` to a position. It does
/// not fail: where the document is no array or has no such element, it
/// gives the null document. The result depends on the document and the
/// position alone.
#[verifier::external_body]
fn element<'a>(value: &'a serde_json::Value, index: usize) -> (found: &'a serde_json::Value)
    ensures
        *found == json_element(*value, index as nat),
{
    &value[index]
}

/// Calls `serde_json::Value::as_str`: the text of a JSON string, and nothing
/// for any other document.
#[verifier::external_body]
fn string_of<'a>(value: &'a serde_json::Value) -> (text: Option<&'a str>)
    ensures
        match text {
            Some(found) => json_string(*value) == Some(found@),
            None => json_string(*value) is None,
        },
{
    value.as_str()
}

/// Writes a `serde_json::Value` out through its `Debug` impl, by `format!`
/// with `{:?}`. The text depends on the document alone.
#[verifier::external_body]
fn debug_text(value: &serde_json::Value) -> (text: String)
    ensures
        text@ == json_debug(*value),
{
    format!("{:?}", value)
}

/// The generated text in a decoded answer: the JSON string at
/// `choices[0].message.content`, if there is one.
pub open spec fn content_of(value: serde_json::Value) -> Option<Seq<char>> {
    json_string(
        json_member(
            json_member(json_element(json_member(value, "choices"@), 0), "message"@),
            "content"@,
        ),
    )
}

/// What a decoded answer holds: its generated text, or, where it has none,
/// the whole answer written out.
pub open spec fn reply_of(value: serde_json::Value) -> ReplyView {
    match content_of(value) {
        Some(message) => ReplyView::Text(message),
        None => ReplyView::Missing(json_debug(value)),
    }
}

/// A body that is no JSON document.
#[derive(Debug)]
pub struct DecodeError {
    /// What the decoder said.
    pub cause: serde_json::Error,
}

/// Looks up the generated text in a decoded answer.
pub fn content(value: &serde_json::Value) -> (text: Option<String>)
    ensures
        match text {
            Some(message) => content_of(*value) == Some(message@),
            None => content_of(*value) is None,
        },
{
    let choices = member(value, "choices");
    let first = element(choices, 0);
    let message = member(first, "message");
    let found = member(message, "content");
    match string_of(found) {
        Some(text) => Some(text.to_owned()),
        None => None,
    }
}

/// Says what a decoded answer holds.
pub fn reply_from(value: &serde_json::Value) -> (reply: Reply)
    ensures
        reply@ == reply_of(*value),
{
    match content(value) {
        Some(message) => Reply::Text(message),
        None => Reply::Missing(debug_text(value)),
    }
}

/// Decodes the body of an answer and says what it holds. A body that is no
/// JSON document is an error; one without a generated text is not.
pub fn read_reply(body: &str) -> (read: Result<Reply, DecodeError>)
    ensures
        match json_decoded(body@) {
            Ok(value) => read is Ok && read.unwrap()@ == reply_of(value),
            Err(cause) => read is Err && read.unwrap_err().cause == cause,
        },
{
    match decode(body) {
        Ok(value) => Ok(reply_from(&value)),
        Err(cause) => Err(DecodeError { cause }),
    }
}

} // verus!
