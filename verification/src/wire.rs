//! Frames on the wire: one JSON document per line, written and read with
//! `serde_json`.

use serde_json::Value;
use vstd::prelude::*;
use vstd::string::StringExecFns;
use crate::error::{McpError, McpErrorView};
use crate::json::{Json, JsonDoc, JsonNumber};

verus! {

/// `serde_json::Value`, of which the library knows what `value_doc` says.
#[verifier::external_type_specification]
#[verifier::external_body]
pub struct ExValue(Value);

/// `serde_json::Error`, of which the library knows nothing.
#[verifier::external_type_specification]
#[verifier::external_body]
pub struct ExJsonError(serde_json::Error);

/// The document that a `serde_json::Value` holds.
pub uninterp spec fn value_doc(v: Value) -> JsonDoc;

/// The compact text that `serde_json::to_string` writes for a document, with
/// the members of an object in the order of their keys.
pub uninterp spec fn json_text(doc: JsonDoc) -> Seq<char>;

/// The text that `Display` of `serde_json::Value` writes for a document, with
/// the members of an object in the order of their keys.
pub uninterp spec fn json_display(doc: JsonDoc) -> Seq<char>;

/// The document that `serde_json::from_str` reads from a text, where it
/// accepts the text.
pub uninterp spec fn json_parse(text: Seq<char>) -> Option<JsonDoc>;

/// Builds the `serde_json::Value` of a document, variant by variant. The
/// members of an object are put in with `serde_json::Map::insert` one after
/// the other, which replaces the value of a key that is already there.
#[verifier::external_body]
fn to_value(j: &Json) -> (v: Value)
    ensures
        value_doc(v) == j@,
{
    match j {
        Json::Null => Value::Null,
        Json::Bool(b) => Value::Bool(*b),
        Json::Number(JsonNumber::PosInt(u)) => Value::from(*u),
        Json::Number(JsonNumber::NegInt(i)) => Value::from(*i),
        Json::Number(JsonNumber::Float(n)) => Value::Number(n.clone()),
        Json::Str(s) => Value::String(s.clone()),
        Json::Array(a) => Value::Array(a.iter().map(to_value).collect()),
        Json::Object(m) => Value::Object(m.iter().fold(serde_json::Map::new(), |mut object, (k, v)| {
            object.insert(k.clone(), to_value(v));
            object
        })),
    }
}

/// Reads a `serde_json::Value` into a document, variant by variant. A number
/// that `as_u64` or `as_i64` gives as an integer is held as that integer.
#[verifier::external_body]
fn from_value(v: &Value) -> (j: Json)
    ensures
        j@ == value_doc(*v),
{
    match v {
        Value::Null => Json::Null,
        Value::Bool(b) => Json::Bool(*b),
        Value::Number(n) => Json::Number(match (n.as_u64(), n.as_i64()) {
            (Some(u), _) => JsonNumber::PosInt(u),
            (_, Some(i)) => JsonNumber::NegInt(i),
            _ => JsonNumber::Float(n.clone()),
        }),
        Value::String(s) => Json::Str(s.clone()),
        Value::Array(a) => Json::Array(a.iter().map(from_value).collect()),
        Value::Object(m) => Json::Object(m.iter().map(|(k, v)| (k.clone(), from_value(v))).collect()),
    }
}

/// `serde_json::to_string` on a `Value`: the compact text of the document.
///
/// It succeeds on every `Value`: the serializer fails only where the writer
/// fails or a key is no string, and here the writer is a `Vec<u8>` and the
/// keys are `String`s. The text holds no line feed: the compact form puts no
/// white space between the parts, and a line feed inside a string is written
/// as the two characters `\n`.
#[verifier::external_body]
fn value_to_text(v: &Value) -> (r: Result<String, serde_json::Error>)
    ensures
        r is Ok,
        r matches Ok(text) ==> text@ == json_text(value_doc(*v)),
        r matches Ok(text) ==> !text@.contains('\n'),
{
    serde_json::to_string(v)
}

/// `to_string` of `serde_json::Value`, which goes through its `Display`.
#[verifier::external_body]
fn value_display(v: &Value) -> (text: String)
    ensures
        text@ == json_display(value_doc(*v)),
{
    v.to_string()
}

/// `serde_json::from_str` into a `Value`: the document of the text, or an
/// error where the text is not one JSON document.
#[verifier::external_body]
fn value_from_text(text: &str) -> (r: Result<Value, serde_json::Error>)
    ensures
        match r {
            Ok(v) => json_parse(text@) == Some(value_doc(v)),
            Err(_) => json_parse(text@) is None,
        },
{
    serde_json::from_str(text)
}

/// `prefix` followed by `detail`.
fn prefixed(prefix: &str, detail: &str) -> (text: String)
    ensures
        text@ == prefix@ + detail@,
{
    let mut text = prefix.to_owned();
    text.append(detail);
    text
}

/// What `encode_frame` owes for a message: the line that carries it, which
/// is its compact text and the one line feed that ends it.
pub open spec fn frame_encoded(doc: JsonDoc, r: Result<String, McpError>) -> bool {
    &&& r matches Ok(line)
    &&& line@ == json_text(doc) + seq!['\n']
    &&& !json_text(doc).contains('\n')
}

/// The line that carries `message`: its compact text and a line feed. Every
/// message has one.
pub fn encode_frame(message: &Json) -> (r: Result<String, McpError>)
    ensures
        frame_encoded(message@, r),
{
    let value = to_value(message);
    match value_to_text(&value) {
        Ok(text) => {
            let mut line = text;
            line.append("\n");
            proof {
                reveal_strlit("\n");
                assert("\n"@ =~= seq!['\n']);
            }
            Ok(line)
        },
        Err(e) => {
            // the serializer does not fail on a document; its failure would be this one
            let detail = e.to_string();
            Err(McpError::ProtocolError(prefixed("JSON error: ", detail.as_str())))
        },
    }
}

/// What `decode_frame` owes for a line.
pub open spec fn frame_decoded(line: Seq<char>, r: Result<Json, McpError>) -> bool {
    match json_parse(line) {
        Some(doc) => r matches Ok(reply) && reply@ == doc,
        None => r matches Err(e) && exists|detail: Seq<char>|
            e@ == McpErrorView::ProtocolError("Invalid JSON response: "@ + detail),
    }
}

/// The document on `line`, or a protocol error where the line is not one JSON
/// document.
pub fn decode_frame(line: &str) -> (r: Result<Json, McpError>)
    ensures
        frame_decoded(line@, r),
{
    match value_from_text(line) {
        Ok(value) => Ok(from_value(&value)),
        Err(e) => {
            let detail = e.to_string();
            let message = prefixed("Invalid JSON response: ", detail.as_str());
            Err(McpError::ProtocolError(message))
        },
    }
}

/// What `accept_reply` owes for a read of `read` bytes that gave `line`.
pub open spec fn reply_accepted(read: usize, line: Seq<char>, r: Result<Json, McpError>) -> bool {
    if read == 0 {
        r matches Err(e) && e@ == McpErrorView::TransportError("Read error: end of stream"@)
    } else {
        frame_decoded(line, r)
    }
}

/// The reply that a read from the server gave. A read of no bytes means that
/// the stream has ended, which is a transport failure; any other line is
/// decoded.
pub fn accept_reply(read: usize, line: &str) -> (r: Result<Json, McpError>)
    ensures
        reply_accepted(read, line@, r),
{
    if read == 0 {
        Err(McpError::TransportError("Read error: end of stream".to_owned()))
    } else {
        decode_frame(line)
    }
}

/// The text of a document as `Display` of `serde_json::Value` writes it.
pub fn display(j: &Json) -> (text: String)
    ensures
        text@ == json_display(j@),
{
    let value = to_value(j);
    value_display(&value)
}

} // verus!
