//! The JSON-RPC 2.0 envelope and the protocol's messages: what is sent for
//! each operation, and what a reply means.

use vstd::prelude::*;
use crate::error::{McpError, McpErrorView};
use crate::json::{items_doc, lemma_items_doc, push_member, Json, JsonDoc, NumberDoc};
use crate::types::{server_info_of, tool_schema_of, ServerInfo, ServerInfoView, ToolSchema, ToolSchemaView};
use crate::wire::{display, json_display};

verus! {

/// A result with both sides taken by their views.
pub open spec fn outcome_view<T: View>(r: Result<T, McpError>) -> Result<T::V, McpErrorView> {
    match r {
        Ok(value) => Ok(value@),
        Err(e) => Err(e@),
    }
}

/// The views of a list of tools, in order.
pub open spec fn tool_views(tools: Seq<ToolSchema>) -> Seq<ToolSchemaView> {
    tools.map_values(|tool: ToolSchema| tool@)
}

/// The request `method` with `params`, numbered `id`.
pub open spec fn request_doc(id: u64, method: Seq<char>, params: JsonDoc) -> JsonDoc {
    JsonDoc::Object(
        Map::empty().insert("jsonrpc"@, JsonDoc::Str("2.0"@)).insert(
            "id"@,
            JsonDoc::Number(NumberDoc::Int(id as int)),
        ).insert("method"@, JsonDoc::Str(method)).insert("params"@, params),
    )
}

/// The notification `method` with `params`: a request without a number.
pub open spec fn notification_doc(method: Seq<char>, params: JsonDoc) -> JsonDoc {
    JsonDoc::Object(
        Map::empty().insert("jsonrpc"@, JsonDoc::Str("2.0"@)).insert(
            "method"@,
            JsonDoc::Str(method),
        ).insert("params"@, params),
    )
}

/// The object without members.
pub open spec fn empty_object_doc() -> JsonDoc {
    JsonDoc::Object(Map::empty())
}

/// What the client says of itself in the handshake.
pub open spec fn initialize_params_doc() -> JsonDoc {
    JsonDoc::Object(
        Map::empty().insert("protocolVersion"@, JsonDoc::Str("2024-11-05"@)).insert(
            "capabilities"@,
            JsonDoc::Object(
                Map::empty().insert("tools"@, empty_object_doc()).insert("sampling"@, empty_object_doc()),
            ),
        ).insert(
            "clientInfo"@,
            JsonDoc::Object(
                Map::empty().insert("name"@, JsonDoc::Str("lair"@)).insert(
                    "version"@,
                    JsonDoc::Str("0.1.0"@),
                ),
            ),
        ),
    )
}

/// The parameters of a call of the tool `name` with `arguments`.
pub open spec fn tool_call_params_doc(name: Seq<char>, arguments: JsonDoc) -> JsonDoc {
    JsonDoc::Object(
        Map::empty().insert("name"@, JsonDoc::Str(name)).insert("arguments"@, arguments),
    )
}

/// The parameters of a sandbox-state notification.
pub open spec fn sandbox_state_params_doc(enabled: bool, policy: Seq<char>) -> JsonDoc {
    JsonDoc::Object(
        Map::empty().insert("enabled"@, JsonDoc::Bool(enabled)).insert("policy"@, JsonDoc::Str(policy)),
    )
}

/// What a reply means: a reply with an `error` member is the server's
/// refusal, with `-1` and `"Unknown error"` where the member gives no code or
/// message; any other reply gives its `result` member, `null` where there is
/// none. The reply's `id` is not looked at.
pub open spec fn reply_meaning(reply: JsonDoc) -> Result<JsonDoc, McpErrorView> {
    match reply.get("error"@) {
        Some(error) => Err(
            McpErrorView::RpcError {
                code: match error.field("code"@).as_i64() {
                    Some(code) => code,
                    None => -1i64,
                },
                message: match error.field("message"@).as_str() {
                    Some(message) => message,
                    None => "Unknown error"@,
                },
            },
        ),
        None => Ok(reply.field("result"@)),
    }
}

/// What the result of `tools/call` means: a result with an `error` member is
/// the tool's failure, with the member's text; any other gives its `content`
/// member, `null` where there is none.
pub open spec fn tool_call_meaning(result: JsonDoc) -> Result<JsonDoc, McpErrorView> {
    match result.get("error"@) {
        Some(error) => Err(McpErrorView::ToolError(json_display(error))),
        None => Ok(result.field("content"@)),
    }
}

/// The tools among `items`: each item that holds a `ToolSchema`, in order.
pub open spec fn schemas_of(items: Seq<JsonDoc>) -> Seq<ToolSchemaView>
    decreases items.len(),
{
    if items.len() == 0 {
        Seq::empty()
    } else {
        let before = schemas_of(items.drop_last());
        match tool_schema_of(items.last()) {
            Some(tool) => before.push(tool),
            None => before,
        }
    }
}

/// What the result of `tools/list` means: the tools among the items of its
/// `tools` member, and none where that member is no array.
pub open spec fn listing_meaning(result: JsonDoc) -> Seq<ToolSchemaView> {
    match result.field("tools"@).as_array() {
        Some(items) => schemas_of(items),
        None => Seq::empty(),
    }
}

/// What the result of `initialize` means: the server's description, or a
/// protocol error where the result holds none.
pub open spec fn handshake_meaning(result: JsonDoc) -> Result<ServerInfoView, McpErrorView> {
    match server_info_of(result) {
        Some(info) => Ok(info),
        None => Err(McpErrorView::ProtocolError("Invalid server info: reply does not hold one"@)),
    }
}

/// The object without members.
pub fn empty_object() -> (j: Json)
    ensures
        j@ == empty_object_doc(),
{
    Json::Object(Vec::new())
}

/// The envelope of the request `method` with `params`, numbered `id`.
pub fn request_envelope(id: u64, method: &str, params: Json) -> (j: Json)
    ensures
        j@ == request_doc(id, method@, params@),
{
    let mut members: Vec<(String, Json)> = Vec::new();
    push_member(&mut members, "jsonrpc", Json::string("2.0"));
    push_member(&mut members, "id", Json::number(id));
    push_member(&mut members, "method", Json::string(method));
    push_member(&mut members, "params", params);
    Json::Object(members)
}

/// The envelope of the notification `method` with `params`.
pub fn notification_envelope(method: &str, params: Json) -> (j: Json)
    ensures
        j@ == notification_doc(method@, params@),
{
    let mut members: Vec<(String, Json)> = Vec::new();
    push_member(&mut members, "jsonrpc", Json::string("2.0"));
    push_member(&mut members, "method", Json::string(method));
    push_member(&mut members, "params", params);
    Json::Object(members)
}

/// The parameters of the `initialize` request.
pub fn initialize_params() -> (j: Json)
    ensures
        j@ == initialize_params_doc(),
{
    let mut capabilities: Vec<(String, Json)> = Vec::new();
    push_member(&mut capabilities, "tools", empty_object());
    push_member(&mut capabilities, "sampling", empty_object());
    let mut client: Vec<(String, Json)> = Vec::new();
    push_member(&mut client, "name", Json::string("lair"));
    push_member(&mut client, "version", Json::string("0.1.0"));
    let mut members: Vec<(String, Json)> = Vec::new();
    push_member(&mut members, "protocolVersion", Json::string("2024-11-05"));
    push_member(&mut members, "capabilities", Json::Object(capabilities));
    push_member(&mut members, "clientInfo", Json::Object(client));
    Json::Object(members)
}

/// The parameters of a `tools/call` request.
pub fn tool_call_params(name: &str, arguments: Json) -> (j: Json)
    ensures
        j@ == tool_call_params_doc(name@, arguments@),
{
    let mut members: Vec<(String, Json)> = Vec::new();
    push_member(&mut members, "name", Json::string(name));
    push_member(&mut members, "arguments", arguments);
    Json::Object(members)
}

/// The parameters of a sandbox-state notification.
pub fn sandbox_state_params(enabled: bool, policy: &str) -> (j: Json)
    ensures
        j@ == sandbox_state_params_doc(enabled, policy@),
{
    let mut members: Vec<(String, Json)> = Vec::new();
    push_member(&mut members, "enabled", Json::Bool(enabled));
    push_member(&mut members, "policy", Json::string(policy));
    Json::Object(members)
}

/// Reads a reply: the server's refusal as an RPC error, or the reply's
/// result.
pub fn read_reply(reply: &Json) -> (r: Result<Json, McpError>)
    ensures
        outcome_view(r) == reply_meaning(reply@),
{
    match reply.get("error") {
        Some(error) => {
            let code = match error.get("code") {
                Some(found) => match found.as_i64() {
                    Some(code) => code,
                    None => -1,
                },
                None => -1,
            };
            let message = match error.get("message") {
                Some(found) => match found.as_str() {
                    Some(text) => text.to_owned(),
                    None => "Unknown error".to_owned(),
                },
                None => "Unknown error".to_owned(),
            };
            Err(McpError::RpcError { code, message })
        },
        None => Ok(reply.field("result")),
    }
}

/// Reads the result of `tools/call`: the tool's failure, or the content.
pub fn read_tool_call(result: &Json) -> (r: Result<Json, McpError>)
    ensures
        outcome_view(r) == tool_call_meaning(result@),
{
    match result.get("error") {
        Some(error) => Err(McpError::ToolError(display(error))),
        None => Ok(result.field("content")),
    }
}

/// Reads the result of `initialize`.
pub fn read_handshake(result: &Json) -> (r: Result<ServerInfo, McpError>)
    ensures
        outcome_view(r) == handshake_meaning(result@),
{
    match ServerInfo::from_json(result) {
        Some(info) => Ok(info),
        None => Err(
            McpError::ProtocolError("Invalid server info: reply does not hold one".to_owned()),
        ),
    }
}

/// Reads the result of `tools/list`. An item that holds no tool is passed
/// over.
pub fn read_listing(result: &Json) -> (tools: Vec<ToolSchema>)
    ensures
        tool_views(tools@) == listing_meaning(result@),
{
    let mut tools: Vec<ToolSchema> = Vec::new();
    match result.get("tools") {
        Some(Json::Array(items)) => {
            let ghost docs = items_doc(items@);
            proof {
                lemma_items_doc(items@);
            }
            let mut i: usize = 0;
            while i < items.len()
                invariant
                    i <= items.len(),
                    docs == items_doc(items@),
                    docs.len() == items.len(),
                    forall|k: int| 0 <= k < items.len() ==> (#[trigger] docs[k]) == items[k]@,
                    tool_views(tools@) == schemas_of(docs.subrange(0, i as int)),
                decreases items.len() - i,
            {
                let found = ToolSchema::from_json(&items[i]);
                proof {
                    let upto = docs.subrange(0, i as int + 1);
                    assert(upto.drop_last() =~= docs.subrange(0, i as int));
                }
                if let Some(tool) = found {
                    tools.push(tool);
                }
                i = i + 1;
            }
            proof {
                assert(docs.subrange(0, items.len() as int) =~= docs);
            }
        },
        _ => {},
    }
    tools
}

} // verus!
