//! The records that a tool server sends, and how they are read from and
//! written to JSON documents.
//!
//! A record is read from an object by its keys, or from an array by position.
//! Unknown keys are passed over; an array with more items than the record has
//! fields is refused.

use vstd::prelude::*;
use crate::json::{lemma_items_doc, members_doc, push_member, Json, JsonDoc};

verus! {

/// What the server says of its tool catalog.
#[derive(Debug, Clone, Copy, PartialEq, Eq, Structural)]
pub struct ToolsCapability {
    /// The server announces changes of the catalog.
    pub list_changed: bool,
}

/// What the server says of its resources.
#[derive(Debug, Clone, Copy, PartialEq, Eq, Structural)]
pub struct ResourcesCapability {
    pub subscribe: bool,
    pub list_changed: bool,
}

/// What the server says of its prompts.
#[derive(Debug, Clone, Copy, PartialEq, Eq, Structural)]
pub struct PromptsCapability {
    pub list_changed: bool,
}

/// The server can sample.
#[derive(Debug, Clone, Copy, PartialEq, Eq, Structural)]
pub struct SamplingCapability {}

/// The capabilities that a server declared in the handshake.
#[derive(Debug, Clone, Copy, PartialEq, Eq)]
pub struct ServerCapabilities {
    pub tools: Option<ToolsCapability>,
    pub resources: Option<ResourcesCapability>,
    pub prompts: Option<PromptsCapability>,
    pub sampling: Option<SamplingCapability>,
}

impl Default for ToolsCapability {
    fn default() -> (r: ToolsCapability)
        ensures
            r == (ToolsCapability { list_changed: false }),
    {
        ToolsCapability { list_changed: false }
    }
}

impl Default for ResourcesCapability {
    fn default() -> (r: ResourcesCapability)
        ensures
            r == (ResourcesCapability { subscribe: false, list_changed: false }),
    {
        ResourcesCapability { subscribe: false, list_changed: false }
    }
}

impl Default for PromptsCapability {
    fn default() -> (r: PromptsCapability)
        ensures
            r == (PromptsCapability { list_changed: false }),
    {
        PromptsCapability { list_changed: false }
    }
}

impl Default for SamplingCapability {
    fn default() -> (r: SamplingCapability)
        ensures
            r == (SamplingCapability {  }),
    {
        SamplingCapability {  }
    }
}

impl ServerCapabilities {
    /// The capabilities of a server that declared none.
    pub open spec fn none() -> ServerCapabilities {
        ServerCapabilities { tools: None, resources: None, prompts: None, sampling: None }
    }
}

impl Default for ServerCapabilities {
    fn default() -> (r: ServerCapabilities)
        ensures
            r == ServerCapabilities::none(),
    {
        ServerCapabilities { tools: None, resources: None, prompts: None, sampling: None }
    }
}

/// How a server fares, as the last sweep found it.
#[derive(Debug, Clone, Copy, PartialEq, Eq, Structural)]
pub enum ServerHealth {
    /// The server answered the last ping.
    Healthy,
    /// The last ping failed.
    Unhealthy,
    /// The connection is not ready.
    Disconnected,
    /// No sweep has looked at the server yet.
    Unknown,
}

impl Default for ServerHealth {
    fn default() -> (r: ServerHealth)
        ensures
            r == ServerHealth::Unknown,
    {
        ServerHealth::Unknown
    }
}

/// What a server said of itself in the handshake.
#[derive(Debug, PartialEq)]
pub struct ServerInfo {
    pub name: String,
    pub version: String,
    pub protocol_version: String,
    pub capabilities: ServerCapabilities,
}

/// A `ServerInfo` with its texts as character sequences.
pub struct ServerInfoView {
    pub name: Seq<char>,
    pub version: Seq<char>,
    pub protocol_version: Seq<char>,
    pub capabilities: ServerCapabilities,
}

impl View for ServerInfo {
    type V = ServerInfoView;

    open spec fn view(&self) -> ServerInfoView {
        ServerInfoView {
            name: self.name@,
            version: self.version@,
            protocol_version: self.protocol_version@,
            capabilities: self.capabilities,
        }
    }
}

impl Clone for ServerInfo {
    fn clone(&self) -> (r: ServerInfo)
        ensures
            r@ == self@,
    {
        ServerInfo {
            name: self.name.clone(),
            version: self.version.clone(),
            protocol_version: self.protocol_version.clone(),
            capabilities: self.capabilities,
        }
    }
}

/// One tool of a server's catalog.
#[derive(Debug, PartialEq)]
pub struct ToolSchema {
    /// The name by which the tool is found and called.
    pub name: String,
    pub description: String,
    /// The schema that the tool's arguments must meet, kept as the server
    /// sent it.
    pub input_schema: Json,
}

/// A `ToolSchema` as mathematics.
pub struct ToolSchemaView {
    pub name: Seq<char>,
    pub description: Seq<char>,
    pub input_schema: JsonDoc,
}

impl View for ToolSchema {
    type V = ToolSchemaView;

    open spec fn view(&self) -> ToolSchemaView {
        ToolSchemaView {
            name: self.name@,
            description: self.description@,
            input_schema: self.input_schema@,
        }
    }
}

impl Clone for ToolSchema {
    fn clone(&self) -> (r: ToolSchema)
        ensures
            r@ == self@,
    {
        ToolSchema {
            name: self.name.clone(),
            description: self.description.clone(),
            input_schema: self.input_schema.clone(),
        }
    }
}

/// Whether a document has the shape of a record of `fields` fields: any
/// object, or an array of at most that many items.
pub open spec fn record_shape(doc: JsonDoc, fields: int) -> bool {
    match doc {
        JsonDoc::Object(_) => true,
        JsonDoc::Array(items) => items.len() <= fields,
        _ => false,
    }
}

/// Where a record's field is looked for: under `key` in an object, at
/// `index` in an array.
pub open spec fn slot(doc: JsonDoc, key: Seq<char>, index: int) -> Option<JsonDoc> {
    match doc {
        JsonDoc::Array(items) => if 0 <= index < items.len() {
            Some(items[index])
        } else {
            None
        },
        _ => doc.get(key),
    }
}

/// A text field that must be there.
pub open spec fn text_field(doc: JsonDoc, key: Seq<char>, index: int) -> Option<Seq<char>> {
    match slot(doc, key, index) {
        Some(JsonDoc::Str(text)) => Some(text),
        _ => None,
    }
}

/// A text field that is empty where the record leaves it out. A field that is
/// there and is no string fails.
pub open spec fn text_field_or_empty(doc: JsonDoc, key: Seq<char>, index: int) -> Option<Seq<char>> {
    match slot(doc, key, index) {
        None => Some(Seq::empty()),
        Some(JsonDoc::Str(text)) => Some(text),
        Some(_) => None,
    }
}

/// A flag that is off where the record leaves it out. A field that is there
/// and is no truth value fails.
pub open spec fn flag_field(doc: JsonDoc, key: Seq<char>, index: int) -> Option<bool> {
    match slot(doc, key, index) {
        None => Some(false),
        Some(JsonDoc::Bool(b)) => Some(b),
        Some(_) => None,
    }
}

/// A field that holds a record or nothing: left out or `null` it is `None`;
/// otherwise it is what `read` makes of it, and fails where `read` fails.
pub open spec fn optional_record<T>(
    found: Option<JsonDoc>,
    read: spec_fn(JsonDoc) -> Option<T>,
) -> Option<Option<T>> {
    match found {
        None => Some(None),
        Some(JsonDoc::Null) => Some(None),
        Some(doc) => match read(doc) {
            Some(record) => Some(Some(record)),
            None => None,
        },
    }
}

pub open spec fn tools_capability_of(doc: JsonDoc) -> Option<ToolsCapability> {
    if !record_shape(doc, 1) {
        None
    } else {
        match flag_field(doc, "list_changed"@, 0) {
            Some(list_changed) => Some(ToolsCapability { list_changed }),
            None => None,
        }
    }
}

pub open spec fn resources_capability_of(doc: JsonDoc) -> Option<ResourcesCapability> {
    if !record_shape(doc, 2) {
        None
    } else {
        match (flag_field(doc, "subscribe"@, 0), flag_field(doc, "list_changed"@, 1)) {
            (Some(subscribe), Some(list_changed)) => Some(ResourcesCapability { subscribe, list_changed }),
            _ => None,
        }
    }
}

pub open spec fn prompts_capability_of(doc: JsonDoc) -> Option<PromptsCapability> {
    if !record_shape(doc, 1) {
        None
    } else {
        match flag_field(doc, "list_changed"@, 0) {
            Some(list_changed) => Some(PromptsCapability { list_changed }),
            None => None,
        }
    }
}

pub open spec fn sampling_capability_of(doc: JsonDoc) -> Option<SamplingCapability> {
    if !record_shape(doc, 0) {
        None
    } else {
        Some(SamplingCapability {  })
    }
}

pub open spec fn server_capabilities_of(doc: JsonDoc) -> Option<ServerCapabilities> {
    if !record_shape(doc, 4) {
        None
    } else {
        match (
            optional_record(slot(doc, "tools"@, 0), |d: JsonDoc| tools_capability_of(d)),
            optional_record(slot(doc, "resources"@, 1), |d: JsonDoc| resources_capability_of(d)),
            optional_record(slot(doc, "prompts"@, 2), |d: JsonDoc| prompts_capability_of(d)),
            optional_record(slot(doc, "sampling"@, 3), |d: JsonDoc| sampling_capability_of(d)),
        ) {
            (Some(tools), Some(resources), Some(prompts), Some(sampling)) => Some(
                ServerCapabilities { tools, resources, prompts, sampling },
            ),
            _ => None,
        }
    }
}

/// The capabilities of a `ServerInfo`: none where the record leaves the field
/// out.
pub open spec fn capabilities_field(doc: JsonDoc, key: Seq<char>, index: int) -> Option<ServerCapabilities> {
    match slot(doc, key, index) {
        None => Some(ServerCapabilities::none()),
        Some(found) => server_capabilities_of(found),
    }
}

/// The `ServerInfo` that a document holds, where it holds one: a name, and as
/// far as they are there a version, a protocol version and capabilities.
pub open spec fn server_info_of(doc: JsonDoc) -> Option<ServerInfoView> {
    if !record_shape(doc, 4) {
        None
    } else {
        match (
            text_field(doc, "name"@, 0),
            text_field_or_empty(doc, "version"@, 1),
            text_field_or_empty(doc, "protocolVersion"@, 2),
            capabilities_field(doc, "capabilities"@, 3),
        ) {
            (Some(name), Some(version), Some(protocol_version), Some(capabilities)) => Some(
                ServerInfoView { name, version, protocol_version, capabilities },
            ),
            _ => None,
        }
    }
}

/// The `ToolSchema` that a document holds, where it holds one: a name, an
/// input schema of any form, and a description where there is one.
pub open spec fn tool_schema_of(doc: JsonDoc) -> Option<ToolSchemaView> {
    if !record_shape(doc, 3) {
        None
    } else {
        match (
            text_field(doc, "name"@, 0),
            text_field_or_empty(doc, "description"@, 1),
            slot(doc, "inputSchema"@, 2),
        ) {
            (Some(name), Some(description), Some(input_schema)) => Some(
                ToolSchemaView { name, description, input_schema },
            ),
            _ => None,
        }
    }
}

/// The object in which a `ToolsCapability` is written.
pub open spec fn tools_capability_doc(record: ToolsCapability) -> JsonDoc {
    JsonDoc::Object(Map::empty().insert("list_changed"@, JsonDoc::Bool(record.list_changed)))
}

/// The object in which a `ResourcesCapability` is written.
pub open spec fn resources_capability_doc(record: ResourcesCapability) -> JsonDoc {
    JsonDoc::Object(
        Map::empty().insert("subscribe"@, JsonDoc::Bool(record.subscribe)).insert(
            "list_changed"@,
            JsonDoc::Bool(record.list_changed),
        ),
    )
}

/// The object in which a `PromptsCapability` is written.
pub open spec fn prompts_capability_doc(record: PromptsCapability) -> JsonDoc {
    JsonDoc::Object(Map::empty().insert("list_changed"@, JsonDoc::Bool(record.list_changed)))
}

/// The object in which a `SamplingCapability` is written: one without
/// members.
pub open spec fn sampling_capability_doc(record: SamplingCapability) -> JsonDoc {
    JsonDoc::Object(Map::empty())
}

/// How a field that holds a record or nothing is written: nothing is `null`.
pub open spec fn optional_doc<T>(value: Option<T>, write: spec_fn(T) -> JsonDoc) -> JsonDoc {
    match value {
        Some(record) => write(record),
        None => JsonDoc::Null,
    }
}

/// The object in which `ServerCapabilities` are written.
pub open spec fn server_capabilities_doc(record: ServerCapabilities) -> JsonDoc {
    JsonDoc::Object(
        Map::empty().insert(
            "tools"@,
            optional_doc(record.tools, |r: ToolsCapability| tools_capability_doc(r)),
        ).insert(
            "resources"@,
            optional_doc(record.resources, |r: ResourcesCapability| resources_capability_doc(r)),
        ).insert(
            "prompts"@,
            optional_doc(record.prompts, |r: PromptsCapability| prompts_capability_doc(r)),
        ).insert(
            "sampling"@,
            optional_doc(record.sampling, |r: SamplingCapability| sampling_capability_doc(r)),
        ),
    )
}

/// The object in which a `ServerInfo` is written.
pub open spec fn server_info_doc(info: ServerInfoView) -> JsonDoc {
    JsonDoc::Object(
        Map::empty().insert("name"@, JsonDoc::Str(info.name)).insert(
            "version"@,
            JsonDoc::Str(info.version),
        ).insert("protocolVersion"@, JsonDoc::Str(info.protocol_version)).insert(
            "capabilities"@,
            server_capabilities_doc(info.capabilities),
        ),
    )
}

/// The keys of the records are different from each other.
proof fn lemma_keys_differ()
    ensures
        "subscribe"@ != "list_changed"@,
        "tools"@ != "resources"@,
        "tools"@ != "prompts"@,
        "tools"@ != "sampling"@,
        "resources"@ != "prompts"@,
        "resources"@ != "sampling"@,
        "prompts"@ != "sampling"@,
        "name"@ != "version"@,
        "name"@ != "protocolVersion"@,
        "name"@ != "capabilities"@,
        "version"@ != "protocolVersion"@,
        "version"@ != "capabilities"@,
        "protocolVersion"@ != "capabilities"@,
        "name"@ != "description"@,
        "name"@ != "inputSchema"@,
        "description"@ != "inputSchema"@,
{
    reveal_strlit("subscribe");
    reveal_strlit("list_changed");
    reveal_strlit("tools");
    reveal_strlit("resources");
    reveal_strlit("prompts");
    reveal_strlit("sampling");
    reveal_strlit("name");
    reveal_strlit("version");
    reveal_strlit("protocolVersion");
    reveal_strlit("capabilities");
    reveal_strlit("description");
    reveal_strlit("inputSchema");
    assert("subscribe"@.len() == 9 && "list_changed"@.len() == 12);
    assert("tools"@.len() == 5 && "resources"@.len() == 9);
    assert("prompts"@.len() == 7 && "sampling"@.len() == 8);
    assert("name"@.len() == 4 && "version"@.len() == 7);
    assert("protocolVersion"@.len() == 15 && "capabilities"@.len() == 12);
    assert("description"@[0] != "inputSchema"@[0]);
}

/// A `ToolsCapability` that is written as a document and read back is the
/// same.
pub proof fn lemma_tools_capability_round_trip(record: ToolsCapability)
    ensures
        tools_capability_of(tools_capability_doc(record)) == Some(record),
{
}

/// A `ResourcesCapability` that is written as a document and read back is
/// the same.
pub proof fn lemma_resources_capability_round_trip(record: ResourcesCapability)
    ensures
        resources_capability_of(resources_capability_doc(record)) == Some(record),
{
    lemma_keys_differ();
}

/// A `PromptsCapability` that is written as a document and read back is the
/// same.
pub proof fn lemma_prompts_capability_round_trip(record: PromptsCapability)
    ensures
        prompts_capability_of(prompts_capability_doc(record)) == Some(record),
{
}

/// A `SamplingCapability` that is written as a document and read back is
/// the same.
pub proof fn lemma_sampling_capability_round_trip(record: SamplingCapability)
    ensures
        sampling_capability_of(sampling_capability_doc(record)) == Some(record),
{
}

/// Capabilities that are written as a document and read back are the same.
pub proof fn lemma_server_capabilities_round_trip(record: ServerCapabilities)
    ensures
        server_capabilities_of(server_capabilities_doc(record)) == Some(record),
{
    lemma_keys_differ();
}

/// A server description that is written as a document and read back is the
/// same description.
pub proof fn lemma_server_info_round_trip(info: ServerInfoView)
    ensures
        server_info_of(server_info_doc(info)) == Some(info),
{
    lemma_keys_differ();
}

/// The object in which a `ToolSchema` is written.
pub open spec fn tool_schema_doc(tool: ToolSchemaView) -> JsonDoc {
    JsonDoc::Object(
        Map::empty().insert("name"@, JsonDoc::Str(tool.name)).insert(
            "description"@,
            JsonDoc::Str(tool.description),
        ).insert("inputSchema"@, tool.input_schema),
    )
}

/// A tool that is written as a document and read back is the same tool: name,
/// description and input schema.
pub proof fn lemma_tool_schema_round_trip(tool: ToolSchemaView)
    ensures
        tool_schema_of(tool_schema_doc(tool)) == Some(tool),
{
    lemma_keys_differ();
}

fn has_record_shape(j: &Json, fields: usize) -> (r: bool)
    ensures
        r == record_shape(j@, fields as int),
{
    match j {
        Json::Object(_) => true,
        Json::Array(items) => {
            proof {
                lemma_items_doc(items@);
            }
            items.len() <= fields
        },
        _ => false,
    }
}

fn find_slot<'a>(j: &'a Json, key: &str, index: usize) -> (r: Option<&'a Json>)
    ensures
        match r {
            Some(found) => slot(j@, key@, index as int) == Some(found@),
            None => slot(j@, key@, index as int) is None,
        },
{
    match j {
        Json::Array(items) => {
            proof {
                lemma_items_doc(items@);
            }
            if index < items.len() {
                Some(&items[index])
            } else {
                None
            }
        },
        _ => j.get(key),
    }
}

fn read_text(j: &Json, key: &str, index: usize) -> (r: Option<String>)
    ensures
        match r {
            Some(text) => text_field(j@, key@, index as int) == Some(text@),
            None => text_field(j@, key@, index as int) is None,
        },
{
    match find_slot(j, key, index) {
        Some(Json::Str(text)) => Some(text.clone()),
        _ => None,
    }
}

fn read_text_or_empty(j: &Json, key: &str, index: usize) -> (r: Option<String>)
    ensures
        match r {
            Some(text) => text_field_or_empty(j@, key@, index as int) == Some(text@),
            None => text_field_or_empty(j@, key@, index as int) is None,
        },
{
    match find_slot(j, key, index) {
        None => Some(String::new()),
        Some(Json::Str(text)) => Some(text.clone()),
        Some(_) => None,
    }
}

fn read_flag(j: &Json, key: &str, index: usize) -> (r: Option<bool>)
    ensures
        r == flag_field(j@, key@, index as int),
{
    match find_slot(j, key, index) {
        None => Some(false),
        Some(Json::Bool(b)) => Some(*b),
        Some(_) => None,
    }
}

impl ToolsCapability {
    /// Writes the record as an object.
    pub fn to_json(&self) -> (j: Json)
        ensures
            j@ == tools_capability_doc(*self),
    {
        let mut members: Vec<(String, Json)> = Vec::new();
        push_member(&mut members, "list_changed", Json::Bool(self.list_changed));
        Json::Object(members)
    }

    /// Reads the record from a document.
    pub fn from_json(j: &Json) -> (r: Option<ToolsCapability>)
        ensures
            r == tools_capability_of(j@),
    {
        if !has_record_shape(j, 1) {
            return None;
        }
        match read_flag(j, "list_changed", 0) {
            Some(list_changed) => Some(ToolsCapability { list_changed }),
            None => None,
        }
    }
}

impl ResourcesCapability {
    /// Writes the record as an object.
    pub fn to_json(&self) -> (j: Json)
        ensures
            j@ == resources_capability_doc(*self),
    {
        let mut members: Vec<(String, Json)> = Vec::new();
        push_member(&mut members, "subscribe", Json::Bool(self.subscribe));
        push_member(&mut members, "list_changed", Json::Bool(self.list_changed));
        Json::Object(members)
    }

    /// Reads the record from a document.
    pub fn from_json(j: &Json) -> (r: Option<ResourcesCapability>)
        ensures
            r == resources_capability_of(j@),
    {
        if !has_record_shape(j, 2) {
            return None;
        }
        let subscribe = read_flag(j, "subscribe", 0);
        let list_changed = read_flag(j, "list_changed", 1);
        match (subscribe, list_changed) {
            (Some(subscribe), Some(list_changed)) => Some(ResourcesCapability { subscribe, list_changed }),
            _ => None,
        }
    }
}

impl PromptsCapability {
    /// Writes the record as an object.
    pub fn to_json(&self) -> (j: Json)
        ensures
            j@ == prompts_capability_doc(*self),
    {
        let mut members: Vec<(String, Json)> = Vec::new();
        push_member(&mut members, "list_changed", Json::Bool(self.list_changed));
        Json::Object(members)
    }

    /// Reads the record from a document.
    pub fn from_json(j: &Json) -> (r: Option<PromptsCapability>)
        ensures
            r == prompts_capability_of(j@),
    {
        if !has_record_shape(j, 1) {
            return None;
        }
        match read_flag(j, "list_changed", 0) {
            Some(list_changed) => Some(PromptsCapability { list_changed }),
            None => None,
        }
    }
}

impl SamplingCapability {
    /// Writes the record as an object.
    pub fn to_json(&self) -> (j: Json)
        ensures
            j@ == sampling_capability_doc(*self),
    {
        Json::Object(Vec::new())
    }

    /// Reads the record from a document.
    pub fn from_json(j: &Json) -> (r: Option<SamplingCapability>)
        ensures
            r == sampling_capability_of(j@),
    {
        if has_record_shape(j, 0) {
            Some(SamplingCapability {  })
        } else {
            None
        }
    }
}

impl ServerCapabilities {
    /// Writes the record as an object.
    pub fn to_json(&self) -> (j: Json)
        ensures
            j@ == server_capabilities_doc(*self),
    {
        let tools = match &self.tools {
            Some(record) => record.to_json(),
            None => Json::Null,
        };
        let resources = match &self.resources {
            Some(record) => record.to_json(),
            None => Json::Null,
        };
        let prompts = match &self.prompts {
            Some(record) => record.to_json(),
            None => Json::Null,
        };
        let sampling = match &self.sampling {
            Some(record) => record.to_json(),
            None => Json::Null,
        };
        let mut members: Vec<(String, Json)> = Vec::new();
        push_member(&mut members, "tools", tools);
        push_member(&mut members, "resources", resources);
        push_member(&mut members, "prompts", prompts);
        push_member(&mut members, "sampling", sampling);
        Json::Object(members)
    }

    /// Reads the record from a document.
    pub fn from_json(j: &Json) -> (r: Option<ServerCapabilities>)
        ensures
            r == server_capabilities_of(j@),
    {
        if !has_record_shape(j, 4) {
            return None;
        }
        let tools = match find_slot(j, "tools", 0) {
            None => None,
            Some(Json::Null) => None,
            Some(found) => match ToolsCapability::from_json(found) {
                Some(record) => Some(record),
                None => {
                    return None;
                },
            },
        };
        let resources = match find_slot(j, "resources", 1) {
            None => None,
            Some(Json::Null) => None,
            Some(found) => match ResourcesCapability::from_json(found) {
                Some(record) => Some(record),
                None => {
                    return None;
                },
            },
        };
        let prompts = match find_slot(j, "prompts", 2) {
            None => None,
            Some(Json::Null) => None,
            Some(found) => match PromptsCapability::from_json(found) {
                Some(record) => Some(record),
                None => {
                    return None;
                },
            },
        };
        let sampling = match find_slot(j, "sampling", 3) {
            None => None,
            Some(Json::Null) => None,
            Some(found) => match SamplingCapability::from_json(found) {
                Some(record) => Some(record),
                None => {
                    return None;
                },
            },
        };
        Some(ServerCapabilities { tools, resources, prompts, sampling })
    }
}

impl ServerInfo {
    /// Writes the record as an object.
    pub fn to_json(&self) -> (j: Json)
        ensures
            j@ == server_info_doc(self@),
    {
        let mut members: Vec<(String, Json)> = Vec::new();
        push_member(&mut members, "name", Json::Str(self.name.clone()));
        push_member(&mut members, "version", Json::Str(self.version.clone()));
        push_member(&mut members, "protocolVersion", Json::Str(self.protocol_version.clone()));
        push_member(&mut members, "capabilities", self.capabilities.to_json());
        Json::Object(members)
    }

    /// Reads the record from a document.
    pub fn from_json(j: &Json) -> (r: Option<ServerInfo>)
        ensures
            match r {
                Some(info) => server_info_of(j@) == Some(info@),
                None => server_info_of(j@) is None,
            },
    {
        if !has_record_shape(j, 4) {
            return None;
        }
        let name = match read_text(j, "name", 0) {
            Some(text) => text,
            None => {
                return None;
            },
        };
        let version = match read_text_or_empty(j, "version", 1) {
            Some(text) => text,
            None => {
                return None;
            },
        };
        let protocol_version = match read_text_or_empty(j, "protocolVersion", 2) {
            Some(text) => text,
            None => {
                return None;
            },
        };
        let capabilities = match find_slot(j, "capabilities", 3) {
            None => ServerCapabilities::default(),
            Some(found) => match ServerCapabilities::from_json(found) {
                Some(record) => record,
                None => {
                    return None;
                },
            },
        };
        Some(ServerInfo { name, version, protocol_version, capabilities })
    }
}

impl ToolSchema {
    /// Reads the record from a document.
    pub fn from_json(j: &Json) -> (r: Option<ToolSchema>)
        ensures
            match r {
                Some(tool) => tool_schema_of(j@) == Some(tool@),
                None => tool_schema_of(j@) is None,
            },
    {
        if !has_record_shape(j, 3) {
            return None;
        }
        let name = match read_text(j, "name", 0) {
            Some(text) => text,
            None => {
                return None;
            },
        };
        let description = match read_text_or_empty(j, "description", 1) {
            Some(text) => text,
            None => {
                return None;
            },
        };
        let input_schema = match find_slot(j, "inputSchema", 2) {
            Some(found) => found.clone(),
            None => {
                return None;
            },
        };
        Some(ToolSchema { name, description, input_schema })
    }

    /// Writes the record as an object.
    pub fn to_json(&self) -> (j: Json)
        ensures
            j@ == tool_schema_doc(self@),
    {
        let mut members: Vec<(String, Json)> = Vec::new();
        push_member(&mut members, "name", Json::Str(self.name.clone()));
        push_member(&mut members, "description", Json::Str(self.description.clone()));
        push_member(&mut members, "inputSchema", self.input_schema.clone());
        Json::Object(members)
    }
}

} // verus!
