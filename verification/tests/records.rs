use skulk::json::Json;
use skulk::wire::{decode_frame, encode_frame};
use skulk::{
    PromptsCapability, ResourcesCapability, SamplingCapability, ServerCapabilities, ServerHealth,
    ServerInfo, ToolSchema, ToolsCapability,
};

fn doc(text: &str) -> Json {
    decode_frame(text).unwrap()
}

#[test]
fn test_tool_schema_deserialize() {
    let json = r#"{
            "name": "test_tool",
            "description": "A test tool",
            "inputSchema": {
                "type": "object",
                "properties": {
                    "input": {"type": "string"}
                }
            }
        }"#;

    let schema: ToolSchema = ToolSchema::from_json(&doc(json)).unwrap();
    assert_eq!(schema.name, "test_tool");
    assert_eq!(schema.description, "A test tool");
}

#[test]
fn test_tool_schema_description_defaults_to_empty() {
    let schema = ToolSchema::from_json(&doc(r#"{"name":"add","inputSchema":{}}"#)).unwrap();
    assert_eq!(schema.name, "add");
    assert_eq!(schema.description, "");
    assert_eq!(schema.input_schema, Json::Object(vec![]));
}

#[test]
fn test_tool_schema_needs_name_and_schema() {
    assert_eq!(ToolSchema::from_json(&doc(r#"{"inputSchema":{}}"#)), None);
    assert_eq!(ToolSchema::from_json(&doc(r#"{"name":"add"}"#)), None);
    assert_eq!(ToolSchema::from_json(&doc(r#"{"name":7,"inputSchema":{}}"#)), None);
    assert_eq!(ToolSchema::from_json(&doc(r#"{"name":"a","description":null,"inputSchema":{}}"#)), None);
    assert_eq!(ToolSchema::from_json(&doc(r#""add""#)), None);
    assert_eq!(ToolSchema::from_json(&doc("null")), None);
}

#[test]
fn test_tool_schema_null_schema_is_kept() {
    let schema = ToolSchema::from_json(&doc(r#"{"name":"a","inputSchema":null}"#)).unwrap();
    assert_eq!(schema.input_schema, Json::Null);
}

#[test]
fn test_tool_schema_passes_over_unknown_keys() {
    let schema = ToolSchema::from_json(&doc(r#"{"name":"a","inputSchema":1,"extra":[1,2]}"#)).unwrap();
    assert_eq!(schema.name, "a");
    assert_eq!(schema.input_schema, Json::number(1));
}

#[test]
fn test_tool_schema_from_array() {
    let schema = ToolSchema::from_json(&doc(r#"["a","does a",{"type":"object"}]"#)).unwrap();
    assert_eq!(schema.name, "a");
    assert_eq!(schema.description, "does a");
    assert_eq!(ToolSchema::from_json(&doc(r#"["a","does a"]"#)), None);
    assert_eq!(ToolSchema::from_json(&doc(r#"["a","does a",{},"more"]"#)), None);
    assert_eq!(ToolSchema::from_json(&doc(r#"[]"#)), None);
}

#[test]
fn test_tool_schema_round_trip() {
    let tool = ToolSchema {
        name: "search".to_string(),
        description: "Looks things up".to_string(),
        input_schema: doc(r#"{"type":"object","required":["q"],"properties":{"q":{"type":"string"},"n":{"type":"number","maximum":2.5}}}"#),
    };
    let written = tool.to_json();
    assert_eq!(ToolSchema::from_json(&written), Some(tool.clone()));
    let line = encode_frame(&written).unwrap();
    let back = ToolSchema::from_json(&doc(&line)).unwrap();
    assert_eq!(back.name, tool.name);
    assert_eq!(back.description, tool.description);
    assert_eq!(back.input_schema, tool.input_schema);
}

#[test]
fn test_tool_schema_to_json_keys() {
    let tool = ToolSchema { name: "t".to_string(), description: String::new(), input_schema: Json::Null };
    assert_eq!(encode_frame(&tool.to_json()).unwrap(), "{\"description\":\"\",\"inputSchema\":null,\"name\":\"t\"}\n");
}

#[test]
fn test_server_info_full() {
    let info = ServerInfo::from_json(&doc(
        r#"{"name":"echo","version":"1.0","protocolVersion":"2024-11-05","capabilities":{"tools":{"list_changed":true},"resources":{"subscribe":true},"prompts":null,"sampling":{}}}"#,
    ))
    .unwrap();
    assert_eq!(info.name, "echo");
    assert_eq!(info.version, "1.0");
    assert_eq!(info.protocol_version, "2024-11-05");
    assert_eq!(info.capabilities.tools, Some(ToolsCapability { list_changed: true }));
    assert_eq!(
        info.capabilities.resources,
        Some(ResourcesCapability { subscribe: true, list_changed: false })
    );
    assert_eq!(info.capabilities.prompts, None);
    assert_eq!(info.capabilities.sampling, Some(SamplingCapability {}));
}

#[test]
fn test_server_info_defaults() {
    let info = ServerInfo::from_json(&doc(r#"{"name":"bare"}"#)).unwrap();
    assert_eq!(info.name, "bare");
    assert_eq!(info.version, "");
    assert_eq!(info.protocol_version, "");
    assert_eq!(info.capabilities, ServerCapabilities::default());
}

#[test]
fn test_server_info_snake_case_key_is_not_the_field() {
    let info = ServerInfo::from_json(&doc(r#"{"name":"n","protocol_version":"x"}"#)).unwrap();
    assert_eq!(info.protocol_version, "");
}

#[test]
fn test_server_info_mismatch() {
    assert_eq!(ServerInfo::from_json(&doc(r#"{"version":"1.0"}"#)), None);
    assert_eq!(ServerInfo::from_json(&doc(r#"{"name":"n","version":1}"#)), None);
    assert_eq!(ServerInfo::from_json(&doc(r#"{"name":"n","capabilities":null}"#)), None);
    assert_eq!(ServerInfo::from_json(&doc(r#"{"name":"n","capabilities":{"tools":true}}"#)), None);
    assert_eq!(ServerInfo::from_json(&doc(r#"{"name":"n","capabilities":{"tools":{"list_changed":1}}}"#)), None);
    assert_eq!(ServerInfo::from_json(&doc("17")), None);
}

#[test]
fn test_server_info_from_array() {
    let info = ServerInfo::from_json(&doc(r#"["n","2"]"#)).unwrap();
    assert_eq!(info.name, "n");
    assert_eq!(info.version, "2");
    assert_eq!(info.protocol_version, "");
    assert_eq!(ServerInfo::from_json(&doc(r#"["n","2","p",{},"more"]"#)), None);
}

#[test]
fn test_capability_records() {
    assert_eq!(ToolsCapability::from_json(&doc("{}")), Some(ToolsCapability { list_changed: false }));
    assert_eq!(ToolsCapability::from_json(&doc("[true]")), Some(ToolsCapability { list_changed: true }));
    assert_eq!(ToolsCapability::from_json(&doc("[true,false]")), None);
    assert_eq!(
        ResourcesCapability::from_json(&doc(r#"{"list_changed":true}"#)),
        Some(ResourcesCapability { subscribe: false, list_changed: true })
    );
    assert_eq!(ResourcesCapability::from_json(&doc(r#"{"subscribe":"yes"}"#)), None);
    assert_eq!(PromptsCapability::from_json(&doc(r#"{"listChanged":true}"#)), Some(PromptsCapability { list_changed: false }));
    assert_eq!(SamplingCapability::from_json(&doc(r#"{"anything":1}"#)), Some(SamplingCapability {}));
    assert_eq!(SamplingCapability::from_json(&doc("[]")), Some(SamplingCapability {}));
    assert_eq!(SamplingCapability::from_json(&doc("[1]")), None);
    assert_eq!(SamplingCapability::from_json(&doc("null")), None);
    assert_eq!(
        ServerCapabilities::from_json(&doc(r#"[null,{"subscribe":true}]"#)),
        Some(ServerCapabilities {
            tools: None,
            resources: Some(ResourcesCapability { subscribe: true, list_changed: false }),
            prompts: None,
            sampling: None,
        })
    );
}

#[test]
fn test_defaults() {
    assert_eq!(ServerHealth::default(), ServerHealth::Unknown);
    assert_eq!(ToolsCapability::default(), ToolsCapability { list_changed: false });
    assert_eq!(ResourcesCapability::default(), ResourcesCapability { subscribe: false, list_changed: false });
    assert_eq!(PromptsCapability::default(), PromptsCapability { list_changed: false });
    assert_eq!(SamplingCapability::default(), SamplingCapability {});
    let caps = ServerCapabilities::default();
    assert_eq!(caps.tools, None);
    assert_eq!(caps.resources, None);
    assert_eq!(caps.prompts, None);
    assert_eq!(caps.sampling, None);
}

#[test]
fn test_server_info_clone() {
    let info = ServerInfo::from_json(&doc(r#"{"name":"echo","version":"1.0"}"#)).unwrap();
    assert_eq!(info.clone(), info);
}

#[test]
fn test_server_info_round_trip() {
    let info = ServerInfo {
        name: "echo".to_string(),
        version: "1.0".to_string(),
        protocol_version: "2024-11-05".to_string(),
        capabilities: ServerCapabilities {
            tools: Some(ToolsCapability { list_changed: true }),
            resources: None,
            prompts: Some(PromptsCapability { list_changed: false }),
            sampling: Some(SamplingCapability {}),
        },
    };
    let written = info.to_json();
    let line = encode_frame(&written).unwrap();
    assert_eq!(
        line,
        "{\"capabilities\":{\"prompts\":{\"list_changed\":false},\"resources\":null,\"sampling\":{},\"tools\":{\"list_changed\":true}},\"name\":\"echo\",\"protocolVersion\":\"2024-11-05\",\"version\":\"1.0\"}\n"
    );
    assert_eq!(ServerInfo::from_json(&written), Some(info.clone()));
    assert_eq!(ServerInfo::from_json(&doc(&line)), Some(info));
}

#[test]
fn test_capability_round_trips() {
    let resources = ResourcesCapability { subscribe: true, list_changed: false };
    assert_eq!(encode_frame(&resources.to_json()).unwrap(), "{\"list_changed\":false,\"subscribe\":true}\n");
    assert_eq!(ResourcesCapability::from_json(&resources.to_json()), Some(resources));
    let tools = ToolsCapability { list_changed: true };
    assert_eq!(ToolsCapability::from_json(&tools.to_json()), Some(tools));
    let prompts = PromptsCapability { list_changed: true };
    assert_eq!(PromptsCapability::from_json(&prompts.to_json()), Some(prompts));
    assert_eq!(SamplingCapability::from_json(&SamplingCapability {}.to_json()), Some(SamplingCapability {}));
    let none = ServerCapabilities::default();
    assert_eq!(
        encode_frame(&none.to_json()).unwrap(),
        "{\"prompts\":null,\"resources\":null,\"sampling\":null,\"tools\":null}\n"
    );
    assert_eq!(ServerCapabilities::from_json(&none.to_json()), Some(none));
}
