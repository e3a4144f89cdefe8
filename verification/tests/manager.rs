use skulk::json::Json;
use skulk::wire::{accept_reply, decode_frame, encode_frame};
use skulk::{McpError, McpManager, McpServerConfig, McpTransport, ServerHealth, TransportConfig};

/// A server that answers from a script. Each step is `method|reply line`, or
/// `method|!failure` where the transport is to fail. A request beyond the last
/// step finds the stream ended.
#[derive(Debug)]
struct Scripted {
    steps: Vec<String>,
    next: usize,
    requests: i64,
    failing_notifications: Vec<String>,
}

impl McpTransport for Scripted {
    fn spawn(command: &str, args: &Vec<String>, env: &Vec<(String, String)>) -> Result<Self, McpError> {
        if command == "missing" {
            return Err(McpError::TransportError("Failed to spawn: no such program".to_string()));
        }
        Ok(Scripted {
            steps: args.clone(),
            next: 0,
            requests: 0,
            failing_notifications: env
                .iter()
                .filter(|(key, _)| key == "FAIL_NOTIFICATION")
                .map(|(_, method)| method.clone())
                .collect(),
        })
    }

    fn send_request(&mut self, request: Json) -> Result<Json, McpError> {
        assert_eq!(request.get("jsonrpc"), Some(&Json::string("2.0")));
        assert_eq!(request.get("id").and_then(|id| id.as_i64()), Some(self.requests));
        assert!(request.get("params").is_some());
        self.requests += 1;
        let line = encode_frame(&request)?;
        assert!(line.ends_with('\n'));
        assert_eq!(line.matches('\n').count(), 1);
        let step = match self.steps.get(self.next) {
            Some(step) => step.clone(),
            None => return accept_reply(0, ""),
        };
        self.next += 1;
        let (method, reply) = step.split_once('|').unwrap();
        assert_eq!(request.get("method").and_then(|m| m.as_str()), Some(method));
        match reply.strip_prefix('!') {
            Some(failure) => Err(McpError::TransportError(failure.to_string())),
            None => accept_reply(reply.len(), reply),
        }
    }

    fn send_notification(&mut self, notification: Json) -> Result<(), McpError> {
        assert_eq!(notification.get("jsonrpc"), Some(&Json::string("2.0")));
        assert_eq!(notification.get("id"), None);
        assert!(notification.get("params").is_some());
        let method = notification.get("method").and_then(|m| m.as_str()).unwrap().to_string();
        encode_frame(&notification)?;
        if self.failing_notifications.contains(&method) {
            return Err(McpError::TransportError("Write error: broken pipe".to_string()));
        }
        Ok(())
    }

    fn close(self) -> Result<(), McpError> {
        Ok(())
    }
}

const HANDSHAKE: &str = r#"initialize|{"jsonrpc":"2.0","id":0,"result":{"name":"echo","version":"1.0","protocolVersion":"2024-11-05","capabilities":{}}}"#;

fn stdio(id: &str, steps: &[&str]) -> McpServerConfig {
    McpServerConfig {
        id: id.to_string(),
        name: format!("server {}", id),
        transport: TransportConfig::Stdio {
            command: "scripted".to_string(),
            args: steps.iter().map(|step| step.to_string()).collect(),
        },
        env: vec![],
    }
}

const ONE_TOOL: &str = r#"tools/list|{"result":{"tools":[{"name":"add","inputSchema":{}}]}}"#;
const TWO_TOOLS: &str = r#"tools/list|{"result":{"tools":[{"name":"add","description":"other add","inputSchema":{}},{"name":"mul","inputSchema":{}}]}}"#;
const PONG: &str = r#"ping|{"result":{}}"#;

#[test]
fn test_manager_creation() {
    let manager = McpManager::<Scripted>::new();
    assert!(manager.server_ids().is_empty());
    assert!(manager.list_tools().is_empty());
}

#[test]
fn test_default_manager_is_empty() {
    let manager: McpManager<Scripted> = Default::default();
    assert!(manager.server_ids().is_empty());
    assert_eq!(manager.server_health("a"), None);
}

#[test]
fn test_connect_registers_server() {
    let mut manager = McpManager::<Scripted>::new();
    manager.connect(stdio("a", &[HANDSHAKE, ONE_TOOL])).unwrap();
    assert_eq!(manager.server_ids(), vec!["a".to_string()]);
    assert_eq!(manager.server_health("a"), Some(ServerHealth::Healthy));
    let tools = manager.list_server_tools("a");
    assert_eq!(tools.len(), 1);
    assert_eq!(tools[0].name, "add");
    let connection = manager.get_connection("a").unwrap();
    assert!(connection.is_connected());
    assert_eq!(connection.server_info().unwrap().name, "echo");
    assert_eq!(connection.config().name, "server a");
}

#[test]
fn test_connect_then_disconnect_leaves_nothing() {
    let mut manager = McpManager::<Scripted>::new();
    manager.connect(stdio("a", &[HANDSHAKE, ONE_TOOL])).unwrap();
    manager.connect(stdio("b", &[HANDSHAKE, TWO_TOOLS])).unwrap();
    assert!(manager.disconnect("a").is_ok());
    assert!(manager.get_connection("a").is_none());
    assert!(manager.list_server_tools("a").is_empty());
    assert_eq!(manager.server_health("a"), None);
    assert_eq!(manager.server_ids(), vec!["b".to_string()]);
    assert_eq!(manager.list_tools().len(), 2);
    assert_eq!(manager.server_health("b"), Some(ServerHealth::Healthy));
}

#[test]
fn test_disconnect_twice_and_unknown() {
    let mut manager = McpManager::<Scripted>::new();
    assert!(manager.disconnect("ghost").is_ok());
    manager.connect(stdio("a", &[HANDSHAKE, ONE_TOOL])).unwrap();
    assert!(manager.disconnect("a").is_ok());
    assert!(manager.disconnect("a").is_ok());
    assert!(manager.server_ids().is_empty());
}

#[test]
fn test_connect_is_all_or_nothing() {
    let mut manager = McpManager::<Scripted>::new();
    manager.connect(stdio("keep", &[HANDSHAKE, ONE_TOOL])).unwrap();

    let mut missing = stdio("a", &[]);
    missing.transport = TransportConfig::Stdio { command: "missing".to_string(), args: vec![] };
    assert!(matches!(manager.connect(missing), Err(McpError::TransportError(_))));

    let mut socket = stdio("a", &[]);
    socket.transport = TransportConfig::Socket { path: "/run/x".to_string() };
    match manager.connect(socket) {
        Err(McpError::TransportError(text)) => assert_eq!(text, "Socket transport not implemented"),
        other => panic!("unexpected: {:?}", other),
    }

    let bad_handshake = stdio("a", &[r#"initialize|{"result":{}}"#]);
    assert!(matches!(manager.connect(bad_handshake), Err(McpError::ProtocolError(_))));

    let failing_listing = stdio("a", &[HANDSHAKE, r#"tools/list|{"error":{"code":-32601,"message":"method not found"}}"#]);
    match manager.connect(failing_listing) {
        Err(McpError::RpcError { code, .. }) => assert_eq!(code, -32601),
        other => panic!("unexpected: {:?}", other),
    }

    let dead_after_handshake = stdio("a", &[HANDSHAKE]);
    assert!(matches!(manager.connect(dead_after_handshake), Err(McpError::TransportError(_))));

    let mut unannounced = stdio("a", &[HANDSHAKE, ONE_TOOL]);
    unannounced.env = vec![("FAIL_NOTIFICATION".to_string(), "notifications/initialized".to_string())];
    assert!(matches!(manager.connect(unannounced), Err(McpError::TransportError(_))));

    assert_eq!(manager.server_ids(), vec!["keep".to_string()]);
    assert!(manager.get_connection("a").is_none());
    assert!(manager.list_server_tools("a").is_empty());
    assert_eq!(manager.server_health("a"), None);
}

#[test]
fn test_connect_same_id_replaces() {
    let mut manager = McpManager::<Scripted>::new();
    manager.connect(stdio("a", &[HANDSHAKE, ONE_TOOL])).unwrap();
    manager.connect(stdio("b", &[HANDSHAKE, ONE_TOOL])).unwrap();
    manager.connect(stdio("a", &[HANDSHAKE, TWO_TOOLS])).unwrap();
    assert_eq!(manager.server_ids(), vec!["a".to_string(), "b".to_string()]);
    assert_eq!(manager.list_server_tools("a").len(), 2);
    assert_eq!(manager.list_tools().len(), 3);
}

#[test]
fn test_list_tools_is_in_table_order() {
    let mut manager = McpManager::<Scripted>::new();
    manager.connect(stdio("b", &[HANDSHAKE, TWO_TOOLS])).unwrap();
    manager.connect(stdio("a", &[HANDSHAKE, ONE_TOOL])).unwrap();
    let names: Vec<String> = manager.list_tools().into_iter().map(|tool| tool.name).collect();
    assert_eq!(names, vec!["add".to_string(), "mul".to_string(), "add".to_string()]);
}

#[test]
fn test_find_tool() {
    let mut manager = McpManager::<Scripted>::new();
    assert!(manager.find_tool("add").is_none());
    manager.connect(stdio("a", &[HANDSHAKE, ONE_TOOL])).unwrap();
    manager.connect(stdio("b", &[HANDSHAKE, TWO_TOOLS])).unwrap();
    let (id, tool) = manager.find_tool("add").unwrap();
    assert_eq!(id, "a");
    assert_eq!(tool.description, "");
    let (id, tool) = manager.find_tool("mul").unwrap();
    assert_eq!(id, "b");
    assert_eq!(tool.name, "mul");
    assert!(manager.find_tool("div").is_none());
}

#[test]
fn test_find_tool_names_only_connected_servers() {
    let mut manager = McpManager::<Scripted>::new();
    manager.connect(stdio("a", &[HANDSHAKE, ONE_TOOL])).unwrap();
    manager.connect(stdio("b", &[HANDSHAKE, TWO_TOOLS])).unwrap();
    manager.disconnect("a").unwrap();
    let (id, tool) = manager.find_tool("add").unwrap();
    assert_eq!(id, "b");
    assert_eq!(tool.description, "other add");
    assert!(manager.get_connection(&id).is_some());
    manager.disconnect("b").unwrap();
    assert!(manager.find_tool("add").is_none());
}

#[test]
fn test_call_tool_routes_by_server_id() {
    let mut manager = McpManager::<Scripted>::new();
    manager
        .connect(stdio("a", &[HANDSHAKE, ONE_TOOL, r#"tools/call|{"result":{"content":[{"type":"text","text":"4"}]}}"#]))
        .unwrap();
    let content = manager.call_tool("a", "add", decode_frame(r#"{"a":2,"b":2}"#).unwrap()).unwrap();
    assert_eq!(content, decode_frame(r#"[{"type":"text","text":"4"}]"#).unwrap());
}

#[test]
fn test_call_tool_unknown_server() {
    let mut manager = McpManager::<Scripted>::new();
    manager.connect(stdio("a", &[HANDSHAKE, ONE_TOOL])).unwrap();
    match manager.call_tool("zz", "add", Json::Null) {
        Err(McpError::ServerNotFound(id)) => assert_eq!(id, "zz"),
        other => panic!("unexpected: {:?}", other),
    }
}

#[test]
fn test_refresh_tools_replaces_cache() {
    let mut manager = McpManager::<Scripted>::new();
    manager.connect(stdio("a", &[HANDSHAKE, TWO_TOOLS, ONE_TOOL, r#"tools/list|{"result":{"tools":[]}}"#])).unwrap();
    assert_eq!(manager.list_server_tools("a").len(), 2);
    let refreshed = manager.refresh_tools("a").unwrap();
    assert_eq!(refreshed.len(), 1);
    assert_eq!(refreshed, manager.list_server_tools("a"));
    assert!(manager.find_tool("mul").is_none());
    assert!(manager.refresh_tools("a").unwrap().is_empty());
    assert!(manager.list_server_tools("a").is_empty());
}

#[test]
fn test_refresh_tools_failure_keeps_cache() {
    let mut manager = McpManager::<Scripted>::new();
    manager.connect(stdio("a", &[HANDSHAKE, TWO_TOOLS, "tools/list|!Read error: reset"])).unwrap();
    assert!(matches!(manager.refresh_tools("a"), Err(McpError::TransportError(_))));
    assert_eq!(manager.list_server_tools("a").len(), 2);
    match manager.refresh_tools("zz") {
        Err(McpError::ServerNotFound(id)) => assert_eq!(id, "zz"),
        other => panic!("unexpected: {:?}", other),
    }
}

#[test]
fn test_health_check() {
    let mut manager = McpManager::<Scripted>::new();
    manager.connect(stdio("alive", &[HANDSHAKE, ONE_TOOL, PONG])).unwrap();
    manager.connect(stdio("exited", &[HANDSHAKE, ONE_TOOL])).unwrap();
    manager.connect(stdio("refusing", &[HANDSHAKE, ONE_TOOL, r#"ping|{"error":{"code":1,"message":"no"}}"#])).unwrap();
    manager.health_check();
    assert_eq!(manager.server_health("alive"), Some(ServerHealth::Healthy));
    assert_eq!(manager.server_health("exited"), Some(ServerHealth::Unhealthy));
    assert_eq!(manager.server_health("refusing"), Some(ServerHealth::Unhealthy));
    assert_eq!(manager.server_health("nobody"), None);
    manager.health_check();
    assert_eq!(manager.server_health("alive"), Some(ServerHealth::Unhealthy));
    assert_eq!(manager.server_ids().len(), 3);
    assert_eq!(manager.list_tools().len(), 3);
}

#[test]
fn test_health_check_of_shut_down_connection() {
    let mut manager = McpManager::<Scripted>::new();
    manager.connect(stdio("a", &[HANDSHAKE, ONE_TOOL, PONG])).unwrap();
    manager.get_connection_mut("a").unwrap().shutdown().unwrap();
    manager.health_check();
    assert_eq!(manager.server_health("a"), Some(ServerHealth::Disconnected));
    assert!(matches!(manager.call_tool("a", "add", Json::Null), Err(McpError::NotConnected)));
    assert!(manager.get_connection_mut("zz").is_none());
}

#[test]
fn test_notify_sandbox_state_reaches_all() {
    let mut manager = McpManager::<Scripted>::new();
    let mut deaf = stdio("deaf", &[HANDSHAKE, ONE_TOOL, PONG]);
    deaf.env = vec![("FAIL_NOTIFICATION".to_string(), "notifications/sandbox_state".to_string())];
    manager.connect(deaf).unwrap();
    manager.connect(stdio("b", &[HANDSHAKE, ONE_TOOL, PONG])).unwrap();
    manager.notify_sandbox_state(true, "strict");
    manager.notify_sandbox_state(false, "");
    assert_eq!(manager.server_ids().len(), 2);
    manager.health_check();
    assert_eq!(manager.server_health("deaf"), Some(ServerHealth::Healthy));
    assert_eq!(manager.server_health("b"), Some(ServerHealth::Healthy));
}

#[test]
fn test_broadcast_sandbox_state_reports_each_server() {
    let mut manager = McpManager::<Scripted>::new();
    let mut deaf = stdio("deaf", &[HANDSHAKE, ONE_TOOL]);
    deaf.env = vec![("FAIL_NOTIFICATION".to_string(), "notifications/sandbox_state".to_string())];
    manager.connect(deaf).unwrap();
    manager.connect(stdio("b", &[HANDSHAKE, ONE_TOOL])).unwrap();
    manager.connect(stdio("gone", &[HANDSHAKE, ONE_TOOL])).unwrap();
    manager.get_connection_mut("gone").unwrap().shutdown().unwrap();
    let outcomes = manager.broadcast_sandbox_state(true, "strict");
    assert_eq!(outcomes.len(), 3);
    assert_eq!(outcomes[0].0, "deaf");
    assert!(matches!(outcomes[0].1, Err(McpError::TransportError(_))));
    assert_eq!(outcomes[1].0, "b");
    assert!(outcomes[1].1.is_ok());
    assert_eq!(outcomes[2].0, "gone");
    assert!(matches!(outcomes[2].1, Err(McpError::NotConnected)));
    assert_eq!(manager.server_ids().len(), 3);
}

static CLOSES: std::sync::atomic::AtomicUsize = std::sync::atomic::AtomicUsize::new(0);

#[derive(Debug)]
struct Counted;

impl McpTransport for Counted {
    fn spawn(_: &str, _: &Vec<String>, _: &Vec<(String, String)>) -> Result<Self, McpError> {
        Ok(Counted)
    }
    fn send_request(&mut self, _: Json) -> Result<Json, McpError> {
        decode_frame(r#"{"result":{"name":"r","tools":[]}}"#)
    }
    fn send_notification(&mut self, _: Json) -> Result<(), McpError> {
        Ok(())
    }
    fn close(self) -> Result<(), McpError> {
        CLOSES.fetch_add(1, std::sync::atomic::Ordering::SeqCst);
        Err(McpError::TransportError("still running".to_string()))
    }
}

#[test]
fn test_disconnect_shuts_the_connection_down() {
    let mut manager = McpManager::<Counted>::new();
    manager.connect(stdio("a", &[])).unwrap();
    manager.connect(stdio("b", &[])).unwrap();
    assert_eq!(CLOSES.load(std::sync::atomic::Ordering::SeqCst), 0);
    assert!(manager.disconnect("a").is_ok());
    assert_eq!(CLOSES.load(std::sync::atomic::Ordering::SeqCst), 1);
    assert!(manager.disconnect("a").is_ok());
    assert!(manager.disconnect("zz").is_ok());
    assert_eq!(CLOSES.load(std::sync::atomic::Ordering::SeqCst), 1);
    assert!(manager.get_connection("b").unwrap().is_connected());
    assert_eq!(manager.server_ids(), vec!["b".to_string()]);
}
