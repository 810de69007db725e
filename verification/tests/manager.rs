//! Connection manager tests: the embedded handshake, call routing and the
//! connection table.

use mcp_apps_host::connection::{ConnectionEvent, ConnectionState, McpServerConnection};
use mcp_apps_host::host::HostState;
use mcp_apps_host::json::JsonValue;
use mcp_apps_host::manager::{ConnectionError, ConnectionManager};

fn obj(members: Vec<(&str, JsonValue)>) -> JsonValue {
    let mut fields: Vec<(String, JsonValue)> = Vec::new();
    for (k, v) in members {
        fields.push((k.to_string(), v));
    }
    JsonValue::Obj(fields)
}

fn connected_manager() -> ConnectionManager {
    let mut mgr = ConnectionManager::new(HostState::default());
    let id = mgr.connect_embedded().unwrap();
    assert_eq!(id, "embedded");
    mgr
}

#[test]
fn test_connect_embedded_discovers_everything() {
    let mgr = connected_manager();
    let conn = mgr.get_connection("embedded").unwrap();
    assert!(conn.is_ready());
    assert!(conn.supports_ui_extension);
    assert_eq!(conn.name, "mcp-apps-embedded-server");
    assert_eq!(conn.version, "0.1.0");
    assert_eq!(conn.tools.len(), 5);
    assert_eq!(conn.resources.len(), 4);
    assert_eq!(conn.ui_resources.len(), 4);
    assert_eq!(conn.ui_resources[0].uri, "ui://weather-server/dashboard");
    assert_eq!(conn.ui_resources[1].uri, "ui://portfolio-server/gallery");
    assert_eq!(conn.ui_resources[2].uri, "ui://system-server/status");
    assert_eq!(conn.ui_resources[3].uri, "ui://notes-server/editor");
    assert!(conn.find_tool("get_weather").is_some());
    assert!(conn.find_tool("no_such_tool").is_none());
    assert!(conn.find_ui_resource("ui://weather-server/dashboard").is_some());
    let negotiated = conn.get_negotiated_capabilities().unwrap();
    assert!(negotiated.supports_ui_apps);
    assert!(negotiated.tool_notifications);
    assert!(negotiated.resource_notifications);
}

#[test]
fn test_call_tool_echoes_location() {
    let mgr = connected_manager();
    let args = obj(vec![("location", JsonValue::Str("Paris".to_string()))]);
    let res = mgr.call_tool("embedded", "get_weather", &args).unwrap();
    let sc = res.structured_content.unwrap();
    match sc.get("location") {
        Some(JsonValue::Str(loc)) => assert_eq!(loc, "Paris"),
        _ => panic!("Expected the location to be echoed"),
    }
    assert!(matches!(sc.get("temp"), Some(JsonValue::Int(25))));
    match sc.get("conditions") {
        Some(JsonValue::Str(w)) => assert_eq!(w, "Sunny"),
        _ => panic!("Expected the fixed conditions"),
    }
    assert!(res.is_error.is_none());
    assert_eq!(res.content.len(), 1);
    match &res.content[0] {
        mcp_apps_host::model::Content::Text(t) => {
            assert_eq!(t, "Sunny, 25\u{b0}C in Paris");
        }
    }
}

#[test]
fn test_call_tool_unknown_connection() {
    let mgr = connected_manager();
    let args = obj(vec![]);
    match mgr.call_tool("nowhere", "get_weather", &args) {
        Err(ConnectionError::NotFound(id)) => assert_eq!(id, "nowhere"),
        _ => panic!("Expected NotFound"),
    }
}

#[test]
fn test_call_tool_not_ready_in_every_other_state() {
    let states = vec![
        ConnectionState::Connecting,
        ConnectionState::Initializing,
        ConnectionState::Disconnected,
        ConnectionState::Error("boom".to_string()),
    ];
    for state in states {
        let mut mgr = ConnectionManager::new(HostState::default());
        let mut conn = McpServerConnection::new("c1");
        conn.set_state(state.clone());
        mgr.connections.push(("c1".to_string(), conn));
        let args = obj(vec![]);
        match mgr.call_tool("c1", "get_weather", &args) {
            Err(ConnectionError::NotReady(id)) => assert_eq!(id, "c1"),
            _ => panic!("Expected NotReady in state {:?}", state),
        }
    }
}

#[test]
fn test_call_tool_unknown_tool() {
    let mgr = connected_manager();
    let args = obj(vec![]);
    match mgr.call_tool("embedded", "no_such_tool", &args) {
        Err(ConnectionError::ToolNotFound(m)) => {
            assert_eq!(m, "Tool not found: no_such_tool");
        }
        _ => panic!("Expected ToolNotFound"),
    }
}

#[test]
fn test_call_tool_external_stub() {
    let mut mgr = ConnectionManager::new(HostState::default());
    let mut conn = McpServerConnection::new("ext");
    conn.set_state(ConnectionState::Ready);
    mgr.connections.push(("ext".to_string(), conn));
    let args = obj(vec![("k", JsonValue::Int(3))]);
    let res = mgr.call_tool("ext", "anything", &args).unwrap();
    let sc = res.structured_content.unwrap();
    assert!(sc.deep_eq(&args));
}

#[test]
fn test_read_ui_resource_not_cached() {
    let mgr = connected_manager();
    match mgr.read_ui_resource("embedded", "ui://not-cached/view") {
        Err(ConnectionError::ResourceNotFound(uri)) => {
            assert_eq!(uri, "ui://not-cached/view");
        }
        _ => panic!("Expected ResourceNotFound"),
    }
}

#[test]
fn test_read_ui_resource_embedded() {
    let mgr = connected_manager();
    let content = mgr.read_ui_resource("embedded", "ui://weather-server/dashboard").unwrap();
    assert_eq!(content.uri, "ui://weather-server/dashboard");
    assert_eq!(content.mime_type, "text/html;profile=mcp-app");
    assert!(content.blob.is_none());
    // The returned text is the embedded server's own content for that URI.
    let server = mcp_apps_host::server::EmbeddedServer::new();
    let read = server.read_resource("ui://weather-server/dashboard").unwrap();
    match &read.contents[0] {
        mcp_apps_host::model::ResourceContents::Text { text, .. } => {
            assert_eq!(content.text.as_deref(), Some(text.as_str()));
        }
    }
    // The cached metadata travels along.
    let conn = mgr.get_connection("embedded").unwrap();
    let cached = conn.find_ui_resource("ui://weather-server/dashboard").unwrap();
    assert_eq!(content._meta.is_some(), cached._meta.is_some());
}

#[test]
fn test_build_call_tool_request() {
    let mgr = ConnectionManager::new(HostState::default());
    let args = obj(vec![("location", JsonValue::Str("Paris".to_string()))]);
    let req = mgr.build_call_tool_request("get_weather", &args);
    assert_eq!(req.method, "tools/call");
    let params = req.params.unwrap();
    match params.get("name") {
        Some(JsonValue::Str(n)) => assert_eq!(n, "get_weather"),
        _ => panic!("Expected the tool name"),
    }
    assert!(params.get("arguments").unwrap().deep_eq(&args));
}

#[test]
fn test_disconnect() {
    let mut mgr = connected_manager();
    assert!(mgr.get_connection("embedded").is_some());
    mgr.disconnect("embedded").unwrap();
    assert!(mgr.get_connection("embedded").is_none());

    match mgr.disconnect("embedded") {
        Err(ConnectionError::NotFound(id)) => assert_eq!(id, "embedded"),
        _ => panic!("Expected NotFound for a second disconnect"),
    }
}

#[test]
fn test_handle_server_message() {
    let mut mgr = connected_manager();

    // A pushed notification is republished as a manager event.
    let notif = obj(vec![
        ("jsonrpc", JsonValue::Str("2.0".to_string())),
        ("method", JsonValue::Str("notifications/tools/list_changed".to_string())),
    ]);
    match mgr.handle_server_message("embedded", Some(&notif)) {
        Some(ConnectionEvent::Notification { connection_id, method, .. }) => {
            assert_eq!(connection_id, "embedded");
            assert_eq!(method, "notifications/tools/list_changed");
        }
        _ => panic!("Expected a notification event"),
    }

    // Anything that is not a notification is dropped.
    let other = obj(vec![
        ("jsonrpc", JsonValue::Str("2.0".to_string())),
        ("method", JsonValue::Str("tools/list".to_string())),
    ]);
    assert!(mgr.handle_server_message("embedded", Some(&other)).is_none());

    // End of stream marks the connection disconnected.
    match mgr.handle_server_message("embedded", None) {
        Some(ConnectionEvent::Closed { connection_id }) => {
            assert_eq!(connection_id, "embedded");
        }
        _ => panic!("Expected a closed event"),
    }
    let conn = mgr.get_connection("embedded").unwrap();
    assert!(!conn.is_ready());
}

#[test]
fn test_aggregates() {
    let mgr = connected_manager();
    let tools = mgr.get_all_tools();
    assert_eq!(tools.len(), 5);
    assert!(tools.iter().all(|(id, _)| id == "embedded"));

    let linked = mgr.get_tools_with_ui();
    assert_eq!(linked.len(), 5);
    assert!(linked.iter().any(|(_, _, uri)| uri == "ui://notes-server/editor"));

    let uris = mgr.get_all_ui_resources();
    assert_eq!(uris.len(), 4);
    assert!(uris.iter().any(|(_, uri)| uri == "ui://system-server/status"));
}

#[test]
fn test_connect_embedded_replaces_earlier_connection() {
    let mut mgr = connected_manager();
    mgr.connect_embedded().unwrap();
    assert_eq!(mgr.connections.len(), 1);
}
