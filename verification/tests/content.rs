//! Content classification, server dispatch and string helper tests.

use mcp_apps_host::content::UiContent;
use mcp_apps_host::json::JsonValue;
use mcp_apps_host::resources::{UiResourceContent, UiResourceMeta};
use mcp_apps_host::connection::McpServerConnection;
use mcp_apps_host::model::{parse_call_tool_result, Content, Resource};
use mcp_apps_host::server::EmbeddedServer;
use mcp_apps_host::strutil::{str_contains, str_ends_with, str_eq, str_starts_with};
use mcp_apps_host::resources::UiResource;

fn obj(members: Vec<(&str, JsonValue)>) -> JsonValue {
    let mut fields: Vec<(String, JsonValue)> = Vec::new();
    for (k, v) in members {
        fields.push((k.to_string(), v));
    }
    JsonValue::Obj(fields)
}

fn text_content(text: &str) -> UiResourceContent {
    UiResourceContent {
        uri: "ui://x/y".to_string(),
        mime_type: "text/html;profile=mcp-app".to_string(),
        text: Some(text.to_string()),
        blob: None,
        _meta: None,
    }
}

#[test]
fn test_content_classifies_html() {
    let c = UiContent::from_resource_content(text_content("<h1>Hello</h1>"), None);
    assert!(c.is_html());
    assert!(!c.is_rhai());
    match c {
        UiContent::Html { content, metadata } => {
            assert_eq!(content, "<h1>Hello</h1>");
            assert!(metadata.is_none());
        }
        _ => panic!("Expected HTML"),
    }
}

#[test]
fn test_content_classifies_script() {
    let c = UiContent::from_resource_content(
        text_content("  \n el(\"div\", #{}, [])"),
        Some("{\"temp\":25}".to_string()),
    );
    match c {
        UiContent::RhaiScript { script, context } => {
            assert!(script.contains("el("));
            assert_eq!(context, "{\"temp\":25}");
        }
        _ => panic!("Expected a script"),
    }

    let by_context = UiContent::from_resource_content(
        text_content("let x = data.structured_content;"),
        None,
    );
    match by_context {
        UiContent::RhaiScript { context, .. } => assert_eq!(context, "{}"),
        _ => panic!("Expected a script by its data. reference"),
    }
}

#[test]
fn test_content_decodes_blob() {
    // "PGgxPkhpPC9oMT4=" is the standard base64 encoding of "<h1>Hi</h1>".
    let content = UiResourceContent {
        uri: "ui://x/y".to_string(),
        mime_type: "text/html;profile=mcp-app".to_string(),
        text: None,
        blob: Some("PGgxPkhpPC9oMT4=".to_string()),
        _meta: Some(UiResourceMeta { ui: None }),
    };
    match UiContent::from_resource_content(content, None) {
        UiContent::Html { content, metadata } => {
            assert_eq!(content, "<h1>Hi</h1>");
            assert!(metadata.is_some());
        }
        _ => panic!("Expected decoded HTML"),
    }
}

#[test]
fn test_content_without_payload_is_error() {
    let content = UiResourceContent {
        uri: "ui://x/y".to_string(),
        mime_type: "text/html;profile=mcp-app".to_string(),
        text: None,
        blob: None,
        _meta: None,
    };
    match UiContent::from_resource_content(content, None) {
        UiContent::Error(m) => assert_eq!(m, "No content in resource"),
        _ => panic!("Expected an error"),
    }
}

#[test]
fn test_server_lists_and_reads() {
    let server = EmbeddedServer::new();
    let tools = server.list_tools().unwrap();
    assert_eq!(tools.tools.len(), 5);
    assert_eq!(tools.tools[0].name, "get_weather");

    let resources = server.list_resources().unwrap();
    assert_eq!(resources.resources.len(), 4);
    assert!(resources.resources.iter().all(|r| r.uri.starts_with("ui://")));

    let read = server.read_resource("ui://notes-server/editor").unwrap();
    assert_eq!(read.contents.len(), 1);

    match server.read_resource("ui://missing") {
        Err(e) => assert_eq!(e, "Resource not found: ui://missing"),
        Ok(_) => panic!("Expected an unknown resource to fail"),
    }
}

#[test]
fn test_server_create_note() {
    let server = EmbeddedServer::new();
    let args = obj(vec![
        ("title", JsonValue::Str("Groceries".to_string())),
        ("content", JsonValue::Str("milk, eggs".to_string())),
    ]);
    let res = server.call_tool("create_note", &args).unwrap();
    let sc = res.structured_content.unwrap();
    match sc.get("title") {
        Some(JsonValue::Str(t)) => assert_eq!(t, "Groceries"),
        _ => panic!("Expected the title to be echoed"),
    }
    match sc.get("id") {
        Some(JsonValue::Str(id)) => assert_eq!(id.len(), 36),
        _ => panic!("Expected a fresh note id"),
    }
}

#[test]
fn test_server_handle_message_dispatch() {
    let server = EmbeddedServer::new();
    let init = obj(vec![
        ("jsonrpc", JsonValue::Str("2.0".to_string())),
        ("id", JsonValue::Int(1)),
        ("method", JsonValue::Str("initialize".to_string())),
        ("params", obj(vec![])),
    ]);
    let reply = server.handle_message(&init).unwrap();
    assert!(matches!(reply.get("id"), Some(JsonValue::Int(1))));
    let result = reply.get("result").unwrap();
    match result.get("protocolVersion") {
        Some(JsonValue::Str(v)) => assert_eq!(v, "2026-01-26"),
        _ => panic!("Expected the protocol version"),
    }

    let notif = obj(vec![
        ("jsonrpc", JsonValue::Str("2.0".to_string())),
        ("method", JsonValue::Str("notifications/initialized".to_string())),
    ]);
    assert!(server.handle_message(&notif).is_none());

    let unknown = obj(vec![
        ("jsonrpc", JsonValue::Str("2.0".to_string())),
        ("id", JsonValue::Int(2)),
        ("method", JsonValue::Str("resources/read".to_string())),
    ]);
    let err_reply = server.handle_message(&unknown).unwrap();
    let err = err_reply.get("error").unwrap();
    assert!(matches!(err.get("code"), Some(JsonValue::Int(-32601))));
}

#[test]
fn test_str_helpers() {
    assert!(str_eq("", ""));
    assert!(!str_eq("a", "b"));
    assert!(str_starts_with("ui://x", "ui://"));
    assert!(!str_starts_with("ui:", "ui://"));
    assert!(str_ends_with("sub.example.com", "example.com"));
    assert!(!str_ends_with("com", "example.com"));
    assert!(str_contains("let x = data.y;", "data."));
    assert!(!str_contains("plain", "data."));
    assert!(str_contains("anything", ""));
}

#[test]
fn test_mime_type_checks() {
    assert_eq!(UiResource::recommended_mime_type(), "text/html;profile=mcp-app");
    assert!(UiResource::is_html_content_type("text/html;profile=mcp-app"));
    assert!(UiResource::is_html_content_type("text/html"));
    assert!(!UiResource::is_html_content_type("application/json"));
}

#[test]
fn test_tool_visibility_markers() {
    let server = EmbeddedServer::new();
    let tools = server.list_tools().unwrap().tools;
    let vis = |meta: &JsonValue| -> Vec<String> {
        match meta.get("ui").and_then(|u| u.get("visibility")) {
            Some(JsonValue::Arr(vs)) => vs
                .iter()
                .map(|v| match v {
                    JsonValue::Str(s) => s.clone(),
                    _ => panic!("Expected a string visibility entry"),
                })
                .collect(),
            _ => panic!("Expected a visibility list"),
        }
    };
    assert_eq!(vis(tools[0].meta.as_ref().unwrap()), vec!["model", "app"]);
    assert_eq!(vis(tools[4].meta.as_ref().unwrap()), vec!["app"]);
}

#[test]
fn test_parse_call_tool_result() {
    let wire = obj(vec![
        (
            "content",
            JsonValue::Arr(vec![obj(vec![
                ("type", JsonValue::Str("text".to_string())),
                ("text", JsonValue::Str("Sunny".to_string())),
            ])]),
        ),
        ("structuredContent", obj(vec![("temp", JsonValue::Int(25))])),
    ]);
    let res = parse_call_tool_result(&wire).unwrap();
    assert_eq!(res.content.len(), 1);
    match &res.content[0] {
        Content::Text(t) => assert_eq!(t, "Sunny"),
    }
    assert!(res.is_error.is_none());
    let sc = res.structured_content.unwrap();
    assert!(matches!(sc.get("temp"), Some(JsonValue::Int(25))));

    // A content entry without a text string fails to decode.
    let bad = obj(vec![(
        "content",
        JsonValue::Arr(vec![obj(vec![("type", JsonValue::Str("image".to_string()))])]),
    )]);
    assert!(parse_call_tool_result(&bad).is_none());

    // An absent content member reads as no content blocks.
    let bare = obj(vec![("isError", JsonValue::Bool(false))]);
    let empty = parse_call_tool_result(&bare).unwrap();
    assert_eq!(empty.content.len(), 0);
    assert_eq!(empty.is_error, Some(false));
}

#[test]
fn test_find_returns_first_match() {
    let mut conn = McpServerConnection::new("c1");
    let mk = |name: &str| Resource {
        uri: "ui://dup/view".to_string(),
        name: name.to_string(),
        description: None,
        mime_type: None,
        meta: None,
    };
    conn.update_resources(vec![mk("first"), mk("second")]);
    let found = conn.find_ui_resource("ui://dup/view").unwrap();
    assert_eq!(found.name, "first");
}
