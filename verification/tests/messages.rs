//! Envelope and builder tests.

use mcp_apps_host::capabilities::McpUiAppCapabilities;
use mcp_apps_host::json::JsonValue;
use mcp_apps_host::jsonrpc::{
    parse_message, request_to_value, JsonRpcRequest, Message,
};
use mcp_apps_host::messages::{
    error_response, size_changed_notification, success_response, tool_cancelled_notification,
    ui_initialize_request,
};

fn obj(members: Vec<(&str, JsonValue)>) -> JsonValue {
    let mut fields: Vec<(String, JsonValue)> = Vec::new();
    for (k, v) in members {
        fields.push((k.to_string(), v));
    }
    JsonValue::Obj(fields)
}

#[test]
fn test_ui_initialize_request() {
    let req = ui_initialize_request("test-app", "1.0.0", &McpUiAppCapabilities::default());

    assert_eq!(req.method, "ui/initialize");
    assert!(req.id.is_some());
}

#[test]
fn test_size_changed_notification() {
    let notif = size_changed_notification(800, 600);

    assert_eq!(notif.method, "ui/notifications/size-changed");
}

#[test]
fn test_parse_message() {
    // A request
    let req_json = obj(vec![
        ("jsonrpc", JsonValue::Str("2.0".to_string())),
        ("id", JsonValue::Int(1)),
        ("method", JsonValue::Str("ui/initialize".to_string())),
        ("params", obj(vec![])),
    ]);

    match parse_message(&req_json).unwrap() {
        Message::Request(req) => {
            assert_eq!(req.method, "ui/initialize");
        }
        _ => panic!("Expected request"),
    }

    // A notification
    let notif_json = obj(vec![
        ("jsonrpc", JsonValue::Str("2.0".to_string())),
        ("method", JsonValue::Str("ui/notifications/initialized".to_string())),
        ("params", obj(vec![])),
    ]);

    match parse_message(&notif_json).unwrap() {
        Message::Notification(notif) => {
            assert_eq!(notif.method, "ui/notifications/initialized");
        }
        _ => panic!("Expected notification"),
    }
}

#[test]
fn test_parse_message_response_and_error() {
    let resp_json = obj(vec![
        ("jsonrpc", JsonValue::Str("2.0".to_string())),
        ("id", JsonValue::Int(3)),
        ("result", obj(vec![("ok", JsonValue::Bool(true))])),
    ]);
    match parse_message(&resp_json).unwrap() {
        Message::Response(resp) => {
            assert!(resp.result.is_some());
            assert!(resp.error.is_none());
        }
        _ => panic!("Expected response"),
    }

    // A response whose error object is malformed fails to parse.
    let bad = obj(vec![
        ("jsonrpc", JsonValue::Str("2.0".to_string())),
        ("id", JsonValue::Int(3)),
        ("error", obj(vec![("code", JsonValue::Str("nope".to_string()))])),
    ]);
    assert!(parse_message(&bad).is_err());

    // A message without a method and without result or error fails too.
    let no_method = obj(vec![
        ("jsonrpc", JsonValue::Str("2.0".to_string())),
        ("id", JsonValue::Int(9)),
    ]);
    assert!(parse_message(&no_method).is_err());
}

#[test]
fn test_request_round_trip() {
    let req = JsonRpcRequest::new(
        "tools/call",
        Some(obj(vec![("name", JsonValue::Str("get_weather".to_string()))])),
    )
    .with_id(JsonValue::Int(7));

    let wire = request_to_value(&req);
    match parse_message(&wire).unwrap() {
        Message::Request(back) => {
            assert_eq!(back.method, "tools/call");
            match back.id {
                Some(JsonValue::Int(n)) => assert_eq!(n, 7),
                _ => panic!("Expected the id to survive the round trip"),
            }
        }
        _ => panic!("Expected request"),
    }
}

#[test]
fn test_request_default_id() {
    let req = JsonRpcRequest::new("tools/list", None);
    match req.id {
        Some(JsonValue::Int(n)) => assert_eq!(n, 1),
        _ => panic!("Expected the default id"),
    }
    assert_eq!(req.jsonrpc, "2.0");
}

#[test]
fn test_builders() {
    let cancelled = tool_cancelled_notification(Some("user closed the view"));
    assert_eq!(cancelled.method, "ui/notifications/tool-cancelled");

    let ok = success_response(JsonValue::Int(4));
    assert!(ok.result.is_some());
    assert!(ok.error.is_none());

    let err = error_response(JsonValue::Int(4), -32601, "Method not found");
    assert!(err.result.is_none());
    let e = err.error.unwrap();
    assert_eq!(e.code, -32601);
    assert_eq!(e.message, "Method not found");
}

#[test]
fn test_deep_eq_and_get() {
    let a = obj(vec![
        ("x", JsonValue::Int(1)),
        ("y", JsonValue::Arr(vec![JsonValue::Str("s".to_string()), JsonValue::Null])),
    ]);
    let b = obj(vec![
        ("x", JsonValue::Int(1)),
        ("y", JsonValue::Arr(vec![JsonValue::Str("s".to_string()), JsonValue::Null])),
    ]);
    let c = obj(vec![("x", JsonValue::Int(2)), ("y", JsonValue::Null)]);
    assert!(a.deep_eq(&b));
    assert!(!a.deep_eq(&c));
    assert!(matches!(a.get("x"), Some(JsonValue::Int(1))));
    assert!(a.get("missing").is_none());
    let copy = a.clone();
    assert!(copy.deep_eq(&a));
}
