//! Bridge, session and transport tests.

use mcp_apps_host::bridge::{
    bridge_wait_step, BridgeDispatch, BridgeManager, BridgeWaitEvent, BridgeWaitOutcome, UiBridge,
};
use mcp_apps_host::host::{UiSession, UiSessionState};
use mcp_apps_host::json::JsonValue;
use mcp_apps_host::transport::{
    request_deadline, request_wait_step, MemoryTransportPair, PairEnd, PendingRequest, ReadEvent,
    TransportError, WaitOutcome, REQUEST_TIMEOUT_MS,
};

fn obj(members: Vec<(&str, JsonValue)>) -> JsonValue {
    let mut fields: Vec<(String, JsonValue)> = Vec::new();
    for (k, v) in members {
        fields.push((k.to_string(), v));
    }
    JsonValue::Obj(fields)
}

#[test]
fn test_bridge_request_response_cycle() {
    let mut bridge = UiBridge::new("session-1");
    assert_eq!(bridge.id.len(), 36);
    let id = bridge.open_request("ui/request-display-mode", Some(obj(vec![])));
    assert_eq!(id, 1);

    let outgoing = bridge.take_outgoing().unwrap();
    match outgoing.get("id") {
        Some(JsonValue::Int(n)) => assert_eq!(*n, 1),
        _ => panic!("Expected the request to carry its id"),
    }

    let response = obj(vec![
        ("jsonrpc", JsonValue::Str("2.0".to_string())),
        ("id", JsonValue::Int(1)),
        ("result", obj(vec![("mode", JsonValue::Str("inline".to_string()))])),
    ]);
    match bridge.process_message(&response).unwrap() {
        BridgeDispatch::Resolved { id, result } => {
            assert_eq!(id, 1);
            let v = result.unwrap();
            assert!(matches!(v.get("mode"), Some(JsonValue::Str(_))));
        }
        _ => panic!("Expected the response to resolve the request"),
    }

    // The same response again is stale: the id is no longer in flight.
    let response2 = obj(vec![
        ("jsonrpc", JsonValue::Str("2.0".to_string())),
        ("id", JsonValue::Int(1)),
        ("result", obj(vec![])),
    ]);
    assert!(matches!(
        bridge.process_message(&response2).unwrap(),
        BridgeDispatch::StaleResponse
    ));
}

#[test]
fn test_bridge_error_response() {
    let mut bridge = UiBridge::new("session-1");
    let id = bridge.open_request("ui/open-link", None);
    let response = obj(vec![
        ("jsonrpc", JsonValue::Str("2.0".to_string())),
        ("id", JsonValue::Int(id as i64)),
        (
            "error",
            obj(vec![
                ("code", JsonValue::Int(-32000)),
                ("message", JsonValue::Str("denied".to_string())),
            ]),
        ),
    ]);
    match bridge.process_message(&response).unwrap() {
        BridgeDispatch::Resolved { result, .. } => {
            let e = result.unwrap_err();
            assert_eq!(e.code, -32000);
            assert_eq!(e.message, "denied");
        }
        _ => panic!("Expected the error to resolve the request"),
    }
}

#[test]
fn test_bridge_dispatches_registered_request() {
    let mut bridge = UiBridge::new("session-1");
    bridge.on_request("ui/message");
    let request = obj(vec![
        ("jsonrpc", JsonValue::Str("2.0".to_string())),
        ("id", JsonValue::Int(9)),
        ("method", JsonValue::Str("ui/message".to_string())),
        ("params", obj(vec![("role", JsonValue::Str("user".to_string()))])),
    ]);
    match bridge.process_message(&request).unwrap() {
        BridgeDispatch::RunRequest { id, method, params } => {
            assert!(matches!(id, JsonValue::Int(9)));
            assert_eq!(method, "ui/message");
            assert!(params.is_some());
        }
        _ => panic!("Expected the registered handler to be chosen"),
    }
    // The caller replies; the response joins the outgoing queue.
    bridge.reply_ok(JsonValue::Int(9), obj(vec![]));
    let out = bridge.take_outgoing().unwrap();
    assert!(matches!(out.get("id"), Some(JsonValue::Int(9))));
}

#[test]
fn test_bridge_method_not_found() {
    let mut bridge = UiBridge::new("session-1");
    let request = obj(vec![
        ("jsonrpc", JsonValue::Str("2.0".to_string())),
        ("id", JsonValue::Int(2)),
        ("method", JsonValue::Str("ui/unknown".to_string())),
    ]);
    assert!(matches!(
        bridge.process_message(&request).unwrap(),
        BridgeDispatch::MethodNotFound
    ));
    let out = bridge.take_outgoing().unwrap();
    let err = out.get("error").unwrap();
    assert!(matches!(err.get("code"), Some(JsonValue::Int(-32601))));
}

#[test]
fn test_bridge_notifications() {
    let mut bridge = UiBridge::new("session-1");
    bridge.on_notification("ui/notifications/size-changed");
    let known = obj(vec![
        ("jsonrpc", JsonValue::Str("2.0".to_string())),
        ("method", JsonValue::Str("ui/notifications/size-changed".to_string())),
        ("params", obj(vec![("width", JsonValue::Int(800))])),
    ]);
    assert!(matches!(
        bridge.process_message(&known).unwrap(),
        BridgeDispatch::RunNotification { .. }
    ));
    let unknown = obj(vec![
        ("jsonrpc", JsonValue::Str("2.0".to_string())),
        ("method", JsonValue::Str("ui/notifications/other".to_string())),
    ]);
    assert!(matches!(bridge.process_message(&unknown).unwrap(), BridgeDispatch::Ignored));
    let broken = obj(vec![("jsonrpc", JsonValue::Str("2.0".to_string()))]);
    assert!(bridge.process_message(&broken).is_err());
}

#[test]
fn test_bridge_ids_are_monotonic() {
    let mut bridge = UiBridge::new("session-1");
    let a = bridge.open_request("ui/message", None);
    let b = bridge.open_request("ui/message", None);
    let c = bridge.open_request("ui/message", None);
    assert!(a < b && b < c);
}

#[test]
fn test_bridge_manager() {
    let mut bm = BridgeManager::new();
    bm.create_bridge("s1");
    assert!(bm.get_bridge("s1").is_some());
    assert!(bm.get_bridge("s2").is_none());
    bm.remove_bridge("s1");
    assert!(bm.get_bridge("s1").is_none());
}

#[test]
fn test_session_state_machine() {
    let mut s = UiSession::new("sid", "embedded", "ui://weather-server/dashboard");
    assert!(matches!(s.state, UiSessionState::Initializing));
    assert!(!s.transition(UiSessionState::Active));
    assert!(s.transition(UiSessionState::Ready));
    assert!(s.transition(UiSessionState::Loading));
    assert!(s.transition(UiSessionState::Active));
    assert!(s.transition(UiSessionState::Teardown));
    assert!(s.is_terminal());
    assert!(!s.transition(UiSessionState::Error("late".to_string())));

    let mut f = UiSession::new("sid2", "embedded", "ui://notes-server/editor");
    assert!(f.transition(UiSessionState::Error("bad handshake".to_string())));
    assert!(f.is_terminal());
    assert!(!f.transition(UiSessionState::Ready));
}

#[test]
fn test_request_wait_step_timeout_at_deadline() {
    let pending = PendingRequest { id: Some(JsonValue::Int(1)), deadline_ms: request_deadline(0) };
    assert_eq!(pending.deadline_ms, REQUEST_TIMEOUT_MS);

    // Before the deadline an unrelated message is skipped.
    let unrelated = obj(vec![
        ("jsonrpc", JsonValue::Str("2.0".to_string())),
        ("method", JsonValue::Str("notifications/resources/list_changed".to_string())),
    ]);
    assert!(matches!(
        request_wait_step(&pending, 10, ReadEvent::Line(unrelated)),
        WaitOutcome::Continue
    ));

    // One tick before the deadline: still waiting.
    let almost = request_wait_step(&pending, REQUEST_TIMEOUT_MS - 1, ReadEvent::Eof);
    assert!(matches!(almost, WaitOutcome::Failed(TransportError::Disconnected)));

    // At the deadline: timeout, whatever the event.
    let at = request_wait_step(&pending, REQUEST_TIMEOUT_MS, ReadEvent::Eof);
    assert!(matches!(at, WaitOutcome::Failed(TransportError::Timeout)));
}

#[test]
fn test_request_wait_step_matches_response() {
    let pending = PendingRequest { id: Some(JsonValue::Int(5)), deadline_ms: 1000 };
    let reply = obj(vec![
        ("jsonrpc", JsonValue::Str("2.0".to_string())),
        ("id", JsonValue::Int(5)),
        ("result", obj(vec![])),
    ]);
    match request_wait_step(&pending, 10, ReadEvent::Line(reply)) {
        WaitOutcome::Done(resp) => {
            assert!(resp.result.is_some());
        }
        _ => panic!("Expected the matching response to finish the wait"),
    }

    let wrong_id = obj(vec![
        ("jsonrpc", JsonValue::Str("2.0".to_string())),
        ("id", JsonValue::Int(6)),
        ("result", obj(vec![])),
    ]);
    assert!(matches!(
        request_wait_step(&pending, 10, ReadEvent::Line(wrong_id)),
        WaitOutcome::Continue
    ));

    assert!(matches!(
        request_wait_step(&pending, 10, ReadEvent::BadLine("garbled".to_string())),
        WaitOutcome::Failed(TransportError::Json(_))
    ));
}

#[test]
fn test_memory_pair() {
    let mut pair = MemoryTransportPair::create_pair();
    assert!(pair.is_connected());
    pair.send(PairEnd::Client, JsonValue::Int(1)).unwrap();
    pair.send(PairEnd::Client, JsonValue::Int(2)).unwrap();
    assert!(matches!(pair.receive(PairEnd::Server), Some(JsonValue::Int(1))));
    assert!(matches!(pair.receive(PairEnd::Server), Some(JsonValue::Int(2))));
    assert!(pair.receive(PairEnd::Server).is_none());
    pair.send(PairEnd::Server, JsonValue::Bool(true)).unwrap();
    assert!(matches!(pair.receive(PairEnd::Client), Some(JsonValue::Bool(true))));
    pair.close();
    assert!(pair.send(PairEnd::Client, JsonValue::Null).is_err());
    assert!(pair.receive(PairEnd::Client).is_none());
}

#[test]
fn test_transport_error_description() {
    assert_eq!(TransportError::Timeout.describe(), "Operation timed out");
    assert_eq!(
        TransportError::Io("broken pipe".to_string()).describe(),
        "IO error: broken pipe"
    );
}

#[test]
fn test_bridge_wait_step() {
    let deadline = REQUEST_TIMEOUT_MS;

    // Nothing yet, before the deadline: keep waiting.
    assert!(matches!(
        bridge_wait_step(deadline, 10, BridgeWaitEvent::Pending),
        BridgeWaitOutcome::Continue
    ));

    // One tick before the deadline a closed channel fails with the
    // internal-error code, not a timeout.
    match bridge_wait_step(deadline, deadline - 1, BridgeWaitEvent::Closed) {
        BridgeWaitOutcome::Abandoned(e) => {
            assert_eq!(e.code, -32603);
            assert_eq!(e.message, "Channel closed");
        }
        _ => panic!("Expected the closed channel to abandon the wait"),
    }

    // At the deadline the wait times out, whatever the event.
    match bridge_wait_step(deadline, deadline, BridgeWaitEvent::Pending) {
        BridgeWaitOutcome::Abandoned(e) => {
            assert_eq!(e.code, -32603);
            assert_eq!(e.message, "Request timeout");
        }
        _ => panic!("Expected a timeout at the deadline"),
    }

    // A resolved response before the deadline ends the wait with it.
    let payload = obj(vec![("ok", JsonValue::Bool(true))]);
    match bridge_wait_step(deadline, 5, BridgeWaitEvent::Response(Ok(payload))) {
        BridgeWaitOutcome::Done(Ok(v)) => {
            assert!(matches!(v.get("ok"), Some(JsonValue::Bool(true))));
        }
        _ => panic!("Expected the response to finish the wait"),
    }
}

#[test]
fn test_bridge_notification_carries_params() {
    let mut bridge = UiBridge::new("session-1");
    let params = obj(vec![("width", JsonValue::Int(800))]);
    bridge.send_notification("ui/notifications/size-changed", Some(params));
    let out = bridge.take_outgoing().unwrap();
    let sent = out.get("params").unwrap();
    assert!(matches!(sent.get("width"), Some(JsonValue::Int(800))));
    // A notification without a payload goes out with a null params member.
    bridge.send_notification("ui/notifications/initialized", None);
    let bare = bridge.take_outgoing().unwrap();
    assert!(matches!(bare.get("params"), Some(JsonValue::Null)));
}
