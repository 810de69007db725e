//! Handshake and capability parsing tests.

use mcp_apps_host::capabilities::ServerCapabilities;
use mcp_apps_host::connection::{ConnectionState, McpServerConnection};
use mcp_apps_host::host::HostState;
use mcp_apps_host::json::JsonValue;
use mcp_apps_host::manager::ConnectionManager;
use mcp_apps_host::capabilities::{DisplayMode, McpUiAppCapabilities, UiHostCapabilities};
use mcp_apps_host::model::{Resource, Tool};
use mcp_apps_host::resources::{McpUiResourceCsp, UiResourceMeta};

fn obj(members: Vec<(&str, JsonValue)>) -> JsonValue {
    let mut fields: Vec<(String, JsonValue)> = Vec::new();
    for (k, v) in members {
        fields.push((k.to_string(), v));
    }
    JsonValue::Obj(fields)
}

#[test]
fn test_initialize_request_shape() {
    let mgr = ConnectionManager::new(HostState::default());
    let req = mgr.build_initialize_request();
    assert_eq!(req.method, "initialize");
    assert_eq!(req.jsonrpc, "2.0");
    let params = req.params.unwrap();
    match params.get("protocolVersion") {
        Some(JsonValue::Str(v)) => assert_eq!(v, "2026-01-26"),
        _ => panic!("Expected the protocol version"),
    }
    let caps = params.get("capabilities").unwrap();
    let exp = caps.get("experimental").unwrap();
    let ui = exp.get("io.modelcontextprotocol/ui").unwrap();
    // The host declaration carries its notification offers.
    let tools = ui.get("serverTools").unwrap();
    assert!(matches!(tools.get("listChanged"), Some(JsonValue::Bool(true))));
    let info = params.get("clientInfo").unwrap();
    assert!(matches!(info.get("name"), Some(JsonValue::Str(_))));
}

#[test]
fn test_server_capabilities_parse_permissively() {
    // A well-formed declaration.
    let full = obj(vec![
        (
            "experimental",
            obj(vec![("io.modelcontextprotocol/ui", obj(vec![]))]),
        ),
        ("tools", obj(vec![("listChanged", JsonValue::Bool(true))])),
        ("resources", obj(vec![("listChanged", JsonValue::Bool(false))])),
    ]);
    let caps = ServerCapabilities::from_value(&full);
    assert!(caps.supports_ui_apps());
    assert!(caps.supports_tools());
    assert!(caps.supports_tool_notifications());
    assert!(!caps.supports_resource_notifications());

    // Malformed members degrade to "unsupported" instead of failing.
    let odd = obj(vec![
        ("experimental", JsonValue::Int(7)),
        ("tools", obj(vec![("listChanged", JsonValue::Str("yes".to_string()))])),
    ]);
    let degraded = ServerCapabilities::from_value(&odd);
    assert!(!degraded.supports_ui_apps());
    assert!(degraded.supports_tools());
    assert!(!degraded.supports_tool_notifications());
    assert!(!degraded.supports_resources());

    let empty = ServerCapabilities::from_value(&JsonValue::Null);
    assert!(!empty.supports_ui_apps());
    assert!(!empty.supports_tools());
}

#[test]
fn test_set_capabilities_absorbs_garbage() {
    let mut conn = McpServerConnection::new("c1");
    conn.set_capabilities(&JsonValue::Str("not an object".to_string()));
    assert_eq!(conn.name, "unknown");
    assert_eq!(conn.version, "unknown");
    assert!(!conn.supports_ui_extension);
    assert!(matches!(conn.state, ConnectionState::Connecting));
}

#[test]
fn test_update_resources_recomputes_ui_view() {
    let mut conn = McpServerConnection::new("c1");
    let resources = vec![
        Resource {
            uri: "ui://a/view".to_string(),
            name: "A".to_string(),
            description: None,
            mime_type: None,
            meta: None,
        },
        Resource {
            uri: "https://not-ui".to_string(),
            name: "B".to_string(),
            description: None,
            mime_type: Some("text/plain".to_string()),
            meta: None,
        },
        Resource {
            uri: "ui://c/view".to_string(),
            name: "C".to_string(),
            description: Some("third".to_string()),
            mime_type: Some("text/html".to_string()),
            meta: None,
        },
    ];
    conn.update_resources(resources);
    assert_eq!(conn.resources.len(), 3);
    assert_eq!(conn.ui_resources.len(), 2);
    assert_eq!(conn.ui_resources[0].uri, "ui://a/view");
    // A declaration without a mime type gets the recommended one.
    assert_eq!(conn.ui_resources[0].mime_type, "text/html;profile=mcp-app");
    assert_eq!(conn.ui_resources[1].uri, "ui://c/view");
    assert_eq!(conn.ui_resources[1].mime_type, "text/html");
    assert!(conn.find_ui_resource("https://not-ui").is_none());
}

#[test]
fn test_resource_meta_parsing() {
    let meta_value = obj(vec![(
        "ui",
        obj(vec![
            (
                "csp",
                obj(vec![(
                    "connectDomains",
                    JsonValue::Arr(vec![JsonValue::Str("https://api.example.com".to_string())]),
                )]),
            ),
            ("prefersBorder", JsonValue::Bool(true)),
        ]),
    )]);
    let meta = UiResourceMeta::from_value(&meta_value).unwrap();
    let details = meta.ui.unwrap();
    assert_eq!(details.prefers_border, Some(true));
    let csp = details.csp.unwrap();
    assert_eq!(csp.connect_domains.unwrap(), vec!["https://api.example.com".to_string()]);

    // A csp whose domain list is not an array of strings fails to decode.
    let bad = obj(vec![(
        "connectDomains",
        JsonValue::Arr(vec![JsonValue::Int(5)]),
    )]);
    assert!(McpUiResourceCsp::from_value(&bad).is_none());
}

#[test]
fn test_negotiation_on_connection() {
    let mut conn = McpServerConnection::new("c1");
    // Without a parsed declaration nothing is negotiated.
    conn.negotiate_capabilities(&UiHostCapabilities::full(), None);
    assert!(conn.get_negotiated_capabilities().is_none());
    assert!(!conn.supports_display_mode(DisplayMode::Inline));

    let init_result = obj(vec![(
        "capabilities",
        obj(vec![(
            "experimental",
            obj(vec![("io.modelcontextprotocol/ui", obj(vec![]))]),
        )]),
    )]);
    conn.set_capabilities(&init_result);
    let app = McpUiAppCapabilities {
        experimental: None,
        tools: None,
        available_display_modes: Some(vec![DisplayMode::Fullscreen]),
    };
    conn.negotiate_capabilities(&UiHostCapabilities::full(), Some(&app));
    let n = conn.get_negotiated_capabilities().unwrap();
    assert!(n.supports_ui_apps);
    assert_eq!(n.display_modes, vec![DisplayMode::Fullscreen]);
    assert!(conn.supports_display_mode(DisplayMode::Fullscreen));
    assert!(!conn.supports_display_mode(DisplayMode::Inline));
}

#[test]
fn test_tools_with_ui_reads_both_key_forms() {
    let mut conn = McpServerConnection::new("c1");
    let current = Tool {
        name: "a".to_string(),
        title: None,
        description: None,
        input_schema: obj(vec![]),
        meta: Some(obj(vec![(
            "ui",
            obj(vec![("resourceUri", JsonValue::Str("ui://x/a".to_string()))]),
        )])),
    };
    let deprecated = Tool {
        name: "b".to_string(),
        title: None,
        description: None,
        input_schema: obj(vec![]),
        meta: Some(obj(vec![(
            "ui/resourceUri",
            JsonValue::Str("ui://x/b".to_string()),
        )])),
    };
    let unlinked = Tool {
        name: "c".to_string(),
        title: None,
        description: None,
        input_schema: obj(vec![]),
        meta: None,
    };
    conn.update_tools(vec![current, deprecated, unlinked]);
    let linked = conn.get_tools_with_ui();
    assert_eq!(linked.len(), 2);
    assert_eq!(linked[0], (0, "ui://x/a".to_string()));
    assert_eq!(linked[1], (1, "ui://x/b".to_string()));
}

#[test]
fn test_set_capabilities_ties_notification_flags() {
    // The wire declaration's listChanged flags survive parsing and drive
    // the negotiated notification flags.
    let mut conn = McpServerConnection::new("c1");
    let init_result = obj(vec![(
        "capabilities",
        obj(vec![
            (
                "experimental",
                obj(vec![("io.modelcontextprotocol/ui", obj(vec![]))]),
            ),
            ("tools", obj(vec![("listChanged", JsonValue::Bool(true))])),
            ("resources", obj(vec![("listChanged", JsonValue::Bool(false))])),
        ]),
    )]);
    conn.set_capabilities(&init_result);
    let parsed = conn.parsed_capabilities.as_ref().unwrap();
    assert!(parsed.supports_tool_notifications());
    assert!(!parsed.supports_resource_notifications());

    conn.negotiate_capabilities(&UiHostCapabilities::full(), None);
    let n = conn.get_negotiated_capabilities().unwrap();
    assert!(n.tool_notifications);
    assert!(!n.resource_notifications);
}
