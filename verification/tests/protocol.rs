//! Capability and resource protocol tests.

use mcp_apps_host::capabilities::{
    negotiate_capabilities, ApprovedCsp, DisplayMode, McpUiAppCapabilities, ServerCapabilities,
    ToolsServerCapability, ResourcesServerCapability, ExperimentalCapabilities, UiHostCapabilities,
    UiPermissions, Empty,
};
use mcp_apps_host::resources::{McpUiResourceCsp, UiResource};

#[test]
fn test_ui_uri_validation() {
    assert!(UiResource::is_valid_uri("ui://weather"));
    assert!(UiResource::is_valid_uri("ui://server/dashboard"));
    assert!(!UiResource::is_valid_uri("file://weather"));
    assert!(!UiResource::is_valid_uri("https://example.com"));
}

#[test]
fn test_uri_validation_edges() {
    assert!(!UiResource::is_valid_uri(""));
    assert!(!UiResource::is_valid_uri("ui:/"));
    assert!(!UiResource::is_valid_uri("UI://upper"));
    assert!(UiResource::is_valid_uri("ui://"));
}

#[test]
fn test_csp_header_building() {
    let csp = McpUiResourceCsp {
        connect_domains: Some(vec!["https://api.example.com".to_string()]),
        resource_domains: Some(vec!["https://cdn.example.com".to_string()]),
        frame_domains: None,
        base_uri_domains: None,
    };

    let header = csp.build_csp_header();
    assert!(header.contains("connect-src https://api.example.com"));
    assert!(header.contains("frame-src 'none'"));
    assert!(header.contains("object-src 'none'"));
}

#[test]
fn test_csp_header_exact() {
    let csp = McpUiResourceCsp {
        connect_domains: Some(vec!["a.example".to_string(), "b.example".to_string()]),
        resource_domains: None,
        frame_domains: Some(vec![]),
        base_uri_domains: None,
    };
    let header = csp.build_csp_header();
    assert_eq!(
        header,
        "default-src 'none'; script-src 'self' 'unsafe-inline'; \
         style-src 'self' 'unsafe-inline'; img-src 'self' data:; media-src 'self' data:; \
         connect-src a.example b.example; frame-src 'none'; object-src 'none'"
    );
}

#[test]
fn test_permissions_granted() {
    let perms = UiPermissions {
        camera: Some(Empty {}),
        microphone: None,
        geolocation: Some(Empty {}),
        clipboard_write: None,
    };

    assert!(perms.has_any());
    let granted = perms.granted();
    assert_eq!(granted.len(), 2);
    assert!(granted.contains(&"camera"));
    assert!(granted.contains(&"geolocation"));
}

#[test]
fn test_approved_csp() {
    let csp = ApprovedCsp {
        connect_domains: Some(vec!["*.example.com".to_string(), "api.test.com".to_string()]),
        resource_domains: None,
        frame_domains: None,
        base_uri_domains: None,
    };

    assert!(csp.allows_connection("sub.example.com"));
    assert!(csp.allows_connection("api.test.com"));
    assert!(!csp.allows_connection("other.com"));
}

#[test]
fn test_approved_csp_wildcard_and_resources() {
    let csp = ApprovedCsp {
        connect_domains: Some(vec!["*".to_string()]),
        resource_domains: Some(vec!["cdn.example.com".to_string()]),
        frame_domains: None,
        base_uri_domains: None,
    };
    assert!(csp.allows_connection("anything.at.all"));
    assert!(csp.allows_resource("cdn.example.com"));
    assert!(!csp.allows_resource("elsewhere.com"));
    let empty = ApprovedCsp::default();
    assert!(!empty.allows_connection("example.com"));
    assert!(!empty.allows_resource("example.com"));
}

#[test]
fn test_ui_host_capabilities_full() {
    let caps = UiHostCapabilities::full();
    assert!(caps.supports_open_links());
    assert!(caps.supports_tool_notifications());
    assert!(caps.supports_resource_notifications());
    assert!(caps.supports_logging());
}

#[test]
fn test_ui_host_capabilities_minimal() {
    let caps = UiHostCapabilities::minimal();
    assert!(caps.supports_open_links());
    assert!(!caps.supports_tool_notifications());
    assert!(!caps.supports_resource_notifications());
}

fn server_with_ui(tools_flag: Option<bool>, resources_flag: Option<bool>) -> ServerCapabilities {
    ServerCapabilities {
        experimental: Some(ExperimentalCapabilities {
            ui: Some(UiHostCapabilities {
                experimental: None,
                open_links: None,
                server_tools: None,
                server_resources: None,
                logging: None,
                sandbox: None,
            }),
        }),
        tools: Some(ToolsServerCapability { list_changed: tools_flag }),
        resources: Some(ResourcesServerCapability { list_changed: resources_flag }),
    }
}

#[test]
fn test_negotiation_full_host_no_app_caps() {
    let host = UiHostCapabilities::full();
    let server = server_with_ui(Some(true), Some(true));
    let n = negotiate_capabilities(&host, &server, None);
    assert!(n.supports_ui_apps);
    assert_eq!(n.display_modes, vec![DisplayMode::Inline, DisplayMode::Fullscreen]);
    assert!(n.tool_notifications);
    assert!(n.resource_notifications);
    assert_eq!(n.protocol_version, "2026-01-26");
    assert!(n.permissions.has_any());
}

#[test]
fn test_negotiation_app_restricts_modes() {
    let host = UiHostCapabilities::full();
    let server = server_with_ui(Some(true), Some(true));
    let app = McpUiAppCapabilities {
        experimental: None,
        tools: None,
        available_display_modes: Some(vec![DisplayMode::Inline]),
    };
    let n = negotiate_capabilities(&host, &server, Some(&app));
    assert_eq!(n.display_modes, vec![DisplayMode::Inline]);
}

#[test]
fn test_negotiation_notifications_need_both_sides() {
    let host = UiHostCapabilities::full();
    let server = server_with_ui(Some(false), None);
    let n = negotiate_capabilities(&host, &server, None);
    assert!(!n.tool_notifications);
    assert!(!n.resource_notifications);

    let host2 = UiHostCapabilities::minimal();
    let server2 = server_with_ui(Some(true), Some(true));
    let n2 = negotiate_capabilities(&host2, &server2, None);
    assert!(!n2.tool_notifications);
    assert!(!n2.resource_notifications);
}

#[test]
fn test_negotiation_permissions_come_from_host() {
    let host = UiHostCapabilities::minimal();
    let server = server_with_ui(Some(true), Some(true));
    let n = negotiate_capabilities(&host, &server, None);
    assert!(!n.permissions.has_any());
}

#[test]
fn test_display_mode_names() {
    assert_eq!(DisplayMode::Inline.as_str(), "inline");
    assert_eq!(DisplayMode::Fullscreen.as_str(), "fullscreen");
    assert_eq!(DisplayMode::Pip.as_str(), "pip");
}

#[test]
fn test_app_capabilities_default_supports_all_modes() {
    let app = McpUiAppCapabilities::default();
    assert!(app.supports_display_mode(DisplayMode::Pip));
    assert!(!app.exposes_tools());
    assert!(!app.supports_tool_notifications());
}
