//! Lifecycle types for UI initialization, teardown and session management.
//!
//! These are the payload shapes exchanged over the bridge channel during a
//! view's life: the `ui/initialize` handshake, the host context handed to a
//! view, and the notification payloads in both directions.

use vstd::prelude::*;

use crate::capabilities::{DisplayMode, Empty, McpUiAppCapabilities, UiHostCapabilities};
use crate::json::JsonValue;
use crate::resources::UiStyleConfig;

verus! {

/// `ui/initialize` request payload (view to host).
#[derive(Clone, Debug)]
pub struct McpUiInitializeRequest {
    /// Protocol version
    pub protocol_version: String,
    /// App information
    pub app_info: AppInfo,
    /// App capabilities
    pub app_capabilities: McpUiAppCapabilities,
}

/// App identity.
#[derive(Clone, Debug)]
pub struct AppInfo {
    /// App name
    pub name: String,
    /// App version
    pub version: String,
}

/// `ui/initialize` result payload (host to view).
#[derive(Clone, Debug)]
pub struct McpUiInitializeResult {
    /// Protocol version
    pub protocol_version: String,
    /// Host capabilities
    pub host_capabilities: UiHostCapabilities,
    /// Host information
    pub host_info: HostInfo,
    /// Host context for the view
    pub host_context: Option<HostContext>,
}

/// Host identity.
#[derive(Clone, Debug)]
pub struct HostInfo {
    /// Host name
    pub name: String,
    /// Host version
    pub version: String,
}

/// Context a host provides to its views.
#[derive(Clone, Debug)]
pub struct HostContext {
    /// Metadata of the tool call that instantiated the view
    pub tool_info: Option<ToolInfo>,
    /// Current color theme preference
    pub theme: Option<String>,
    /// Style configuration for theming
    pub styles: Option<UiStyleConfig>,
    /// How the view is currently displayed
    pub display_mode: Option<DisplayMode>,
    /// Display modes the host supports
    pub available_display_modes: Option<Vec<DisplayMode>>,
    /// Container dimensions for the view
    pub container_dimensions: Option<ContainerDimensions>,
    /// Language and region preference, as a BCP 47 tag
    pub locale: Option<String>,
    /// Time zone, as an IANA name
    pub time_zone: Option<String>,
    /// Host application identifier
    pub user_agent: Option<String>,
    /// Platform type for responsive design
    pub platform: Option<Platform>,
    /// Device capabilities such as touch
    pub device_capabilities: Option<DeviceCapabilities>,
    /// Safe area boundaries in pixels
    pub safe_area_insets: Option<SafeAreaInsets>,
}

/// Metadata of the tool call that opened a view.
#[derive(Clone, Debug)]
pub struct ToolInfo {
    /// JSON-RPC id of the `tools/call` request
    pub id: Option<JsonValue>,
    /// The tool's declaration: name, input schema and the rest
    pub tool: JsonValue,
}

/// Container dimensions for a view.
#[derive(Clone, Copy, PartialEq, Eq, Structural, Debug)]
pub struct ContainerDimensions {
    /// Fixed height, when the container is fixed
    pub height: Option<u32>,
    /// Maximum height, when the view controls its height
    pub max_height: Option<u32>,
    /// Fixed width, when the container is fixed
    pub width: Option<u32>,
    /// Maximum width, when the view controls its width
    pub max_width: Option<u32>,
}

/// Platform types.
#[derive(Clone, Copy, PartialEq, Eq, Structural, Debug)]
pub enum Platform {
    Web,
    Desktop,
    Mobile,
}

/// Device capabilities.
#[derive(Clone, Copy, PartialEq, Eq, Structural, Debug)]
pub struct DeviceCapabilities {
    /// Touch support
    pub touch: Option<bool>,
    /// Hover support
    pub hover: Option<bool>,
}

/// Safe area insets, for notches and similar obstructions.
#[derive(Clone, Copy, PartialEq, Eq, Structural, Debug)]
pub struct SafeAreaInsets {
    pub top: u32,
    pub right: u32,
    pub bottom: u32,
    pub left: u32,
}

/// `ui/notifications/initialized` payload (view to host).
#[derive(Clone, Copy, Debug)]
pub struct InitializedNotification {}

/// `ui/notifications/tool-input` payload (host to view).
#[derive(Clone, Debug)]
pub struct ToolInputNotification {
    /// Tool input arguments
    pub arguments: JsonValue,
}

/// `ui/notifications/tool-input-partial` payload (host to view).
#[derive(Clone, Debug)]
pub struct ToolInputPartialNotification {
    /// Partial tool input arguments
    pub arguments: JsonValue,
}

/// `ui/notifications/tool-result` payload (host to view).
#[derive(Clone, Debug)]
pub struct ToolResultNotification {
    /// Tool execution result
    pub result: JsonValue,
}

/// `ui/notifications/tool-cancelled` payload (host to view).
#[derive(Clone, Debug)]
pub struct ToolCancelledNotification {
    /// Cancellation reason
    pub reason: Option<String>,
}

/// `ui/resource-teardown` request payload (host to view).
#[derive(Clone, Debug)]
pub struct ResourceTeardownRequest {
    /// Teardown reason
    pub reason: Option<String>,
}

/// `ui/notifications/size-changed` payload (view to host).
#[derive(Clone, Copy, PartialEq, Eq, Structural, Debug)]
pub struct SizeChangedNotification {
    /// Viewport width in pixels
    pub width: u32,
    /// Viewport height in pixels
    pub height: u32,
}

/// `ui/notifications/host-context-changed` payload (host to view).
#[derive(Clone, Debug)]
pub struct HostContextChangedNotification {
    /// Partial host context update
    pub context: JsonValue,
}

/// `ui/notifications/sandbox-proxy-ready` payload (sandbox to host).
#[derive(Clone, Copy, Debug)]
pub struct SandboxProxyReadyNotification {}

/// `ui/notifications/sandbox-resource-ready` payload (host to sandbox).
#[derive(Clone, Debug)]
pub struct SandboxResourceReadyNotification {
    /// HTML content to load
    pub html: String,
    /// Optional override for the inner sandbox attribute
    pub sandbox: Option<String>,
    /// CSP configuration from resource metadata
    pub csp: Option<CspConfig>,
    /// Sandbox permissions from resource metadata
    pub permissions: Option<UiPermissionsConfig>,
}

/// CSP configuration handed to a sandbox.
#[derive(Clone, Debug)]
pub struct CspConfig {
    pub connect_domains: Option<Vec<String>>,
    pub resource_domains: Option<Vec<String>>,
    pub frame_domains: Option<Vec<String>>,
    pub base_uri_domains: Option<Vec<String>>,
}

/// Permission configuration handed to a sandbox.
#[derive(Clone, Copy, PartialEq, Eq, Structural, Debug)]
pub struct UiPermissionsConfig {
    pub camera: Option<Empty>,
    pub microphone: Option<Empty>,
    pub geolocation: Option<Empty>,
    pub clipboard_write: Option<Empty>,
}

/// `ui/request-display-mode` request payload (view to host).
#[derive(Clone, Copy, PartialEq, Eq, Structural, Debug)]
pub struct RequestDisplayModeRequest {
    /// Requested display mode
    pub mode: DisplayMode,
}

/// `ui/request-display-mode` result payload (host to view).
#[derive(Clone, Copy, PartialEq, Eq, Structural, Debug)]
pub struct RequestDisplayModeResult {
    /// Display mode actually set
    pub mode: DisplayMode,
}

/// `ui/update-model-context` request payload (view to host).
#[derive(Clone, Debug)]
pub struct UpdateModelContextRequest {
    /// Content blocks
    pub content: Option<Vec<JsonValue>>,
    /// Structured content
    pub structured_content: Option<JsonValue>,
}

/// `ui/open-link` request payload (view to host).
#[derive(Clone, Debug)]
pub struct OpenLinkRequest {
    /// URL to open
    pub url: String,
}

/// `ui/message` request payload (view to host).
#[derive(Clone, Debug)]
pub struct UiMessageRequest {
    /// Message role
    pub role: String,
    /// Message content
    pub content: JsonValue,
}

} // verus!
