//! Host-side state: the host's own declaration and the interactive UI
//! sessions it runs.

use vstd::prelude::*;

use crate::capabilities::{
    ApprovedCsp, DisplayMode, Empty, McpUiAppCapabilities, SandboxCapability,
    ServerResourcesCapability, ServerToolsCapability, UiHostCapabilities, UiPermissions,
    spec_no_permissions,
};
use crate::json::JsonValue;
use crate::jsonrpc::Message;
use crate::lifecycle::{
    ContainerDimensions, DeviceCapabilities, HostContext, Platform, ToolInfo,
};

verus! {

/// The host's own configuration.
pub struct HostState {
    /// Host name
    pub name: String,
    /// Host version
    pub version: String,
    /// Display modes the host supports
    pub supported_display_modes: Vec<DisplayMode>,
    /// Current theme
    pub theme: String,
    /// Platform type
    pub platform: Platform,
    /// Device capabilities
    pub device_capabilities: DeviceCapabilities,
    /// Container dimensions for views
    pub container_dimensions: ContainerDimensions,
    /// Locale, as a BCP 47 tag
    pub locale: String,
    /// Time zone, as an IANA name
    pub time_zone: String,
}

impl Default for HostState {
    /// A desktop host named `mcp-apps-host`: inline display only, light
    /// theme, a bounded container, and the `en-US` locale in UTC.
    fn default() -> (r: Self)
        ensures
            r.name@ == "mcp-apps-host"@,
            r.version@ == "0.1.0"@,
            r.supported_display_modes@ == seq![DisplayMode::Inline],
            r.theme@ == "light"@,
            r.platform is Desktop,
            r.device_capabilities == (DeviceCapabilities { touch: Some(false), hover: Some(true) }),
            r.container_dimensions == (ContainerDimensions {
                height: None,
                max_height: Some(600u32),
                width: None,
                max_width: Some(800u32),
            }),
            r.locale@ == "en-US"@,
            r.time_zone@ == "UTC"@,
    {
        let mut modes: Vec<DisplayMode> = Vec::new();
        modes.push(DisplayMode::Inline);
        proof {
            assert(modes@ =~= seq![DisplayMode::Inline]);
        }
        HostState {
            name: String::from_str("mcp-apps-host"),
            version: String::from_str("0.1.0"),
            supported_display_modes: modes,
            theme: String::from_str("light"),
            platform: Platform::Desktop,
            device_capabilities: DeviceCapabilities { touch: Some(false), hover: Some(true) },
            container_dimensions: ContainerDimensions {
                height: None,
                max_height: Some(600),
                width: None,
                max_width: Some(800),
            },
            locale: String::from_str("en-US"),
            time_zone: String::from_str("UTC"),
        }
    }
}

impl HostState {
    /// The capability declaration this host sends in `initialize`:
    /// open-links and logging on, both notification flags on, no sandbox
    /// permission granted and no CSP allow-list.
    pub fn to_capabilities(&self) -> (r: UiHostCapabilities)
        ensures
            r.experimental is None,
            r.open_links == Some(Empty {  }),
            r.server_tools == Some(ServerToolsCapability { list_changed: Some(true) }),
            r.server_resources == Some(ServerResourcesCapability { list_changed: Some(true) }),
            r.logging == Some(Empty {  }),
            match r.sandbox {
                Some(s) => {
                    &&& s.permissions == Some(spec_no_permissions())
                    &&& match s.csp {
                        Some(c) => {
                            &&& c.connect_domains is None
                            &&& c.resource_domains is None
                            &&& c.frame_domains is None
                            &&& c.base_uri_domains is None
                        },
                        None => false,
                    }
                },
                None => false,
            },
    {
        UiHostCapabilities {
            experimental: None,
            open_links: Some(Empty {  }),
            server_tools: Some(ServerToolsCapability { list_changed: Some(true) }),
            server_resources: Some(ServerResourcesCapability { list_changed: Some(true) }),
            logging: Some(Empty {  }),
            sandbox: Some(
                SandboxCapability {
                    permissions: Some(UiPermissions::default()),
                    csp: Some(ApprovedCsp::default()),
                },
            ),
        }
    }

    /// The full capability declaration, with everything enabled.
    pub fn to_full_capabilities(&self) -> (r: UiHostCapabilities) {
        UiHostCapabilities::full()
    }

    /// The minimal capability declaration.
    pub fn to_minimal_capabilities(&self) -> (r: UiHostCapabilities) {
        UiHostCapabilities::minimal()
    }

    /// The context handed to a view at `ui/initialize` time: the host's
    /// theme, display configuration, locale, time zone, platform and
    /// device capabilities; the user agent reads `<name>/<version>`.
    pub fn to_host_context(&self) -> (r: HostContext)
        ensures
            r.tool_info is None,
            r.theme matches Some(t) && t@ == self.theme@,
            r.styles is None,
            r.display_mode == Some(DisplayMode::Inline),
            r.available_display_modes matches Some(m) && m@ == self.supported_display_modes@,
            r.container_dimensions == Some(self.container_dimensions),
            r.locale matches Some(l) && l@ == self.locale@,
            r.time_zone matches Some(z) && z@ == self.time_zone@,
            r.user_agent matches Some(ua) && ua@ == self.name@ + "/"@ + self.version@,
            r.platform == Some(self.platform),
            r.device_capabilities == Some(self.device_capabilities),
            r.safe_area_insets is None,
    {
        let mut modes: Vec<DisplayMode> = Vec::new();
        let n = self.supported_display_modes.len();
        let mut i: usize = 0;
        while i < n
            invariant
                0 <= i <= n,
                n == self.supported_display_modes@.len(),
                modes@ =~= self.supported_display_modes@.take(i as int),
            decreases n - i,
        {
            modes.push(self.supported_display_modes[i]);
            i = i + 1;
        }
        proof {
            assert(modes@ =~= self.supported_display_modes@);
        }
        let mut ua = self.name.clone();
        ua.append("/");
        ua.append(self.version.as_str());
        HostContext {
            tool_info: None,
            theme: Some(self.theme.clone()),
            styles: None,
            display_mode: Some(DisplayMode::Inline),
            available_display_modes: Some(modes),
            container_dimensions: Some(self.container_dimensions),
            locale: Some(self.locale.clone()),
            time_zone: Some(self.time_zone.clone()),
            user_agent: Some(ua),
            platform: Some(self.platform),
            device_capabilities: Some(self.device_capabilities),
            safe_area_insets: None,
        }
    }

    /// The same host supporting the given display modes.
    pub fn with_display_modes(self, modes: Vec<DisplayMode>) -> (r: Self)
        ensures
            r.supported_display_modes == modes,
            r.name == self.name,
            r.version == self.version,
            r.theme == self.theme,
            r.platform == self.platform,
            r.device_capabilities == self.device_capabilities,
            r.container_dimensions == self.container_dimensions,
            r.locale == self.locale,
            r.time_zone == self.time_zone,
    {
        HostState { supported_display_modes: modes, ..self }
    }

    /// The same host under another theme.
    pub fn with_theme(self, theme: &str) -> (r: Self)
        ensures
            r.theme@ == theme@,
            r.name == self.name,
            r.version == self.version,
            r.supported_display_modes == self.supported_display_modes,
            r.platform == self.platform,
            r.device_capabilities == self.device_capabilities,
            r.container_dimensions == self.container_dimensions,
            r.locale == self.locale,
            r.time_zone == self.time_zone,
    {
        HostState { theme: String::from_str(theme), ..self }
    }

    /// The same host on another platform.
    pub fn with_platform(self, platform: Platform) -> (r: Self)
        ensures
            r.platform == platform,
            r.name == self.name,
            r.version == self.version,
            r.supported_display_modes == self.supported_display_modes,
            r.theme == self.theme,
            r.device_capabilities == self.device_capabilities,
            r.container_dimensions == self.container_dimensions,
            r.locale == self.locale,
            r.time_zone == self.time_zone,
    {
        HostState { platform, ..self }
    }

    /// The same host under another locale.
    pub fn with_locale(self, locale: &str) -> (r: Self)
        ensures
            r.locale@ == locale@,
            r.name == self.name,
            r.version == self.version,
            r.supported_display_modes == self.supported_display_modes,
            r.theme == self.theme,
            r.platform == self.platform,
            r.device_capabilities == self.device_capabilities,
            r.container_dimensions == self.container_dimensions,
            r.time_zone == self.time_zone,
    {
        HostState { locale: String::from_str(locale), ..self }
    }

    /// The same host in another time zone.
    pub fn with_timezone(self, tz: &str) -> (r: Self)
        ensures
            r.time_zone@ == tz@,
            r.name == self.name,
            r.version == self.version,
            r.supported_display_modes == self.supported_display_modes,
            r.theme == self.theme,
            r.platform == self.platform,
            r.device_capabilities == self.device_capabilities,
            r.container_dimensions == self.container_dimensions,
            r.locale == self.locale,
    {
        HostState { time_zone: String::from_str(tz), ..self }
    }
}

/// The lifecycle state of a UI session.
#[derive(Clone, PartialEq, Debug)]
pub enum UiSessionState {
    /// Waiting for the view's `ui/initialize`
    Initializing,
    /// Initialized and ready
    Ready,
    /// A triggering tool call is outstanding
    Loading,
    /// Content rendered and interactive
    Active,
    /// Being torn down; terminal
    Teardown,
    /// Failed for the given reason; terminal
    Error(String),
}

/// Whether a session state admits no further transitions.
pub open spec fn spec_session_terminal(s: UiSessionState) -> bool {
    s is Teardown || s is Error
}

/// The session machine's permitted moves: along
/// `Initializing → Ready → Loading → Active`, from any non-terminal state
/// into `Teardown` or `Error`, and nothing out of a terminal state.
pub open spec fn spec_session_step_allowed(from: UiSessionState, to: UiSessionState) -> bool {
    &&& !spec_session_terminal(from)
    &&& match to {
        UiSessionState::Initializing => false,
        UiSessionState::Ready => from is Initializing,
        UiSessionState::Loading => from is Ready,
        UiSessionState::Active => from is Loading,
        UiSessionState::Teardown => true,
        UiSessionState::Error(_) => true,
    }
}

/// An active UI session.
pub struct UiSession {
    /// Session id
    pub id: String,
    /// The server connection this session renders for
    pub server_id: String,
    /// The UI resource being rendered
    pub resource_uri: String,
    /// The tool call that opened this session, if one did
    pub tool_info: Option<ToolInfo>,
    /// Lifecycle state
    pub state: UiSessionState,
    /// Capabilities the app declared during `ui/initialize`
    pub app_capabilities: Option<McpUiAppCapabilities>,
    /// Session metadata
    pub metadata: Vec<(String, JsonValue)>,
}

impl UiSession {
    /// A fresh session in `Initializing` state.
    pub fn new(id: &str, server_id: &str, resource_uri: &str) -> (r: UiSession)
        ensures
            r.id@ == id@,
            r.server_id@ == server_id@,
            r.resource_uri@ == resource_uri@,
            r.tool_info is None,
            r.state is Initializing,
            r.app_capabilities is None,
            r.metadata@.len() == 0,
    {
        UiSession {
            id: String::from_str(id),
            server_id: String::from_str(server_id),
            resource_uri: String::from_str(resource_uri),
            tool_info: None,
            state: UiSessionState::Initializing,
            app_capabilities: None,
            metadata: Vec::new(),
        }
    }

    /// The same session annotated with the tool call that opened it.
    pub fn with_tool_info(self, tool_info: ToolInfo) -> (r: UiSession)
        ensures
            r.tool_info is Some,
            r.id == self.id,
            r.server_id == self.server_id,
            r.resource_uri == self.resource_uri,
            r.state == self.state,
            r.app_capabilities == self.app_capabilities,
            r.metadata == self.metadata,
    {
        UiSession { tool_info: Some(tool_info), ..self }
    }

    /// Whether this session admits no further transitions.
    pub fn is_terminal(&self) -> (r: bool)
        ensures
            r == spec_session_terminal(self.state),
    {
        matches!(self.state, UiSessionState::Teardown | UiSessionState::Error(_))
    }

    /// Move the session machine to `to` when the machine permits it; an
    /// impermissible move, a move out of a terminal state included, leaves
    /// the session unchanged and reports failure.
    pub fn transition(&mut self, to: UiSessionState) -> (r: bool)
        ensures
            r == spec_session_step_allowed(old(self).state, to),
            r ==> final(self).state == to,
            !r ==> final(self).state == old(self).state,
            final(self).id == old(self).id,
            final(self).server_id == old(self).server_id,
            final(self).resource_uri == old(self).resource_uri,
            final(self).tool_info == old(self).tool_info,
            final(self).app_capabilities == old(self).app_capabilities,
            final(self).metadata == old(self).metadata,
    {
        let allowed = match (&self.state, &to) {
            (UiSessionState::Teardown, _) => false,
            (UiSessionState::Error(_), _) => false,
            (_, UiSessionState::Initializing) => false,
            (UiSessionState::Initializing, UiSessionState::Ready) => true,
            (_, UiSessionState::Ready) => false,
            (UiSessionState::Ready, UiSessionState::Loading) => true,
            (_, UiSessionState::Loading) => false,
            (UiSessionState::Loading, UiSessionState::Active) => true,
            (_, UiSessionState::Active) => false,
            (_, UiSessionState::Teardown) => true,
            (_, UiSessionState::Error(_)) => true,
        };
        if allowed {
            self.state = to;
        }
        allowed
    }
}

/// Once a session reaches a terminal state, no move is permitted out of
/// it.
pub proof fn lemma_session_terminal_is_final(from: UiSessionState, to: UiSessionState)
    requires
        spec_session_terminal(from),
    ensures
        !spec_session_step_allowed(from, to),
{
}

/// Events about UI sessions.
pub enum UiSessionEvent {
    /// A session's state changed.
    StateChanged { session_id: String, state: UiSessionState },
    /// A message arrived from the view.
    Message { session_id: String, message: Message },
    /// Tool input arrived.
    ToolInput { session_id: String, arguments: JsonValue },
    /// A tool result arrived.
    ToolResult { session_id: String, result: JsonValue },
    /// A tool call was cancelled.
    ToolCancelled { session_id: String, reason: Option<String> },
    /// The display mode changed.
    DisplayModeChanged { session_id: String, mode: DisplayMode },
    /// The view reported a size change.
    SizeChanged { session_id: String, width: u32, height: u32 },
    /// The session failed.
    Error { session_id: String, error: String },
    /// The session closed.
    Closed { session_id: String },
}

} // verus!
