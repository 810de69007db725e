//! Capability types and negotiation.
//!
//! The host, the server and optionally the app each declare capabilities;
//! [`negotiate_capabilities`] reconciles them into one agreed set.  A missing
//! or malformed capability block always degrades to "unsupported" rather than
//! failing a handshake.

use vstd::prelude::*;

use crate::json::{spec_get, JsonValue};

verus! {

/// An empty object standing for a granted feature flag.
#[derive(Clone, Copy, PartialEq, Eq, Structural, Debug)]
pub struct Empty {}

/// Display modes supported by apps and hosts.
#[derive(Clone, Copy, PartialEq, Eq, Structural, Debug)]
pub enum DisplayMode {
    /// Default mode, embedded within the host's content flow
    Inline,
    /// View takes over the full screen or window
    Fullscreen,
    /// Picture-in-picture, floating overlay
    Pip,
}

impl DisplayMode {
    /// The wire name of this mode.
    pub fn as_str(&self) -> (r: &'static str)
        ensures
            r@ == spec_mode_name(*self),
    {
        match self {
            DisplayMode::Inline => "inline",
            DisplayMode::Fullscreen => "fullscreen",
            DisplayMode::Pip => "pip",
        }
    }
}

/// The wire name of a display mode.
pub open spec fn spec_mode_name(m: DisplayMode) -> Seq<char> {
    match m {
        DisplayMode::Inline => "inline"@,
        DisplayMode::Fullscreen => "fullscreen"@,
        DisplayMode::Pip => "pip"@,
    }
}

/// Whether a list of modes holds `m`.
pub fn modes_contain(v: &Vec<DisplayMode>, m: DisplayMode) -> (r: bool)
    ensures
        r == v@.contains(m),
{
    let n = v.len();
    let mut i: usize = 0;
    while i < n
        invariant
            0 <= i <= n,
            n == v@.len(),
            forall|j: int| 0 <= j < i ==> v@[j] != m,
        decreases n - i,
    {
        if v[i] == m {
            return true;
        }
        i = i + 1;
    }
    false
}

/// Server tools capability block.
#[derive(Clone, Copy, PartialEq, Eq, Structural, Debug)]
pub struct ServerToolsCapability {
    /// Whether `tools/list_changed` notifications are offered.
    pub list_changed: Option<bool>,
}

/// Server resources capability block.
#[derive(Clone, Copy, PartialEq, Eq, Structural, Debug)]
pub struct ServerResourcesCapability {
    /// Whether `resources/list_changed` notifications are offered.
    pub list_changed: Option<bool>,
}

/// Permissions a host can grant to a view's sandbox.
#[derive(Clone, Copy, PartialEq, Eq, Structural, Debug)]
pub struct UiPermissions {
    /// Camera access granted
    pub camera: Option<Empty>,
    /// Microphone access granted
    pub microphone: Option<Empty>,
    /// Geolocation access granted
    pub geolocation: Option<Empty>,
    /// Clipboard write access granted
    pub clipboard_write: Option<Empty>,
}

/// The permission set with nothing granted.
pub open spec fn spec_no_permissions() -> UiPermissions {
    UiPermissions { camera: None, microphone: None, geolocation: None, clipboard_write: None }
}

impl Default for UiPermissions {
    /// No permission granted.
    fn default() -> (r: Self)
        ensures
            r == spec_no_permissions(),
    {
        UiPermissions { camera: None, microphone: None, geolocation: None, clipboard_write: None }
    }
}

/// The names of the granted permissions, in declaration order.
pub open spec fn spec_granted(p: UiPermissions) -> Seq<Seq<char>> {
    (if p.camera is Some {
        seq!["camera"@]
    } else {
        Seq::empty()
    }) + (if p.microphone is Some {
        seq!["microphone"@]
    } else {
        Seq::empty()
    }) + (if p.geolocation is Some {
        seq!["geolocation"@]
    } else {
        Seq::empty()
    }) + (if p.clipboard_write is Some {
        seq!["clipboard-write"@]
    } else {
        Seq::empty()
    })
}

impl UiPermissions {
    /// Whether any permission is granted.
    pub fn has_any(&self) -> (r: bool)
        ensures
            r == (self.camera is Some || self.microphone is Some || self.geolocation is Some
                || self.clipboard_write is Some),
    {
        self.camera.is_some() || self.microphone.is_some() || self.geolocation.is_some()
            || self.clipboard_write.is_some()
    }

    /// The granted permissions as strings, in declaration order.
    pub fn granted(&self) -> (r: Vec<&'static str>)
        ensures
            r@.map_values(|s: &'static str| s@) =~= spec_granted(*self),
    {
        let mut out: Vec<&'static str> = Vec::new();
        if self.camera.is_some() {
            out.push("camera");
        }
        if self.microphone.is_some() {
            out.push("microphone");
        }
        if self.geolocation.is_some() {
            out.push("geolocation");
        }
        if self.clipboard_write.is_some() {
            out.push("clipboard-write");
        }
        proof {
            assert(out@.map_values(|s: &'static str| s@) =~= spec_granted(*self));
        }
        out
    }
}

/// A domain pattern with every leading `*.` removed, as `trim_start_matches`
/// leaves it.
pub open spec fn strip_wildcard(d: Seq<char>) -> Seq<char>
    decreases d.len(),
{
    if d.len() >= 2 && d[0] == '*' && d[1] == '.' {
        strip_wildcard(d.skip(2))
    } else {
        d
    }
}

/// Whether `domain` is matched by the approved pattern `pat`: a lone `*`
/// matches everything, a `*.`-prefixed pattern matches by suffix, and any
/// other pattern matches itself only.  The suffix comparison uses the
/// pattern with its `*.` prefix removed, so `*.example.com` also matches
/// `example.com` itself and any domain merely ending in `example.com`.
pub open spec fn spec_domain_matches(domain: Seq<char>, pat: Seq<char>) -> bool {
    ||| pat == "*"@
    ||| crate::strutil::seq_ends_with(domain, strip_wildcard(pat))
    ||| domain == pat
}

/// Whether some pattern in `pats` matches `domain`.
pub open spec fn spec_any_domain_matches(domain: Seq<char>, pats: Seq<String>) -> bool {
    exists|i: int| 0 <= i < pats.len() && spec_domain_matches(domain, (#[trigger] pats[i])@)
}

/// `pat` with every leading `*.` removed.
fn strip_wildcard_prefix<'a>(pat: &'a str) -> (r: &'a str)
    ensures
        r@ == strip_wildcard(pat@),
{
    let mut s = pat;
    loop
        invariant
            strip_wildcard(pat@) == strip_wildcard(s@),
        decreases s@.len(),
    {
        let n = s.unicode_len();
        if n >= 2 && s.get_char(0) == '*' && s.get_char(1) == '.' {
            let t = s.substring_char(2, n);
            proof {
                assert(t@ =~= s@.skip(2));
            }
            s = t;
        } else {
            return s;
        }
    }
}

/// Whether `domain` is matched by `pat`.
fn domain_matches(domain: &str, pat: &str) -> (r: bool)
    ensures
        r == spec_domain_matches(domain@, pat@),
{
    if crate::strutil::str_eq(pat, "*") {
        return true;
    }
    let stripped = strip_wildcard_prefix(pat);
    if crate::strutil::str_ends_with(domain, stripped) {
        return true;
    }
    crate::strutil::str_eq(domain, pat)
}

/// Whether some pattern in `pats` matches `domain`.
fn any_domain_matches(domain: &str, pats: &Vec<String>) -> (r: bool)
    ensures
        r == spec_any_domain_matches(domain@, pats@),
{
    let n = pats.len();
    let mut i: usize = 0;
    while i < n
        invariant
            0 <= i <= n,
            n == pats@.len(),
            forall|j: int| 0 <= j < i ==> !spec_domain_matches(domain@, (#[trigger] pats@[j])@),
        decreases n - i,
    {
        if domain_matches(domain, pats[i].as_str()) {
            return true;
        }
        i = i + 1;
    }
    false
}

/// CSP domain lists approved by the host.
#[derive(Clone, Debug)]
pub struct ApprovedCsp {
    /// Approved origins for network requests
    pub connect_domains: Option<Vec<String>>,
    /// Approved origins for static resources
    pub resource_domains: Option<Vec<String>>,
    /// Approved origins for nested iframes
    pub frame_domains: Option<Vec<String>>,
    /// Approved base URIs for the document
    pub base_uri_domains: Option<Vec<String>>,
}

impl Default for ApprovedCsp {
    /// No domain list approved.
    fn default() -> (r: Self)
        ensures
            r.connect_domains is None,
            r.resource_domains is None,
            r.frame_domains is None,
            r.base_uri_domains is None,
    {
        ApprovedCsp {
            connect_domains: None,
            resource_domains: None,
            frame_domains: None,
            base_uri_domains: None,
        }
    }
}

impl ApprovedCsp {
    /// Whether `domain` is approved for network connections; with no
    /// connect list nothing is approved.
    pub fn allows_connection(&self, domain: &str) -> (r: bool)
        ensures
            r == match self.connect_domains {
                Some(ds) => spec_any_domain_matches(domain@, ds@),
                None => false,
            },
    {
        match &self.connect_domains {
            Some(ds) => any_domain_matches(domain, ds),
            None => false,
        }
    }

    /// Whether `domain` is approved for static resources; with no resource
    /// list nothing is approved.
    pub fn allows_resource(&self, domain: &str) -> (r: bool)
        ensures
            r == match self.resource_domains {
                Some(ds) => spec_any_domain_matches(domain@, ds@),
                None => false,
            },
    {
        match &self.resource_domains {
            Some(ds) => any_domain_matches(domain, ds),
            None => false,
        }
    }
}

/// Sandbox configuration a host applies to views.
#[derive(Clone, Debug)]
pub struct SandboxCapability {
    /// Permissions granted by the host
    pub permissions: Option<UiPermissions>,
    /// CSP domains approved by the host
    pub csp: Option<ApprovedCsp>,
}

/// Host capabilities for the apps extension.
#[derive(Clone, Debug)]
pub struct UiHostCapabilities {
    /// Experimental features
    pub experimental: Option<JsonValue>,
    /// Host supports opening external URLs
    pub open_links: Option<Empty>,
    /// Host can proxy tool calls to the server
    pub server_tools: Option<ServerToolsCapability>,
    /// Host can proxy resource reads to the server
    pub server_resources: Option<ServerResourcesCapability>,
    /// Host accepts log messages
    pub logging: Option<Empty>,
    /// Sandbox configuration applied by the host
    pub sandbox: Option<SandboxCapability>,
}

/// Whether a host declaration offers tool list-changed notifications.
pub open spec fn spec_host_tool_notifications(h: UiHostCapabilities) -> bool {
    h.server_tools matches Some(t) && t.list_changed == Some(true)
}

/// Whether a host declaration offers resource list-changed notifications.
pub open spec fn spec_host_resource_notifications(h: UiHostCapabilities) -> bool {
    h.server_resources matches Some(t) && t.list_changed == Some(true)
}

/// The permissions a host declaration grants through its sandbox block.
pub open spec fn spec_host_permissions(h: UiHostCapabilities) -> UiPermissions {
    match h.sandbox {
        Some(s) => match s.permissions {
            Some(p) => p,
            None => spec_no_permissions(),
        },
        None => spec_no_permissions(),
    }
}

impl UiHostCapabilities {
    /// Capabilities with every feature enabled: notifications on, all
    /// sandbox permissions granted, and `*` CSP allow-lists.
    pub fn full() -> (r: Self)
        ensures
            r.experimental is None,
            r.open_links == Some(Empty {  }),
            r.server_tools == Some(ServerToolsCapability { list_changed: Some(true) }),
            r.server_resources == Some(ServerResourcesCapability { list_changed: Some(true) }),
            r.logging == Some(Empty {  }),
            match r.sandbox {
                Some(s) => {
                    &&& s.permissions == Some(
                        (UiPermissions {
                            camera: Some(Empty {  }),
                            microphone: Some(Empty {  }),
                            geolocation: Some(Empty {  }),
                            clipboard_write: Some(Empty {  }),
                        }),
                    )
                    &&& match s.csp {
                        Some(c) => {
                            &&& c.connect_domains matches Some(cd) && cd@.len() == 1 && cd@[0]@
                                == "*"@
                            &&& c.resource_domains matches Some(rd) && rd@.len() == 1 && rd@[0]@
                                == "*"@
                            &&& c.frame_domains is None
                            &&& c.base_uri_domains is None
                        },
                        None => false,
                    }
                },
                None => false,
            },
    {
        let mut connect: Vec<String> = Vec::new();
        connect.push(String::from_str("*"));
        let mut resource: Vec<String> = Vec::new();
        resource.push(String::from_str("*"));
        UiHostCapabilities {
            experimental: None,
            open_links: Some(Empty {  }),
            server_tools: Some(ServerToolsCapability { list_changed: Some(true) }),
            server_resources: Some(ServerResourcesCapability { list_changed: Some(true) }),
            logging: Some(Empty {  }),
            sandbox: Some(
                SandboxCapability {
                    permissions: Some(
                        UiPermissions {
                            camera: Some(Empty {  }),
                            microphone: Some(Empty {  }),
                            geolocation: Some(Empty {  }),
                            clipboard_write: Some(Empty {  }),
                        },
                    ),
                    csp: Some(
                        ApprovedCsp {
                            connect_domains: Some(connect),
                            resource_domains: Some(resource),
                            frame_domains: None,
                            base_uri_domains: None,
                        },
                    ),
                },
            ),
        }
    }

    /// Minimal capabilities: open-links and logging only, notifications off,
    /// no permission granted, empty CSP configuration.
    pub fn minimal() -> (r: Self)
        ensures
            r.experimental is None,
            r.open_links == Some(Empty {  }),
            r.server_tools == Some(ServerToolsCapability { list_changed: Some(false) }),
            r.server_resources == Some(ServerResourcesCapability { list_changed: Some(false) }),
            r.logging == Some(Empty {  }),
            match r.sandbox {
                Some(s) => {
                    &&& s.permissions == Some(spec_no_permissions())
                    &&& match s.csp {
                        Some(c) => {
                            &&& c.connect_domains is None
                            &&& c.resource_domains is None
                            &&& c.frame_domains is None
                            &&& c.base_uri_domains is None
                        },
                        None => false,
                    }
                },
                None => false,
            },
    {
        UiHostCapabilities {
            experimental: None,
            open_links: Some(Empty {  }),
            server_tools: Some(ServerToolsCapability { list_changed: Some(false) }),
            server_resources: Some(ServerResourcesCapability { list_changed: Some(false) }),
            logging: Some(Empty {  }),
            sandbox: Some(
                SandboxCapability {
                    permissions: Some(UiPermissions::default()),
                    csp: Some(ApprovedCsp::default()),
                },
            ),
        }
    }

    /// Whether the host opens external links.
    pub fn supports_open_links(&self) -> (r: bool)
        ensures
            r == (self.open_links is Some),
    {
        self.open_links.is_some()
    }

    /// Whether the host offers tool list-changed notifications.
    pub fn supports_tool_notifications(&self) -> (r: bool)
        ensures
            r == spec_host_tool_notifications(*self),
    {
        match &self.server_tools {
            Some(t) => match t.list_changed {
                Some(b) => b,
                None => false,
            },
            None => false,
        }
    }

    /// Whether the host offers resource list-changed notifications.
    pub fn supports_resource_notifications(&self) -> (r: bool)
        ensures
            r == spec_host_resource_notifications(*self),
    {
        match &self.server_resources {
            Some(t) => match t.list_changed {
                Some(b) => b,
                None => false,
            },
            None => false,
        }
    }

    /// Whether the host accepts log messages.
    pub fn supports_logging(&self) -> (r: bool)
        ensures
            r == (self.logging is Some),
    {
        self.logging.is_some()
    }
}

/// App tools capability block.
#[derive(Clone, Copy, PartialEq, Eq, Structural, Debug)]
pub struct AppToolsCapability {
    /// Whether the app announces tool list changes.
    pub list_changed: Option<bool>,
}

/// Capabilities an app declares during `ui/initialize`.
#[derive(Clone, Debug)]
pub struct McpUiAppCapabilities {
    /// Experimental features
    pub experimental: Option<JsonValue>,
    /// Tools the app itself exposes to the host
    pub tools: Option<AppToolsCapability>,
    /// Display modes the app supports; absent means every mode
    pub available_display_modes: Option<Vec<DisplayMode>>,
}

impl Default for McpUiAppCapabilities {
    /// An app declaration with nothing declared.
    fn default() -> (r: Self)
        ensures
            r.experimental is None,
            r.tools is None,
            r.available_display_modes is None,
    {
        McpUiAppCapabilities { experimental: None, tools: None, available_display_modes: None }
    }
}

impl McpUiAppCapabilities {
    /// Whether the app supports `mode`; an app that declared no mode list
    /// supports every mode.
    pub fn supports_display_mode(&self, mode: DisplayMode) -> (r: bool)
        ensures
            r == match self.available_display_modes {
                Some(ms) => ms@.contains(mode),
                None => true,
            },
    {
        match &self.available_display_modes {
            Some(ms) => modes_contain(ms, mode),
            None => true,
        }
    }

    /// Whether the app exposes tools of its own.
    pub fn exposes_tools(&self) -> (r: bool)
        ensures
            r == (self.tools is Some),
    {
        self.tools.is_some()
    }

    /// Whether the app announces tool list changes.
    pub fn supports_tool_notifications(&self) -> (r: bool)
        ensures
            r == (self.tools matches Some(t) && t.list_changed == Some(true)),
    {
        match &self.tools {
            Some(t) => match t.list_changed {
                Some(b) => b,
                None => false,
            },
            None => false,
        }
    }
}

/// The extension blocks of a server's `capabilities.experimental` member.
#[derive(Clone, Debug)]
pub struct ExperimentalCapabilities {
    /// The apps extension block, when the server declares it.
    pub ui: Option<UiHostCapabilities>,
}

/// Server tools capability as the server declares it.
#[derive(Clone, Copy, PartialEq, Eq, Structural, Debug)]
pub struct ToolsServerCapability {
    pub list_changed: Option<bool>,
}

/// Server resources capability as the server declares it.
#[derive(Clone, Copy, PartialEq, Eq, Structural, Debug)]
pub struct ResourcesServerCapability {
    pub list_changed: Option<bool>,
}

/// Capabilities parsed from a server's `initialize` response.
#[derive(Clone, Debug)]
pub struct ServerCapabilities {
    /// Experimental capabilities
    pub experimental: Option<ExperimentalCapabilities>,
    /// Tools capability
    pub tools: Option<ToolsServerCapability>,
    /// Resources capability
    pub resources: Option<ResourcesServerCapability>,
}

/// Whether a parsed server declaration carries the apps extension.
pub open spec fn spec_supports_ui_apps(s: ServerCapabilities) -> bool {
    s.experimental matches Some(e) && e.ui is Some
}

/// Whether a parsed server declaration offers tool list-changed
/// notifications.
pub open spec fn spec_server_tool_notifications(s: ServerCapabilities) -> bool {
    s.tools matches Some(t) && t.list_changed == Some(true)
}

/// Whether a parsed server declaration offers resource list-changed
/// notifications.
pub open spec fn spec_server_resource_notifications(s: ServerCapabilities) -> bool {
    s.resources matches Some(t) && t.list_changed == Some(true)
}

impl Default for ServerCapabilities {
    /// A declaration with nothing supported.
    fn default() -> (r: Self)
        ensures
            r.experimental is None,
            r.tools is None,
            r.resources is None,
    {
        ServerCapabilities { experimental: None, tools: None, resources: None }
    }
}

impl ServerCapabilities {
    /// Whether the server declares the apps extension.
    pub fn supports_ui_apps(&self) -> (r: bool)
        ensures
            r == spec_supports_ui_apps(*self),
    {
        match &self.experimental {
            Some(e) => e.ui.is_some(),
            None => false,
        }
    }

    /// The server's apps extension block, when declared.
    pub fn ui_capabilities(&self) -> (r: Option<&UiHostCapabilities>)
        ensures
            match r {
                Some(u) => self.experimental matches Some(e) && e.ui == Some(*u),
                None => !spec_supports_ui_apps(*self),
            },
    {
        match &self.experimental {
            Some(e) => e.ui.as_ref(),
            None => None,
        }
    }

    /// Whether the server offers tools.
    pub fn supports_tools(&self) -> (r: bool)
        ensures
            r == (self.tools is Some),
    {
        self.tools.is_some()
    }

    /// Whether the server offers resources.
    pub fn supports_resources(&self) -> (r: bool)
        ensures
            r == (self.resources is Some),
    {
        self.resources.is_some()
    }

    /// Whether the server offers tool list-changed notifications.
    pub fn supports_tool_notifications(&self) -> (r: bool)
        ensures
            r == spec_server_tool_notifications(*self),
    {
        match &self.tools {
            Some(t) => match t.list_changed {
                Some(b) => b,
                None => false,
            },
            None => false,
        }
    }

    /// Whether the server offers resource list-changed notifications.
    pub fn supports_resource_notifications(&self) -> (r: bool)
        ensures
            r == spec_server_resource_notifications(*self),
    {
        match &self.resources {
            Some(t) => match t.list_changed {
                Some(b) => b,
                None => false,
            },
            None => false,
        }
    }
}

/// The capabilities agreed between one host and one server.
#[derive(Clone, Debug)]
pub struct NegotiatedCapabilities {
    /// Protocol version agreed upon
    pub protocol_version: String,
    /// Server supports the apps extension
    pub supports_ui_apps: bool,
    /// Agreed display modes
    pub display_modes: Vec<DisplayMode>,
    /// Whether tool notifications are supported
    pub tool_notifications: bool,
    /// Whether resource notifications are supported
    pub resource_notifications: bool,
    /// Granted permissions
    pub permissions: UiPermissions,
}

/// The display modes a negotiation agrees on: the host's fixed list
/// (inline, then fullscreen), kept in order and restricted to the app's
/// declared modes when the app declared any.
pub open spec fn spec_negotiated_modes(app: Option<McpUiAppCapabilities>) -> Seq<DisplayMode> {
    let host = seq![DisplayMode::Inline, DisplayMode::Fullscreen];
    match app {
        Some(a) => match a.available_display_modes {
            Some(ms) => {
                if ms@.contains(DisplayMode::Inline) && ms@.contains(DisplayMode::Fullscreen) {
                    host
                } else if ms@.contains(DisplayMode::Inline) {
                    seq![DisplayMode::Inline]
                } else if ms@.contains(DisplayMode::Fullscreen) {
                    seq![DisplayMode::Fullscreen]
                } else {
                    Seq::empty()
                }
            },
            None => host,
        },
        None => host,
    }
}

/// Reconcile host, server and optional app declarations.
///
/// The agreed display modes are the host's modes, restricted to the app's
/// list when one was declared; each notification flag holds only when host
/// and server both opted in; the granted permissions come from the host's
/// sandbox alone, never from the server.
pub fn negotiate_capabilities(
    host_caps: &UiHostCapabilities,
    server_caps: &ServerCapabilities,
    app_caps: Option<&McpUiAppCapabilities>,
) -> (r: NegotiatedCapabilities)
    ensures
        r.protocol_version@ == "2026-01-26"@,
        r.supports_ui_apps == spec_supports_ui_apps(*server_caps),
        r.display_modes@ == spec_negotiated_modes(
            match app_caps {
                Some(a) => Some(*a),
                None => None,
            },
        ),
        r.tool_notifications == (spec_host_tool_notifications(*host_caps)
            && spec_server_tool_notifications(*server_caps)),
        r.resource_notifications == (spec_host_resource_notifications(*host_caps)
            && spec_server_resource_notifications(*server_caps)),
        r.permissions == spec_host_permissions(*host_caps),
{
    let app_modes: Option<&Vec<DisplayMode>> = match app_caps {
        Some(a) => a.available_display_modes.as_ref(),
        None => None,
    };
    let mut display_modes: Vec<DisplayMode> = Vec::new();
    match app_modes {
        Some(ms) => {
            if modes_contain(ms, DisplayMode::Inline) {
                display_modes.push(DisplayMode::Inline);
            }
            if modes_contain(ms, DisplayMode::Fullscreen) {
                display_modes.push(DisplayMode::Fullscreen);
            }
        },
        None => {
            display_modes.push(DisplayMode::Inline);
            display_modes.push(DisplayMode::Fullscreen);
        },
    }
    proof {
        assert(display_modes@ =~= spec_negotiated_modes(
            match app_caps {
                Some(a) => Some(*a),
                None => None,
            },
        ));
    }
    let permissions = match &host_caps.sandbox {
        Some(s) => match &s.permissions {
            Some(p) => *p,
            None => UiPermissions::default(),
        },
        None => UiPermissions::default(),
    };
    NegotiatedCapabilities {
        protocol_version: String::from_str("2026-01-26"),
        supports_ui_apps: server_caps.supports_ui_apps(),
        display_modes,
        tool_notifications: host_caps.supports_tool_notifications()
            && server_caps.supports_tool_notifications(),
        resource_notifications: host_caps.supports_resource_notifications()
            && server_caps.supports_resource_notifications(),
        permissions,
    }
}

/// The agreed notification flag is the conjunction of both sides' flags:
/// if either side declined, the negotiated flag is off.
pub proof fn lemma_notifications_need_both(
    host: UiHostCapabilities,
    server: ServerCapabilities,
    r: NegotiatedCapabilities,
)
    requires
        r.tool_notifications == (spec_host_tool_notifications(host)
            && spec_server_tool_notifications(server)),
        r.resource_notifications == (spec_host_resource_notifications(host)
            && spec_server_resource_notifications(server)),
    ensures
        !spec_host_tool_notifications(host) ==> !r.tool_notifications,
        !spec_server_tool_notifications(server) ==> !r.tool_notifications,
        !spec_host_resource_notifications(host) ==> !r.resource_notifications,
        !spec_server_resource_notifications(server) ==> !r.resource_notifications,
{
}

/// A capability block of the form `{"listChanged": bool}` read from a wire
/// value: `None` when the member is absent or `null`, otherwise the decoded
/// `listChanged` flag (absent or non-boolean reads as `None`).
pub open spec fn spec_cap_block(v: JsonValue, key: Seq<char>) -> Option<Option<bool>> {
    match spec_get(v, key) {
        None => None,
        Some(x) => if x is Null {
            None
        } else {
            Some(
                match spec_get(x, "listChanged"@) {
                    Some(JsonValue::Bool(b)) => Some(b),
                    _ => None,
                },
            )
        },
    }
}

/// Whether a capabilities value declares the apps extension under
/// `experimental`.
pub open spec fn spec_has_ui_block(v: JsonValue) -> bool {
    &&& spec_get(v, "experimental"@) matches Some(e)
    &&& !(e is Null)
    &&& spec_get(e, "io.modelcontextprotocol/ui"@) matches Some(u)
    &&& !(u is Null)
}

/// Read the `listChanged` flag of a capability block member.
fn parse_cap_flag(v: &JsonValue, key: &str) -> (r: Option<Option<bool>>)
    ensures
        r == spec_cap_block(*v, key@),
{
    match v.get(key) {
        None => None,
        Some(x) => {
            if x.is_null() {
                None
            } else {
                match x.get("listChanged") {
                    Some(b) => match b.as_bool() {
                        Some(f) => Some(Some(f)),
                        None => Some(None),
                    },
                    None => Some(None),
                }
            }
        },
    }
}

impl ServerCapabilities {
    /// Parse a server's `capabilities` value.
    ///
    /// Reading is permissive, as the negotiation policy asks: a missing or
    /// malformed member reads as "unsupported", never as a failure.  Only
    /// the members the host acts on are kept: the presence of the apps
    /// extension under `experimental`, and the `listChanged` flags of the
    /// `tools` and `resources` blocks.  The contents of the extension block
    /// itself are not read by any host decision and are kept as an empty
    /// declaration.
    pub fn from_value(v: &JsonValue) -> (r: ServerCapabilities)
        ensures
            spec_supports_ui_apps(r) == spec_has_ui_block(*v),
            r.tools == match spec_cap_block(*v, "tools"@) {
                None => None::<ToolsServerCapability>,
                Some(lc) => Some(ToolsServerCapability { list_changed: lc }),
            },
            r.resources == match spec_cap_block(*v, "resources"@) {
                None => None::<ResourcesServerCapability>,
                Some(lc) => Some(ResourcesServerCapability { list_changed: lc }),
            },
            r.experimental is Some <==> spec_has_ui_block(*v),
    {
        let has_ui = match v.get("experimental") {
            Some(e) => {
                if e.is_null() {
                    false
                } else {
                    match e.get("io.modelcontextprotocol/ui") {
                        Some(u) => !u.is_null(),
                        None => false,
                    }
                }
            },
            None => false,
        };
        let experimental = if has_ui {
            Some(
                ExperimentalCapabilities {
                    ui: Some(
                        UiHostCapabilities {
                            experimental: None,
                            open_links: None,
                            server_tools: None,
                            server_resources: None,
                            logging: None,
                            sandbox: None,
                        },
                    ),
                },
            )
        } else {
            None
        };
        let tools = match parse_cap_flag(v, "tools") {
            Some(lc) => Some(ToolsServerCapability { list_changed: lc }),
            None => None,
        };
        let resources = match parse_cap_flag(v, "resources") {
            Some(lc) => Some(ResourcesServerCapability { list_changed: lc }),
            None => None,
        };
        ServerCapabilities { experimental, tools, resources }
    }
}

} // verus!
