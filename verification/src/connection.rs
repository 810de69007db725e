//! A connection to one server.
//!
//! A connection carries the server's identity, its raw and parsed
//! capability declarations, the negotiated capability set, a lifecycle
//! state, and three caches: tools, resources, and the UI resources derived
//! from the resource list.  The UI-resource cache is recomputed whenever the
//! resource list is replaced; it always holds exactly the resources whose
//! URI uses the `ui://` scheme, converted with the default mime type filled
//! in.

use vstd::prelude::*;

use crate::capabilities::{
    negotiate_capabilities, spec_host_permissions, spec_host_resource_notifications,
    spec_host_tool_notifications, spec_negotiated_modes, spec_server_resource_notifications,
    spec_server_tool_notifications, spec_supports_ui_apps, spec_has_ui_block, DisplayMode,
    McpUiAppCapabilities, NegotiatedCapabilities, ServerCapabilities, UiHostCapabilities,
};
use crate::json::{json_eq, spec_get, JsonValue};
use crate::model::{Resource, Tool};
use crate::resources::{spec_is_ui_uri, UiResource, UiResourceMeta};

verus! {

/// The lifecycle state of a connection.
///
/// `Connecting` and `Initializing` lead to `Ready`; `Disconnected` and
/// `Error` are reachable from any non-terminal state, and nothing returns
/// to `Connecting` or `Initializing` except through a fresh connection.
#[derive(Clone, PartialEq, Debug)]
pub enum ConnectionState {
    /// Transport being established
    Connecting,
    /// Handshake in progress
    Initializing,
    /// Handshake complete; calls are accepted
    Ready,
    /// The transport is gone
    Disconnected,
    /// An unrecoverable failure, with its reason
    Error(String),
}

/// A server's identity, from its `initialize` response.
#[derive(Clone, Debug)]
pub struct ServerInfo {
    pub name: String,
    pub version: String,
}

impl Default for ServerInfo {
    /// An unnamed server.
    fn default() -> (r: Self)
        ensures
            r.name@ == Seq::<char>::empty(),
            r.version@ == Seq::<char>::empty(),
    {
        ServerInfo { name: String::new(), version: String::new() }
    }
}

/// A UI resource converted from a resource declaration: same URI, name and
/// description, with the recommended mime type filled in when the
/// declaration carried none.
pub open spec fn spec_converted(r: Resource, u: UiResource) -> bool {
    &&& u.uri@ == r.uri@
    &&& u.name@ == r.name@
    &&& match (r.description, u.description) {
        (Some(a), Some(b)) => a@ == b@,
        (None, None) => true,
        _ => false,
    }
    &&& match r.mime_type {
        Some(m) => u.mime_type@ == m@,
        None => u.mime_type@ == "text/html;profile=mcp-app"@,
    }
}

/// The UI-resource cache `us` is exactly the `ui://` entries of `rs`, in
/// order, converted.
pub open spec fn spec_ui_filter(rs: Seq<Resource>, us: Seq<UiResource>) -> bool
    decreases rs.len(),
{
    if rs.len() == 0 {
        us.len() == 0
    } else if spec_is_ui_uri(rs[0].uri@) {
        us.len() > 0 && spec_converted(rs[0], us[0]) && spec_ui_filter(
            rs.drop_first(),
            us.drop_first(),
        )
    } else {
        spec_ui_filter(rs.drop_first(), us)
    }
}

/// Filtered views concatenate: the view of `a + b` is the view of `a`
/// followed by the view of `b`.
pub proof fn lemma_ui_filter_concat(
    a: Seq<Resource>,
    x: Seq<UiResource>,
    b: Seq<Resource>,
    y: Seq<UiResource>,
)
    requires
        spec_ui_filter(a, x),
        spec_ui_filter(b, y),
    ensures
        spec_ui_filter(a + b, x + y),
    decreases a.len(),
{
    if a.len() == 0 {
        assert(x.len() == 0);
        assert(a + b =~= b);
        assert(x + y =~= y);
    } else {
        let ab = a + b;
        assert(ab[0] == a[0]);
        assert(ab.drop_first() =~= a.drop_first() + b);
        if spec_is_ui_uri(a[0].uri@) {
            assert(x.len() > 0);
            let xy = x + y;
            assert(xy[0] == x[0]);
            assert(xy.drop_first() =~= x.drop_first() + y);
            lemma_ui_filter_concat(a.drop_first(), x.drop_first(), b, y);
        } else {
            lemma_ui_filter_concat(a.drop_first(), x, b, y);
        }
    }
}

/// Every entry of a filtered view uses the `ui://` scheme.
pub proof fn lemma_ui_filter_all_ui(rs: Seq<Resource>, us: Seq<UiResource>)
    requires
        spec_ui_filter(rs, us),
    ensures
        forall|i: int| 0 <= i < us.len() ==> spec_is_ui_uri((#[trigger] us[i]).uri@),
    decreases rs.len(),
{
    if rs.len() > 0 {
        if spec_is_ui_uri(rs[0].uri@) {
            lemma_ui_filter_all_ui(rs.drop_first(), us.drop_first());
            assert forall|i: int| 0 <= i < us.len() implies spec_is_ui_uri(
                (#[trigger] us[i]).uri@,
            ) by {
                if i > 0 {
                    assert(us.drop_first()[i - 1] == us[i]);
                }
            }
        } else {
            lemma_ui_filter_all_ui(rs.drop_first(), us);
        }
    }
}

/// When every resource uses the `ui://` scheme, the filtered view has one
/// entry per resource, converted in place.
pub proof fn lemma_ui_filter_full(rs: Seq<Resource>, us: Seq<UiResource>)
    requires
        spec_ui_filter(rs, us),
        forall|i: int| 0 <= i < rs.len() ==> spec_is_ui_uri((#[trigger] rs[i]).uri@),
    ensures
        us.len() == rs.len(),
        forall|i: int| 0 <= i < rs.len() ==> spec_converted(rs[i], #[trigger] us[i]),
    decreases rs.len(),
{
    if rs.len() > 0 {
        assert(spec_is_ui_uri(rs[0].uri@));
        assert forall|i: int|
            0 <= i < rs.drop_first().len() implies spec_is_ui_uri(
            (#[trigger] rs.drop_first()[i]).uri@,
        ) by {
            assert(rs.drop_first()[i] == rs[i + 1]);
        }
        lemma_ui_filter_full(rs.drop_first(), us.drop_first());
        assert forall|i: int|
            0 <= i < rs.len() implies spec_converted(rs[i], #[trigger] us[i]) by {
            if i > 0 {
                assert(rs.drop_first()[i - 1] == rs[i]);
                assert(us.drop_first()[i - 1] == us[i]);
                assert(spec_converted(rs.drop_first()[i - 1], us.drop_first()[i - 1]));
            }
        }
    }
}

/// The UI resource a tool's metadata points at, when it points at one:
/// `ui.resourceUri`, or the flat `ui/resourceUri` member kept for older
/// declarations.
pub open spec fn spec_tool_ui_link(t: Tool) -> Option<Seq<char>> {
    match t.meta {
        Some(m) => match spec_get(m, "ui"@) {
            Some(u) => match spec_get(u, "resourceUri"@) {
                Some(JsonValue::Str(s)) => Some(s@),
                _ => spec_deprecated_link(m),
            },
            _ => spec_deprecated_link(m),
        },
        None => None,
    }
}

/// The deprecated flat `ui/resourceUri` metadata member.
pub open spec fn spec_deprecated_link(m: JsonValue) -> Option<Seq<char>> {
    match spec_get(m, "ui/resourceUri"@) {
        Some(JsonValue::Str(s)) => Some(s@),
        _ => None,
    }
}

/// The entry at `i` is the first of `c`'s UI-resource cache under `uri`.
pub open spec fn spec_first_cached(c: McpServerConnection, uri: Seq<char>, i: int) -> bool {
    &&& 0 <= i < c.ui_resources@.len()
    &&& c.ui_resources@[i].uri@ == uri
    &&& forall|j: int| 0 <= j < i ==> (#[trigger] c.ui_resources@[j]).uri@ != uri
}

/// A connection to one server.
pub struct McpServerConnection {
    /// Connection id
    pub id: String,
    /// Server name, from the server's identity block
    pub name: String,
    /// Server version, from the server's identity block
    pub version: String,
    /// The raw capability value the server sent
    pub server_capabilities: Option<JsonValue>,
    /// The parsed capability declaration
    pub parsed_capabilities: Option<ServerCapabilities>,
    /// The negotiated capability set, computed once per negotiation
    pub negotiated_capabilities: Option<NegotiatedCapabilities>,
    /// Whether the server declares the apps extension
    pub supports_ui_extension: bool,
    /// Lifecycle state
    pub state: ConnectionState,
    /// Discovered tools
    pub tools: Vec<Tool>,
    /// Discovered resources
    pub resources: Vec<Resource>,
    /// The `ui://` entries of `resources`, converted
    pub ui_resources: Vec<UiResource>,
}

impl McpServerConnection {
    /// The UI-resource cache is always the filtered view of the resource
    /// cache.
    pub open spec fn wf(&self) -> bool {
        spec_ui_filter(self.resources@, self.ui_resources@)
    }

    /// A fresh connection in `Connecting` state with empty caches.
    pub fn new(id: &str) -> (r: McpServerConnection)
        ensures
            r.id@ == id@,
            r.name@ == Seq::<char>::empty(),
            r.version@ == Seq::<char>::empty(),
            r.server_capabilities is None,
            r.parsed_capabilities is None,
            r.negotiated_capabilities is None,
            !r.supports_ui_extension,
            r.state is Connecting,
            r.tools@.len() == 0,
            r.resources@.len() == 0,
            r.ui_resources@.len() == 0,
            r.wf(),
    {
        McpServerConnection {
            id: String::from_str(id),
            name: String::new(),
            version: String::new(),
            server_capabilities: None,
            parsed_capabilities: None,
            negotiated_capabilities: None,
            supports_ui_extension: false,
            state: ConnectionState::Connecting,
            tools: Vec::new(),
            resources: Vec::new(),
            ui_resources: Vec::new(),
        }
    }

    /// Whether calls are accepted: exactly in `Ready` state.
    pub fn is_ready(&self) -> (r: bool)
        ensures
            r == (self.state is Ready),
    {
        matches!(self.state, ConnectionState::Ready)
    }

    /// Replace the lifecycle state.
    pub fn set_state(&mut self, state: ConnectionState)
        ensures
            final(self).state == state,
            final(self).id == old(self).id,
            final(self).name == old(self).name,
            final(self).version == old(self).version,
            final(self).server_capabilities == old(self).server_capabilities,
            final(self).parsed_capabilities == old(self).parsed_capabilities,
            final(self).negotiated_capabilities == old(self).negotiated_capabilities,
            final(self).supports_ui_extension == old(self).supports_ui_extension,
            final(self).tools == old(self).tools,
            final(self).resources == old(self).resources,
            final(self).ui_resources == old(self).ui_resources,
    {
        self.state = state;
    }

    /// Read the server's `initialize` result: its identity, its raw
    /// capability value, the parsed declaration, and whether it declares
    /// the apps extension.  A missing identity reads as `unknown`; a
    /// missing capability block reads as `null` and parses to an empty
    /// declaration.
    pub fn set_capabilities(&mut self, response: &JsonValue)
        ensures
            final(self).name@ == spec_server_name(*response),
            final(self).version@ == spec_server_version(*response),
            final(self).server_capabilities matches Some(c) && (match spec_get(
                *response,
                "capabilities"@,
            ) {
                Some(x) => json_eq(x, c),
                None => c is Null,
            }),
            final(self).parsed_capabilities matches Some(p) && {
                &&& spec_supports_ui_apps(p) == (match spec_get(*response, "capabilities"@) {
                    Some(x) => spec_has_ui_block(x),
                    None => false,
                })
                &&& p.tools == (match spec_get(*response, "capabilities"@) {
                    Some(x) => match crate::capabilities::spec_cap_block(x, "tools"@) {
                        None => None::<crate::capabilities::ToolsServerCapability>,
                        Some(lc) => Some(
                            crate::capabilities::ToolsServerCapability { list_changed: lc },
                        ),
                    },
                    None => None::<crate::capabilities::ToolsServerCapability>,
                })
                &&& p.resources == (match spec_get(*response, "capabilities"@) {
                    Some(x) => match crate::capabilities::spec_cap_block(x, "resources"@) {
                        None => None::<crate::capabilities::ResourcesServerCapability>,
                        Some(lc) => Some(
                            crate::capabilities::ResourcesServerCapability { list_changed: lc },
                        ),
                    },
                    None => None::<crate::capabilities::ResourcesServerCapability>,
                })
            },
            final(self).supports_ui_extension == (match spec_get(*response, "capabilities"@) {
                Some(x) => spec_has_ui_block(x),
                None => false,
            }),
            final(self).id == old(self).id,
            final(self).state == old(self).state,
            final(self).negotiated_capabilities == old(self).negotiated_capabilities,
            final(self).tools == old(self).tools,
            final(self).resources == old(self).resources,
            final(self).ui_resources == old(self).ui_resources,
    {
        let info = match response.get("serverInfo") {
            Some(si) => {
                let name = match si.get("name") {
                    Some(x) => match x.as_str() {
                        Some(s) => s.clone(),
                        None => String::from_str("unknown"),
                    },
                    None => String::from_str("unknown"),
                };
                let version = match si.get("version") {
                    Some(x) => match x.as_str() {
                        Some(s) => s.clone(),
                        None => String::from_str("unknown"),
                    },
                    None => String::from_str("unknown"),
                };
                ServerInfo { name, version }
            },
            None => ServerInfo {
                name: String::from_str("unknown"),
                version: String::from_str("unknown"),
            },
        };
        let (raw, parsed, supports) = match response.get("capabilities") {
            Some(x) => {
                let parsed = ServerCapabilities::from_value(x);
                let supports = parsed.supports_ui_apps();
                (x.deep_clone(), parsed, supports)
            },
            None => {
                let parsed = ServerCapabilities::default();
                let supports = false;
                (JsonValue::Null, parsed, supports)
            },
        };
        self.server_capabilities = Some(raw);
        self.parsed_capabilities = Some(parsed);
        self.supports_ui_extension = supports;
        self.name = info.name;
        self.version = info.version;
    }

    /// Negotiate with the host's declaration; without a parsed server
    /// declaration nothing changes.
    pub fn negotiate_capabilities(
        &mut self,
        host_caps: &UiHostCapabilities,
        app_caps: Option<&McpUiAppCapabilities>,
    )
        ensures
            match old(self).parsed_capabilities {
                Some(p) => final(self).negotiated_capabilities matches Some(n) && {
                    &&& n.protocol_version@ == "2026-01-26"@
                    &&& n.supports_ui_apps == spec_supports_ui_apps(p)
                    &&& n.display_modes@ == spec_negotiated_modes(
                        match app_caps {
                            Some(a) => Some(*a),
                            None => None,
                        },
                    )
                    &&& n.tool_notifications == (spec_host_tool_notifications(*host_caps)
                        && spec_server_tool_notifications(p))
                    &&& n.resource_notifications == (spec_host_resource_notifications(*host_caps)
                        && spec_server_resource_notifications(p))
                    &&& n.permissions == spec_host_permissions(*host_caps)
                },
                None => final(self).negotiated_capabilities == old(self).negotiated_capabilities,
            },
            final(self).id == old(self).id,
            final(self).name == old(self).name,
            final(self).version == old(self).version,
            final(self).server_capabilities == old(self).server_capabilities,
            final(self).parsed_capabilities == old(self).parsed_capabilities,
            final(self).supports_ui_extension == old(self).supports_ui_extension,
            final(self).state == old(self).state,
            final(self).tools == old(self).tools,
            final(self).resources == old(self).resources,
            final(self).ui_resources == old(self).ui_resources,
    {
        match &self.parsed_capabilities {
            Some(server_caps) => {
                let negotiated = negotiate_capabilities(host_caps, server_caps, app_caps);
                self.negotiated_capabilities = Some(negotiated);
            },
            None => {},
        }
    }

    /// The negotiated capability set, once negotiation has run.
    pub fn get_negotiated_capabilities(&self) -> (r: Option<&NegotiatedCapabilities>)
        ensures
            match r {
                Some(n) => self.negotiated_capabilities == Some(*n),
                None => self.negotiated_capabilities is None,
            },
    {
        self.negotiated_capabilities.as_ref()
    }

    /// Whether the negotiated set includes `mode`; before negotiation no
    /// mode is supported.
    pub fn supports_display_mode(&self, mode: DisplayMode) -> (r: bool)
        ensures
            r == match self.negotiated_capabilities {
                Some(n) => n.display_modes@.contains(mode),
                None => false,
            },
    {
        match &self.negotiated_capabilities {
            Some(n) => crate::capabilities::modes_contain(&n.display_modes, mode),
            None => false,
        }
    }

    /// Replace the tools cache.
    pub fn update_tools(&mut self, tools: Vec<Tool>)
        ensures
            final(self).tools == tools,
            final(self).id == old(self).id,
            final(self).name == old(self).name,
            final(self).version == old(self).version,
            final(self).server_capabilities == old(self).server_capabilities,
            final(self).parsed_capabilities == old(self).parsed_capabilities,
            final(self).negotiated_capabilities == old(self).negotiated_capabilities,
            final(self).supports_ui_extension == old(self).supports_ui_extension,
            final(self).state == old(self).state,
            final(self).resources == old(self).resources,
            final(self).ui_resources == old(self).ui_resources,
    {
        self.tools = tools;
    }

    /// Replace the resource cache and recompute the UI-resource view: the
    /// `ui://` entries, in order, converted.
    pub fn update_resources(&mut self, resources: Vec<Resource>)
        ensures
            final(self).resources == resources,
            spec_ui_filter(resources@, final(self).ui_resources@),
            final(self).wf(),
            final(self).id == old(self).id,
            final(self).name == old(self).name,
            final(self).version == old(self).version,
            final(self).server_capabilities == old(self).server_capabilities,
            final(self).parsed_capabilities == old(self).parsed_capabilities,
            final(self).negotiated_capabilities == old(self).negotiated_capabilities,
            final(self).supports_ui_extension == old(self).supports_ui_extension,
            final(self).state == old(self).state,
            final(self).tools == old(self).tools,
    {
        let n = resources.len();
        let mut ui: Vec<UiResource> = Vec::new();
        let mut i: usize = 0;
        proof {
            assert(resources@.take(0) =~= Seq::<Resource>::empty());
        }
        while i < n
            invariant
                0 <= i <= n,
                n == resources@.len(),
                spec_ui_filter(resources@.take(i as int), ui@),
            decreases n - i,
        {
            let ghost prev_ui = ui@;
            if UiResource::is_valid_uri(resources[i].uri.as_str()) {
                match convert_to_ui_resource(&resources[i]) {
                    Ok(u) => {
                        ui.push(u);
                        proof {
                            assert(spec_ui_filter(
                                seq![resources@[i as int]],
                                seq![ui@[ui@.len() - 1]],
                            )) by {
                                reveal_with_fuel(spec_ui_filter, 3);
                                assert(seq![resources@[i as int]][0] == resources@[i as int]);
                                assert(seq![ui@[ui@.len() - 1]][0] == ui@[ui@.len() - 1]);
                                assert(seq![resources@[i as int]].drop_first()
                                    =~= Seq::<Resource>::empty());
                                assert(seq![ui@[ui@.len() - 1]].drop_first()
                                    =~= Seq::<UiResource>::empty());
                            }
                            lemma_ui_filter_concat(
                                resources@.take(i as int),
                                prev_ui,
                                seq![resources@[i as int]],
                                seq![ui@[ui@.len() - 1]],
                            );
                            assert(resources@.take(i as int) + seq![resources@[i as int]]
                                =~= resources@.take(i + 1));
                            assert(prev_ui + seq![ui@[ui@.len() - 1]] =~= ui@);
                        }
                    },
                    Err(_) => {
                        proof {
                            assert(false);
                        }
                    },
                }
            } else {
                proof {
                    assert(spec_ui_filter(seq![resources@[i as int]], Seq::<UiResource>::empty()))
                        by {
                        reveal_with_fuel(spec_ui_filter, 3);
                        assert(seq![resources@[i as int]][0] == resources@[i as int]);
                        assert(seq![resources@[i as int]].drop_first()
                            =~= Seq::<Resource>::empty());
                    }
                    lemma_ui_filter_concat(
                        resources@.take(i as int),
                        prev_ui,
                        seq![resources@[i as int]],
                        Seq::<UiResource>::empty(),
                    );
                    assert(resources@.take(i as int) + seq![resources@[i as int]]
                        =~= resources@.take(i + 1));
                    assert(prev_ui + Seq::<UiResource>::empty() =~= ui@);
                }
            }
            i = i + 1;
        }
        proof {
            assert(resources@.take(n as int) =~= resources@);
        }
        self.resources = resources;
        self.ui_resources = ui;
    }

    /// The tools cache.
    pub fn get_tools(&self) -> (r: &Vec<Tool>)
        ensures
            r == self.tools,
    {
        &self.tools
    }

    /// The UI-resource cache.
    pub fn get_ui_resources(&self) -> (r: &Vec<UiResource>)
        ensures
            r == self.ui_resources,
    {
        &self.ui_resources
    }

    /// The first cached UI resource under `uri`, if the cache holds one.
    pub fn find_ui_resource(&self, uri: &str) -> (r: Option<&UiResource>)
        ensures
            match r {
                Some(u) => exists|i: int|
                    0 <= i < self.ui_resources@.len() && self.ui_resources@[i] == *u && u.uri@
                        == uri@ && (forall|j: int|
                        0 <= j < i ==> (#[trigger] self.ui_resources@[j]).uri@ != uri@),
                None => forall|i: int|
                    0 <= i < self.ui_resources@.len() ==> (#[trigger] self.ui_resources@[i]).uri@
                        != uri@,
            },
    {
        let n = self.ui_resources.len();
        let mut i: usize = 0;
        while i < n
            invariant
                0 <= i <= n,
                n == self.ui_resources@.len(),
                forall|j: int|
                    0 <= j < i ==> (#[trigger] self.ui_resources@[j]).uri@ != uri@,
            decreases n - i,
        {
            if crate::strutil::str_eq(self.ui_resources[i].uri.as_str(), uri) {
                proof {
                    assert(self.ui_resources@[i as int].uri@ == uri@);
                }
                return Some(&self.ui_resources[i]);
            }
            i = i + 1;
        }
        None
    }

    /// The first cached tool named `name`, if the cache holds one.
    pub fn find_tool(&self, name: &str) -> (r: Option<&Tool>)
        ensures
            match r {
                Some(t) => exists|i: int|
                    0 <= i < self.tools@.len() && self.tools@[i] == *t && t.name@ == name@ && (
                    forall|j: int| 0 <= j < i ==> (#[trigger] self.tools@[j]).name@ != name@),
                None => forall|i: int|
                    0 <= i < self.tools@.len() ==> (#[trigger] self.tools@[i]).name@ != name@,
            },
    {
        let n = self.tools.len();
        let mut i: usize = 0;
        while i < n
            invariant
                0 <= i <= n,
                n == self.tools@.len(),
                forall|j: int| 0 <= j < i ==> (#[trigger] self.tools@[j]).name@ != name@,
            decreases n - i,
        {
            if crate::strutil::str_eq(self.tools[i].name.as_str(), name) {
                proof {
                    assert(self.tools@[i as int].name@ == name@);
                }
                return Some(&self.tools[i]);
            }
            i = i + 1;
        }
        None
    }

    /// The tools whose metadata links them to a UI resource: each cache
    /// index together with the linked URI, in strictly increasing cache
    /// order, covering exactly the linked tools.
    pub fn get_tools_with_ui(&self) -> (r: Vec<(usize, String)>)
        ensures
            forall|k: int|
                0 <= k < r@.len() ==> {
                    let (i, uri) = #[trigger] r@[k];
                    &&& 0 <= i < self.tools@.len()
                    &&& spec_tool_ui_link(self.tools@[i as int]) == Some(uri@)
                },
            forall|k1: int, k2: int|
                0 <= k1 < k2 < r@.len() ==> (#[trigger] r@[k1]).0 < (#[trigger] r@[k2]).0,
            forall|i: int|
                0 <= i < self.tools@.len() && (#[trigger] spec_tool_ui_link(self.tools@[i]))
                    is Some ==> exists|k: int| 0 <= k < r@.len() && (#[trigger] r@[k]).0 == i,
    {
        let n = self.tools.len();
        let mut out: Vec<(usize, String)> = Vec::new();
        let mut i: usize = 0;
        while i < n
            invariant
                0 <= i <= n,
                n == self.tools@.len(),
                forall|k: int|
                    0 <= k < out@.len() ==> {
                        let (j, uri) = #[trigger] out@[k];
                        &&& 0 <= j < self.tools@.len()
                        &&& spec_tool_ui_link(self.tools@[j as int]) == Some(uri@)
                    },
                forall|k: int| 0 <= k < out@.len() ==> (#[trigger] out@[k]).0 < i,
                forall|k1: int, k2: int|
                    0 <= k1 < k2 < out@.len() ==> (#[trigger] out@[k1]).0 < (
                    #[trigger] out@[k2]).0,
                forall|j: int|
                    0 <= j < i && (#[trigger] spec_tool_ui_link(self.tools@[j])) is Some ==> exists|
                        k: int,
                    | 0 <= k < out@.len() && (#[trigger] out@[k]).0 == j,
            decreases n - i,
        {
            let ghost prev = out@;
            match tool_ui_link(&self.tools[i]) {
                Some(uri) => {
                    out.push((i, uri));
                    proof {
                        assert forall|j: int|
                            0 <= j < i + 1 && (#[trigger] spec_tool_ui_link(self.tools@[j]))
                                is Some implies exists|k: int|
                            0 <= k < out@.len() && (#[trigger] out@[k]).0 == j by {
                            if j == i as int {
                                assert((out@[out@.len() - 1]).0 == j);
                            } else {
                                let k = choose|k: int|
                                    0 <= k < prev.len() && (#[trigger] prev[k]).0 == j;
                                assert((out@[k]).0 == j);
                            }
                        }
                    }
                },
                None => {},
            }
            i = i + 1;
        }
        out
    }
}

/// The UI resource a tool's metadata points at, read from the metadata
/// value.
fn tool_ui_link(t: &Tool) -> (r: Option<String>)
    ensures
        match r {
            Some(uri) => spec_tool_ui_link(*t) == Some(uri@),
            None => spec_tool_ui_link(*t) is None,
        },
{
    let m = match &t.meta {
        Some(m) => m,
        None => {
            return None;
        },
    };
    match m.get("ui") {
        Some(u) => match u.get("resourceUri") {
            Some(x) => match x.as_str() {
                Some(s) => Some(s.clone()),
                None => deprecated_link(m),
            },
            None => deprecated_link(m),
        },
        None => deprecated_link(m),
    }
}

/// The deprecated flat `ui/resourceUri` member.
fn deprecated_link(m: &JsonValue) -> (r: Option<String>)
    ensures
        match r {
            Some(uri) => spec_deprecated_link(*m) == Some(uri@),
            None => spec_deprecated_link(*m) is None,
        },
{
    match m.get("ui/resourceUri") {
        Some(x) => match x.as_str() {
            Some(s) => Some(s.clone()),
            None => None,
        },
        None => None,
    }
}

/// The server name in an `initialize` result, with `unknown` standing in.
pub open spec fn spec_server_name(response: JsonValue) -> Seq<char> {
    match spec_get(response, "serverInfo"@) {
        Some(si) => crate::server::spec_str_arg_or(si, "name"@, "unknown"@),
        None => "unknown"@,
    }
}

/// The server version in an `initialize` result, with `unknown` standing
/// in.
pub open spec fn spec_server_version(response: JsonValue) -> Seq<char> {
    match spec_get(response, "serverInfo"@) {
        Some(si) => crate::server::spec_str_arg_or(si, "version"@, "unknown"@),
        None => "unknown"@,
    }
}

/// Convert a `ui://` resource declaration into a cache entry; rejects any
/// other URI.
fn convert_to_ui_resource(resource: &Resource) -> (r: Result<UiResource, String>)
    ensures
        spec_is_ui_uri(resource.uri@) ==> (r matches Ok(u) && spec_converted(*resource, u)),
        !spec_is_ui_uri(resource.uri@) ==> r is Err,
{
    if !UiResource::is_valid_uri(resource.uri.as_str()) {
        return Err(String::from_str("Not a UI resource URI"));
    }
    let mime_type = match &resource.mime_type {
        Some(m) => m.clone(),
        None => String::from_str("text/html;profile=mcp-app"),
    };
    let meta = match &resource.meta {
        Some(m) => UiResourceMeta::from_value(m),
        None => None,
    };
    let description = match &resource.description {
        Some(d) => Some(d.clone()),
        None => None,
    };
    Ok(
        UiResource {
            uri: resource.uri.clone(),
            name: resource.name.clone(),
            description,
            mime_type,
            _meta: meta,
        },
    )
}

/// Manager-level events about connections.
pub enum ConnectionEvent {
    /// A connection's lifecycle state changed.
    StateChanged { connection_id: String, state: ConnectionState },
    /// A connection's tools cache was replaced.
    ToolsUpdated { connection_id: String },
    /// A connection's resource caches were replaced.
    ResourcesUpdated { connection_id: String },
    /// The server pushed a notification.
    Notification { connection_id: String, method: String, params: Option<JsonValue> },
    /// Something failed on this connection.
    Error { connection_id: String, error: String },
    /// The connection closed.
    Closed { connection_id: String },
}

} // verus!
