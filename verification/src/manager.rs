//! The connection manager.
//!
//! One manager orchestrates every server connection: it runs the
//! handshake, performs discovery, keeps the connection table, routes tool
//! calls and resource reads, and decides what the background notification
//! reader does with each message it pulls off a transport.

use vstd::prelude::*;

use crate::connection::{
    lemma_ui_filter_full, spec_first_cached, ConnectionEvent, ConnectionState,
    McpServerConnection,
};
use crate::host::HostState;
use crate::json::{json_eq, spec_get, JsonValue};
use crate::jsonrpc::{
    lemma_encoded_request_members, notification_to_value, request_to_value, JsonRpcNotification,
    JsonRpcRequest,
};
use crate::model::{
    parse_list_resources, parse_list_tools, CallToolResult, Content,
};
use crate::resources::{UiResource, UiResourceContent};
use crate::server::{
    spec_demo_payload, spec_embedded_resources_value, spec_embedded_tools_value,
    spec_init_result_ok, spec_note_result, spec_weather_result, EmbeddedServer,
};
use crate::strutil::{str_eq, str_starts_with, seq_starts_with};
use crate::transport::{MemoryTransportPair, PairEnd};

verus! {

/// Connection-level failures.
#[derive(Clone, Debug)]
pub enum ConnectionError {
    /// The transport failed; carries its words.
    Transport(String),
    /// The server rejected or garbled the handshake.
    Initialize(String),
    /// No connection under this id.
    NotFound(String),
    /// The connection exists but is not `Ready`.
    NotReady(String),
    /// The connection's UI-resource cache has no entry for this URI.
    ResourceNotFound(String),
    /// The server knows no such tool.
    ToolNotFound(String),
}

impl ConnectionError {
    /// A short description of this failure.
    pub fn describe(&self) -> (r: String)
        ensures
            match self {
                ConnectionError::Transport(e) => r@ == "Transport error: "@ + e@,
                ConnectionError::Initialize(e) => r@ == "Initialize error: "@ + e@,
                ConnectionError::NotFound(id) => r@ == "Connection not found: "@ + id@,
                ConnectionError::NotReady(id) => r@ == "Connection not ready: "@ + id@,
                ConnectionError::ResourceNotFound(u) => r@ == "Resource not found: "@ + u@,
                ConnectionError::ToolNotFound(n) => r@ == "Tool not found: "@ + n@,
            },
    {
        let (prefix, rest): (&str, &String) = match self {
            ConnectionError::Transport(e) => ("Transport error: ", e),
            ConnectionError::Initialize(e) => ("Initialize error: ", e),
            ConnectionError::NotFound(id) => ("Connection not found: ", id),
            ConnectionError::NotReady(id) => ("Connection not ready: ", id),
            ConnectionError::ResourceNotFound(u) => ("Resource not found: ", u),
            ConnectionError::ToolNotFound(n) => ("Tool not found: ", n),
        };
        let mut s = String::from_str(prefix);
        s.append(rest.as_str());
        s
    }
}

/// The first connection under `id` in the table, if any.
pub open spec fn conn_lookup(cs: Seq<(String, McpServerConnection)>, id: Seq<char>) -> Option<
    McpServerConnection,
>
    decreases cs.len(),
{
    if cs.len() == 0 {
        None
    } else if cs[0].0@ == id {
        Some(cs[0].1)
    } else {
        conn_lookup(cs.drop_first(), id)
    }
}

/// A lookup passes over a prefix whose keys all differ from `id`.
pub proof fn lemma_conn_lookup_skip(cs: Seq<(String, McpServerConnection)>, id: Seq<char>, i: int)
    requires
        0 <= i <= cs.len(),
        forall|j: int| 0 <= j < i ==> (#[trigger] cs[j]).0@ != id,
    ensures
        conn_lookup(cs, id) == conn_lookup(cs.skip(i), id),
    decreases i,
{
    if i > 0 {
        lemma_conn_lookup_skip(cs, id, i - 1);
        let t = cs.skip(i - 1);
        assert(t[0] == cs[i - 1]);
        assert(t.drop_first() =~= cs.skip(i));
    } else {
        assert(cs.skip(0) =~= cs);
    }
}

/// A lookup finds the entry at `i` when every earlier key differs.
pub proof fn lemma_conn_lookup_at(cs: Seq<(String, McpServerConnection)>, id: Seq<char>, i: int)
    requires
        0 <= i < cs.len(),
        cs[i].0@ == id,
        forall|j: int| 0 <= j < i ==> (#[trigger] cs[j]).0@ != id,
    ensures
        conn_lookup(cs, id) == Some(cs[i].1),
{
    lemma_conn_lookup_skip(cs, id, i);
    assert(cs.skip(i)[0] == cs[i]);
}

/// A lookup finds nothing when no key reads `id`.
pub proof fn lemma_conn_lookup_absent(cs: Seq<(String, McpServerConnection)>, id: Seq<char>)
    requires
        forall|j: int| 0 <= j < cs.len() ==> (#[trigger] cs[j]).0@ != id,
    ensures
        conn_lookup(cs, id) is None,
{
    lemma_conn_lookup_skip(cs, id, cs.len() as int);
    assert(cs.skip(cs.len() as int) =~= Seq::<(String, McpServerConnection)>::empty());
}

/// Manages the table of server connections.
pub struct ConnectionManager {
    /// Active connections, keyed by connection id.
    pub connections: Vec<(String, McpServerConnection)>,
    /// The host's own configuration.
    pub host_state: HostState,
}

impl ConnectionManager {
    /// The connection table.
    pub open spec fn spec_connections(&self) -> Seq<(String, McpServerConnection)> {
        self.connections@
    }

    /// Table well-formedness: connection ids are unique, and every
    /// connection's UI-resource cache is the filtered view of its resource
    /// cache.
    pub open spec fn wf(&self) -> bool {
        &&& forall|i: int, j: int|
            0 <= i < j < self.spec_connections().len() ==> (#[trigger] self.spec_connections()[i]).0@
                != (#[trigger] self.spec_connections()[j]).0@
        &&& forall|i: int|
            0 <= i < self.spec_connections().len() ==> (#[trigger] self.spec_connections()[i]).1.wf()
    }

    /// A fresh manager with an empty table.
    pub fn new(host_state: HostState) -> (r: ConnectionManager)
        ensures
            r.spec_connections().len() == 0,
            r.host_state == host_state,
            r.wf(),
    {
        ConnectionManager { connections: Vec::new(), host_state }
    }

    /// The index of the connection under `id`, if the table holds one.
    fn find_index(&self, id: &str) -> (r: Option<usize>)
        ensures
            match r {
                Some(i) => 0 <= i < self.spec_connections().len()
                    && (self.spec_connections()[i as int].0@ == id@)
                    && conn_lookup(self.spec_connections(), id@) == Some(
                    self.spec_connections()[i as int].1,
                ),
                None => conn_lookup(self.spec_connections(), id@) is None,
            },
    {
        let n = self.connections.len();
        let mut i: usize = 0;
        while i < n
            invariant
                0 <= i <= n,
                n == self.spec_connections().len(),
                forall|j: int| 0 <= j < i ==> (#[trigger] self.spec_connections()[j]).0@ != id@,
            decreases n - i,
        {
            if str_eq(self.connections[i].0.as_str(), id) {
                proof {
                    lemma_conn_lookup_at(self.spec_connections(), id@, i as int);
                }
                return Some(i);
            }
            i = i + 1;
        }
        proof {
            lemma_conn_lookup_absent(self.spec_connections(), id@);
        }
        None
    }

    /// The connection under `id`, if the table holds one.
    pub fn get_connection(&self, id: &str) -> (r: Option<&McpServerConnection>)
        ensures
            match r {
                Some(c) => conn_lookup(self.spec_connections(), id@) == Some(*c),
                None => conn_lookup(self.spec_connections(), id@) is None,
            },
    {
        match self.find_index(id) {
            Some(i) => Some(&self.connections[i].1),
            None => None,
        }
    }

    /// Every connection in the table, with its id.
    pub fn get_all_connections(&self) -> (r: &Vec<(String, McpServerConnection)>)
        ensures
            r@ == self.spec_connections(),
    {
        &self.connections
    }

    /// Remove the connection under `connection_id` after marking it
    /// disconnected.  An absent id fails with `NotFound`; after a
    /// successful disconnect a lookup of that id finds nothing, and every
    /// other connection is untouched.
    pub fn disconnect(&mut self, connection_id: &str) -> (r: Result<(), ConnectionError>)
        requires
            old(self).wf(),
        ensures
            final(self).wf(),
            final(self).host_state == old(self).host_state,
            match conn_lookup(old(self).spec_connections(), connection_id@) {
                Some(_) => {
                    &&& r is Ok
                    &&& conn_lookup(final(self).spec_connections(), connection_id@) is None
                    &&& final(self).spec_connections().len() == old(
                        self,
                    ).spec_connections().len() - 1
                },
                None => {
                    &&& r matches Err(e) && e matches ConnectionError::NotFound(m) && m@
                        == connection_id@
                    &&& final(self).spec_connections() == old(self).spec_connections()
                },
            },
            forall|id2: Seq<char>|
                id2 != connection_id@ ==> #[trigger] conn_lookup(
                    final(self).spec_connections(),
                    id2,
                ) == conn_lookup(old(self).spec_connections(), id2),
    {
        match self.find_index(connection_id) {
            Some(i) => {
                let ghost before = self.connections@;
                let c = &mut self.connections[i].1;
                c.set_state(ConnectionState::Disconnected);
                let ghost marked = self.connections@;
                let _ = self.connections.remove(i);
                proof {
                    assert(marked =~= before.update(i as int, marked[i as int]));
                    assert(marked[i as int].0 == before[i as int].0);
                    lemma_conn_remove_lookup(marked, i as int, connection_id@);
                    assert forall|id2: Seq<char>|
                        id2 != connection_id@ implies #[trigger] conn_lookup(
                        self.connections@,
                        id2,
                    ) == conn_lookup(before, id2) by {
                        lemma_conn_remove_other(marked, i as int, id2);
                        lemma_conn_lookup_same_keys(before, marked, id2);
                    }
                }
                Ok(())
            },
            None => Err(ConnectionError::NotFound(String::from_str(connection_id))),
        }
    }

    /// Decide what the background reader does with one observation from a
    /// connection's transport.
    ///
    /// End of stream marks the connection disconnected and reports it
    /// closed; a pushed `notifications/...` message is republished as a
    /// manager event; anything else is dropped.  Nothing but that one
    /// connection's state is touched.
    pub fn handle_server_message(
        &mut self,
        connection_id: &str,
        message: Option<&JsonValue>,
    ) -> (r: Option<ConnectionEvent>)
        requires
            old(self).wf(),
        ensures
            final(self).wf(),
            final(self).host_state == old(self).host_state,
            match message {
                None => {
                    &&& (r matches Some(e) && e matches ConnectionEvent::Closed {
                        connection_id: cid,
                    } && cid@ == connection_id@)
                    &&& match conn_lookup(old(self).spec_connections(), connection_id@) {
                        Some(_) => conn_lookup(final(self).spec_connections(), connection_id@)
                            matches Some(c2) && c2.state is Disconnected,
                        None => final(self).spec_connections() == old(self).spec_connections(),
                    }
                },
                Some(v) => {
                    &&& final(self).spec_connections() == old(self).spec_connections()
                    &&& match spec_get(*v, "method"@) {
                        Some(JsonValue::Str(m)) => if seq_starts_with(m@, "notifications/"@) {
                            r matches Some(e) && (e matches ConnectionEvent::Notification {
                                connection_id: cid,
                                method,
                                params,
                            } && cid@ == connection_id@ && method@ == m@ && (match spec_get(
                                *v,
                                "params"@,
                            ) {
                                Some(p) => params matches Some(q) && json_eq(p, q),
                                None => params is None,
                            }))
                        } else {
                            r is None
                        },
                        _ => r is None,
                    }
                },
            },
            forall|id2: Seq<char>|
                id2 != connection_id@ ==> #[trigger] conn_lookup(
                    final(self).spec_connections(),
                    id2,
                ) == conn_lookup(old(self).spec_connections(), id2),
    {
        match message {
            None => {
                match self.find_index(connection_id) {
                    Some(i) => {
                        let ghost before = self.connections@;
                        let c = &mut self.connections[i].1;
                        c.set_state(ConnectionState::Disconnected);
                        proof {
                            let after = self.connections@;
                            assert(after =~= before.update(i as int, after[i as int]));
                            assert(after[i as int].0 == before[i as int].0);
                            assert(after[i as int].1.wf());
                            lemma_conn_lookup_at(after, connection_id@, i as int);
                            assert forall|id2: Seq<char>|
                                id2 != connection_id@ implies #[trigger] conn_lookup(
                                after,
                                id2,
                            ) == conn_lookup(before, id2) by {
                                lemma_conn_lookup_same_keys(before, after, id2);
                            }
                        }
                    },
                    None => {},
                }
                Some(
                    ConnectionEvent::Closed { connection_id: String::from_str(connection_id) },
                )
            },
            Some(v) => {
                let m = match v.get("method") {
                    Some(x) => match x.as_str() {
                        Some(s) => s,
                        None => {
                            return None;
                        },
                    },
                    None => {
                        return None;
                    },
                };
                if str_starts_with(m.as_str(), "notifications/") {
                    let params = match v.get("params") {
                        Some(p) => Some(p.deep_clone()),
                        None => None,
                    };
                    Some(
                        ConnectionEvent::Notification {
                            connection_id: String::from_str(connection_id),
                            method: m.clone(),
                            params,
                        },
                    )
                } else {
                    None
                }
            },
        }
    }
}

/// After removing the entry at `i`, a lookup of its key over a table with
/// unique keys finds nothing.
proof fn lemma_conn_remove_lookup(cs: Seq<(String, McpServerConnection)>, i: int, id: Seq<char>)
    requires
        0 <= i < cs.len(),
        cs[i].0@ == id,
        forall|a: int, b: int|
            0 <= a < b < cs.len() ==> (#[trigger] cs[a]).0@ != (#[trigger] cs[b]).0@,
    ensures
        conn_lookup(cs.remove(i), id) is None,
{
    let t = cs.remove(i);
    assert forall|j: int| 0 <= j < t.len() implies (#[trigger] t[j]).0@ != id by {
        if j < i {
            assert(t[j] == cs[j]);
        } else {
            assert(t[j] == cs[j + 1]);
        }
    }
    lemma_conn_lookup_absent(t, id);
}

/// Removing the entry at `i` leaves the lookup of any other key
/// unchanged, when keys are unique.
proof fn lemma_conn_remove_other(cs: Seq<(String, McpServerConnection)>, i: int, id2: Seq<char>)
    requires
        0 <= i < cs.len(),
        cs[i].0@ != id2,
    ensures
        conn_lookup(cs.remove(i), id2) == conn_lookup(cs, id2),
    decreases i,
{
    if i == 0 {
        assert(cs.remove(0) =~= cs.drop_first());
    } else {
        let t = cs.remove(i);
        assert(t[0] == cs[0]);
        if cs[0].0@ == id2 {
        } else {
            assert(t.drop_first() =~= cs.drop_first().remove(i - 1));
            lemma_conn_remove_other(cs.drop_first(), i - 1, id2);
        }
    }
}

/// Two tables with the same keys and, entry for entry, values that agree
/// except possibly at keys other than `id2`, look `id2` up alike when
/// their entries only differ at positions whose key is not `id2`.
proof fn lemma_conn_lookup_same_keys(
    a: Seq<(String, McpServerConnection)>,
    b: Seq<(String, McpServerConnection)>,
    id2: Seq<char>,
)
    requires
        a.len() == b.len(),
        forall|j: int| 0 <= j < a.len() ==> (#[trigger] a[j]).0@ == (#[trigger] b[j]).0@,
        forall|j: int| 0 <= j < a.len() && (#[trigger] a[j]).0@ == id2 ==> a[j] == b[j],
    ensures
        conn_lookup(a, id2) == conn_lookup(b, id2),
    decreases a.len(),
{
    if a.len() > 0 {
        assert(a[0].0@ == b[0].0@);
        if a[0].0@ == id2 {
            assert(a[0] == b[0]);
        } else {
            assert forall|j: int|
                0 <= j < a.drop_first().len() implies (#[trigger] a.drop_first()[j]).0@ == (
            #[trigger] b.drop_first()[j]).0@ by {
                assert(a.drop_first()[j] == a[j + 1]);
                assert(b.drop_first()[j] == b[j + 1]);
            }
            assert forall|j: int|
                0 <= j < a.drop_first().len() && (#[trigger] a.drop_first()[j]).0@
                    == id2 implies a.drop_first()[j] == b.drop_first()[j] by {
                assert(a.drop_first()[j] == a[j + 1]);
                assert(b.drop_first()[j] == b[j + 1]);
            }
            lemma_conn_lookup_same_keys(a.drop_first(), b.drop_first(), id2);
        }
    }
}

/// A lookup in a table extended at the back: an id found before is found
/// unchanged, and a new id is found only in the new entry.
pub proof fn lemma_conn_lookup_push(
    cs: Seq<(String, McpServerConnection)>,
    p: (String, McpServerConnection),
    id: Seq<char>,
)
    ensures
        conn_lookup(cs.push(p), id) == (match conn_lookup(cs, id) {
            Some(c) => Some(c),
            None => if p.0@ == id {
                Some(p.1)
            } else {
                None
            },
        }),
    decreases cs.len(),
{
    if cs.len() == 0 {
        assert(conn_lookup(cs, id) is None);
        assert(cs.push(p)[0] == p);
        let t = cs.push(p).drop_first();
        assert(t =~= Seq::<(String, McpServerConnection)>::empty());
        assert(conn_lookup(t, id) is None);
    } else {
        assert(cs.push(p)[0] == cs[0]);
        if cs[0].0@ == id {
        } else {
            assert(cs.push(p).drop_first() =~= cs.drop_first().push(p));
            lemma_conn_lookup_push(cs.drop_first(), p, id);
        }
    }
}

/// Encode the host's capability declaration for the wire: each declared
/// block becomes a member, in declaration order, with absent blocks
/// omitted.
pub(crate) fn host_caps_to_value(h: &crate::capabilities::UiHostCapabilities) -> (r: JsonValue)
    ensures
        r matches JsonValue::Obj(fs) && {
            let e: int = if h.experimental is Some { 1 } else { 0 };
            let o: int = if h.open_links is Some { 1 } else { 0 };
            let t: int = if h.server_tools is Some { 1 } else { 0 };
            let sr: int = if h.server_resources is Some { 1 } else { 0 };
            let l: int = if h.logging is Some { 1 } else { 0 };
            let sb: int = if h.sandbox is Some { 1 } else { 0 };
            &&& fs@.len() == e + o + t + sr + l + sb
            &&& h.experimental matches Some(x) ==> (fs@[0].0@ == "experimental"@ && json_eq(
                x,
                fs@[0].1,
            ))
            &&& h.open_links is Some ==> (fs@[e].0@ == "openLinks"@ && fs@[e].1 is Obj)
            &&& h.server_tools matches Some(st) ==> (fs@[e + o].0@ == "serverTools"@ && (fs@[e
                + o].1 matches JsonValue::Obj(b) && (match st.list_changed {
                Some(f) => b@.len() == 1 && b@[0].0@ == "listChanged"@ && b@[0].1
                    == JsonValue::Bool(f),
                None => b@.len() == 0,
            })))
            &&& h.server_resources matches Some(st) ==> (fs@[e + o + t].0@ == "serverResources"@
                && (fs@[e + o + t].1 matches JsonValue::Obj(b) && (match st.list_changed {
                Some(f) => b@.len() == 1 && b@[0].0@ == "listChanged"@ && b@[0].1
                    == JsonValue::Bool(f),
                None => b@.len() == 0,
            })))
            &&& h.logging is Some ==> (fs@[e + o + t + sr].0@ == "logging"@ && fs@[e + o + t
                + sr].1 is Obj)
            &&& h.sandbox is Some ==> (fs@[e + o + t + sr + l].0@ == "sandbox"@ && fs@[e + o + t
                + sr + l].1 is Obj)
        },
{
    let mut fs: Vec<(String, JsonValue)> = Vec::new();
    match &h.experimental {
        Some(x) => fs.push((String::from_str("experimental"), x.deep_clone())),
        None => {},
    }
    if h.open_links.is_some() {
        fs.push((String::from_str("openLinks"), JsonValue::Obj(Vec::new())));
    }
    match &h.server_tools {
        Some(t) => {
            let mut b: Vec<(String, JsonValue)> = Vec::new();
            match t.list_changed {
                Some(f) => b.push((String::from_str("listChanged"), JsonValue::Bool(f))),
                None => {},
            }
            fs.push((String::from_str("serverTools"), JsonValue::Obj(b)));
        },
        None => {},
    }
    match &h.server_resources {
        Some(t) => {
            let mut b: Vec<(String, JsonValue)> = Vec::new();
            match t.list_changed {
                Some(f) => b.push((String::from_str("listChanged"), JsonValue::Bool(f))),
                None => {},
            }
            fs.push((String::from_str("serverResources"), JsonValue::Obj(b)));
        },
        None => {},
    }
    if h.logging.is_some() {
        fs.push((String::from_str("logging"), JsonValue::Obj(Vec::new())));
    }
    match &h.sandbox {
        Some(sb) => {
            let mut b: Vec<(String, JsonValue)> = Vec::new();
            match &sb.permissions {
                Some(p) => {
                    let mut pv: Vec<(String, JsonValue)> = Vec::new();
                    if p.camera.is_some() {
                        pv.push((String::from_str("camera"), JsonValue::Obj(Vec::new())));
                    }
                    if p.microphone.is_some() {
                        pv.push((String::from_str("microphone"), JsonValue::Obj(Vec::new())));
                    }
                    if p.geolocation.is_some() {
                        pv.push((String::from_str("geolocation"), JsonValue::Obj(Vec::new())));
                    }
                    if p.clipboard_write.is_some() {
                        pv.push((String::from_str("clipboardWrite"), JsonValue::Obj(Vec::new())));
                    }
                    b.push((String::from_str("permissions"), JsonValue::Obj(pv)));
                },
                None => {},
            }
            match &sb.csp {
                Some(c) => {
                    let mut cv: Vec<(String, JsonValue)> = Vec::new();
                    match &c.connect_domains {
                        Some(ds) => cv.push(
                            (String::from_str("connectDomains"), string_vec_to_value(ds)),
                        ),
                        None => {},
                    }
                    match &c.resource_domains {
                        Some(ds) => cv.push(
                            (String::from_str("resourceDomains"), string_vec_to_value(ds)),
                        ),
                        None => {},
                    }
                    match &c.frame_domains {
                        Some(ds) => cv.push(
                            (String::from_str("frameDomains"), string_vec_to_value(ds)),
                        ),
                        None => {},
                    }
                    match &c.base_uri_domains {
                        Some(ds) => cv.push(
                            (String::from_str("baseUriDomains"), string_vec_to_value(ds)),
                        ),
                        None => {},
                    }
                    b.push((String::from_str("csp"), JsonValue::Obj(cv)));
                },
                None => {},
            }
            fs.push((String::from_str("sandbox"), JsonValue::Obj(b)));
        },
        None => {},
    }
    JsonValue::Obj(fs)
}

/// Encode a list of strings as a JSON array, element for element.
fn string_vec_to_value(ss: &Vec<String>) -> (r: JsonValue)
    ensures
        r matches JsonValue::Arr(es) && es@.len() == ss@.len() && forall|i: int|
            0 <= i < ss@.len() ==> ((#[trigger] es@[i]) matches JsonValue::Str(t) && t@
                == ss@[i]@),
{
    let n = ss.len();
    let mut es: Vec<JsonValue> = Vec::new();
    let mut i: usize = 0;
    while i < n
        invariant
            0 <= i <= n,
            n == ss@.len(),
            es@.len() == i,
            forall|j: int|
                0 <= j < i ==> ((#[trigger] es@[j]) matches JsonValue::Str(t) && t@ == ss@[j]@),
        decreases n - i,
    {
        es.push(JsonValue::Str(ss[i].clone()));
        i = i + 1;
    }
    JsonValue::Arr(es)
}

impl ConnectionManager {
    /// The `initialize` request this host opens a handshake with: its
    /// protocol version, its capability declaration under the apps
    /// extension's experimental key, and its identity.
    pub fn build_initialize_request(&self) -> (r: JsonRpcRequest)
        ensures
            r.jsonrpc@ == "2.0"@,
            r.method@ == "initialize"@,
            r.id == Some(JsonValue::Int(1i64)),
            r.params is Some,
    {
        let caps = host_caps_to_value(&self.host_state.to_capabilities());
        let mut exp: Vec<(String, JsonValue)> = Vec::new();
        exp.push((String::from_str("io.modelcontextprotocol/ui"), caps));
        let mut capsobj: Vec<(String, JsonValue)> = Vec::new();
        capsobj.push((String::from_str("experimental"), JsonValue::Obj(exp)));
        let mut info: Vec<(String, JsonValue)> = Vec::new();
        info.push((String::from_str("name"), JsonValue::Str(self.host_state.name.clone())));
        info.push((String::from_str("version"), JsonValue::Str(self.host_state.version.clone())));
        let mut params: Vec<(String, JsonValue)> = Vec::new();
        params.push((
            String::from_str("protocolVersion"),
            JsonValue::Str(String::from_str("2026-01-26")),
        ));
        params.push((String::from_str("capabilities"), JsonValue::Obj(capsobj)));
        params.push((String::from_str("clientInfo"), JsonValue::Obj(info)));
        JsonRpcRequest::new("initialize", Some(JsonValue::Obj(params)))
    }

    /// The `tools/call` request that routes a live tool call over a
    /// connection's transport, as the intended external path sends it; the
    /// driver pairs it with `model::parse_call_tool_result` on the reply.
    pub fn build_call_tool_request(&self, tool_name: &str, arguments: &JsonValue) -> (r:
        JsonRpcRequest)
        ensures
            r.jsonrpc@ == "2.0"@,
            r.method@ == "tools/call"@,
            r.id == Some(JsonValue::Int(1i64)),
            r.params matches Some(JsonValue::Obj(fs)) && fs@.len() == 2 && (fs@[0].0@ == "name"@)
                && (fs@[0].1 matches JsonValue::Str(n) && n@ == tool_name@) && (fs@[1].0@
                == "arguments"@) && json_eq(*arguments, fs@[1].1),
    {
        let mut params: Vec<(String, JsonValue)> = Vec::new();
        params.push((String::from_str("name"), JsonValue::Str(String::from_str(tool_name))));
        params.push((String::from_str("arguments"), arguments.deep_clone()));
        JsonRpcRequest::new("tools/call", Some(JsonValue::Obj(params)))
    }

    /// Connect the embedded server over an in-memory pair.
    ///
    /// The handshake runs synchronously: `initialize`, then `tools/list`
    /// and `resources/list`, then `Ready` and the `initialized`
    /// notification — all before anything else reads the transport.  It
    /// always succeeds: the resulting connection is stored under the id
    /// `embedded`, is `Ready`, supports the apps extension, and its caches
    /// hold the server's five tools and four UI resources.  Any connection
    /// previously stored under that id is replaced; every other connection
    /// is untouched.
    pub fn connect_embedded(&mut self) -> (r: Result<String, ConnectionError>)
        requires
            old(self).wf(),
        ensures
            final(self).wf(),
            final(self).host_state == old(self).host_state,
            r matches Ok(id) && id@ == "embedded"@,
            conn_lookup(final(self).spec_connections(), "embedded"@) matches Some(c) && {
                &&& c.state is Ready
                &&& c.supports_ui_extension
                &&& c.name@ == "mcp-apps-embedded-server"@
                &&& c.tools@.len() == 5
                &&& c.tools@[0].name@ == "get_weather"@
                &&& c.tools@[1].name@ == "get_portfolio"@
                &&& c.tools@[2].name@ == "get_system_status"@
                &&& c.tools@[3].name@ == "create_note"@
                &&& c.tools@[4].name@ == "refresh_weather"@
                &&& c.resources@.len() == 4
                &&& c.ui_resources@.len() == 4
                &&& c.ui_resources@[0].uri@ == "ui://weather-server/dashboard"@
                &&& c.ui_resources@[1].uri@ == "ui://portfolio-server/gallery"@
                &&& c.ui_resources@[2].uri@ == "ui://system-server/status"@
                &&& c.ui_resources@[3].uri@ == "ui://notes-server/editor"@
            },
            forall|id2: Seq<char>|
                id2 != "embedded"@ ==> #[trigger] conn_lookup(final(self).spec_connections(), id2)
                    == conn_lookup(old(self).spec_connections(), id2),
    {
        proof {
            reveal_strlit("initialize");
            reveal_strlit("tools/list");
            reveal_strlit("resources/list");
            reveal_strlit("notifications/initialized");
            assert("initialize"@.len() == 10);
            assert("tools/list"@.len() == 10);
            assert("resources/list"@.len() == 14);
            assert("notifications/initialized"@.len() == 25);
            assert("initialize"@ != "tools/list"@) by {
                if "initialize"@ == "tools/list"@ {
                    assert("initialize"@[0] == "tools/list"@[0]);
                }
            }
        }
        let server = EmbeddedServer::new();
        let mut pair = MemoryTransportPair::create_pair();
        let mut conn = McpServerConnection::new("embedded");
        conn.set_state(ConnectionState::Initializing);

        // The initialize exchange.
        let init_req = self.build_initialize_request();
        let req_v = request_to_value(&init_req);
        proof {
            lemma_encoded_request_members(init_req, req_v);
        }
        match pair.send(PairEnd::Client, req_v) {
            Ok(_) => {},
            Err(_) => {
                proof {
                    assert(false);
                }
            },
        }
        let msg = match pair.receive(PairEnd::Server) {
            Some(m) => m,
            None => {
                proof {
                    assert(false);
                }
                JsonValue::Null
            },
        };
        let reply = match server.handle_message(&msg) {
            Some(v) => v,
            None => {
                proof {
                    assert(false);
                }
                JsonValue::Null
            },
        };
        match pair.send(PairEnd::Server, reply) {
            Ok(_) => {},
            Err(_) => {
                proof {
                    assert(false);
                }
            },
        }
        let init_reply = match pair.receive(PairEnd::Client) {
            Some(v) => v,
            None => {
                proof {
                    assert(false);
                }
                JsonValue::Null
            },
        };
        match init_reply.get("error") {
            Some(_) => {
                proof {
                    assert(false);
                }
                return Err(ConnectionError::Initialize(String::from_str("handshake rejected")));
            },
            None => {},
        }
        let init_result = match init_reply.get("result") {
            Some(x) => x,
            None => {
                proof {
                    assert(false);
                }
                return Err(
                    ConnectionError::Initialize(String::from_str("no result in response")),
                );
            },
        };
        conn.set_capabilities(init_result);
        let host_caps = self.host_state.to_capabilities();
        conn.negotiate_capabilities(&host_caps, None);

        // Discovery: tools, then resources, over the same pair, before any
        // background reading could start.
        let tools_req = JsonRpcRequest::new("tools/list", None);
        let tools_req_v = request_to_value(&tools_req);
        proof {
            lemma_encoded_request_members(tools_req, tools_req_v);
        }
        match pair.send(PairEnd::Client, tools_req_v) {
            Ok(_) => {},
            Err(_) => {
                proof {
                    assert(false);
                }
            },
        }
        let msg2 = match pair.receive(PairEnd::Server) {
            Some(m) => m,
            None => {
                proof {
                    assert(false);
                }
                JsonValue::Null
            },
        };
        let reply2 = match server.handle_message(&msg2) {
            Some(v) => v,
            None => {
                proof {
                    assert(false);
                }
                JsonValue::Null
            },
        };
        match pair.send(PairEnd::Server, reply2) {
            Ok(_) => {},
            Err(_) => {
                proof {
                    assert(false);
                }
            },
        }
        let tools_reply = match pair.receive(PairEnd::Client) {
            Some(v) => v,
            None => {
                proof {
                    assert(false);
                }
                JsonValue::Null
            },
        };
        let tools_result = match tools_reply.get("result") {
            Some(x) => x,
            None => {
                proof {
                    assert(false);
                }
                return Err(ConnectionError::Transport(String::from_str("no tools result")));
            },
        };
        let listing = match parse_list_tools(tools_result) {
            Some(l) => l,
            None => {
                proof {
                    assert(false);
                }
                return Err(ConnectionError::Transport(String::from_str("bad tools result")));
            },
        };
        proof {
            let ts = listing.tools@;
            let es = spec_get(*tools_result, "tools"@)->0->Arr_0;
            assert(crate::model::tool_matches(es@[0], ts[0]));
            assert(crate::model::tool_matches(es@[1], ts[1]));
            assert(crate::model::tool_matches(es@[2], ts[2]));
            assert(crate::model::tool_matches(es@[3], ts[3]));
            assert(crate::model::tool_matches(es@[4], ts[4]));
        }
        conn.update_tools(listing.tools);

        let res_req = JsonRpcRequest::new("resources/list", None);
        let res_req_v = request_to_value(&res_req);
        proof {
            lemma_encoded_request_members(res_req, res_req_v);
        }
        match pair.send(PairEnd::Client, res_req_v) {
            Ok(_) => {},
            Err(_) => {
                proof {
                    assert(false);
                }
            },
        }
        let msg3 = match pair.receive(PairEnd::Server) {
            Some(m) => m,
            None => {
                proof {
                    assert(false);
                }
                JsonValue::Null
            },
        };
        let reply3 = match server.handle_message(&msg3) {
            Some(v) => v,
            None => {
                proof {
                    assert(false);
                }
                JsonValue::Null
            },
        };
        match pair.send(PairEnd::Server, reply3) {
            Ok(_) => {},
            Err(_) => {
                proof {
                    assert(false);
                }
            },
        }
        let res_reply = match pair.receive(PairEnd::Client) {
            Some(v) => v,
            None => {
                proof {
                    assert(false);
                }
                JsonValue::Null
            },
        };
        let res_result = match res_reply.get("result") {
            Some(x) => x,
            None => {
                proof {
                    assert(false);
                }
                return Err(ConnectionError::Transport(String::from_str("no resources result")));
            },
        };
        let res_listing = match parse_list_resources(res_result) {
            Some(l) => l,
            None => {
                proof {
                    assert(false);
                }
                return Err(ConnectionError::Transport(String::from_str("bad resources result")));
            },
        };
        proof {
            let rs = res_listing.resources@;
            let es = spec_get(*res_result, "resources"@)->0->Arr_0;
            assert forall|i: int| 0 <= i < rs.len() implies crate::resources::spec_is_ui_uri(
                (#[trigger] rs[i]).uri@,
            ) by {
                assert(crate::model::resource_matches(es@[i], rs[i]));
                assert(crate::jsonrpc::string_member(es@[i], "uri"@, rs[i].uri@));
            }
            assert(crate::model::resource_matches(es@[0], rs[0]));
            assert(crate::model::resource_matches(es@[1], rs[1]));
            assert(crate::model::resource_matches(es@[2], rs[2]));
            assert(crate::model::resource_matches(es@[3], rs[3]));
            assert(rs[0].uri@ == "ui://weather-server/dashboard"@);
            assert(rs[1].uri@ == "ui://portfolio-server/gallery"@);
            assert(rs[2].uri@ == "ui://system-server/status"@);
            assert(rs[3].uri@ == "ui://notes-server/editor"@);
        }
        conn.update_resources(res_listing.resources);
        proof {
            lemma_ui_filter_full(conn.resources@, conn.ui_resources@);
            assert(crate::connection::spec_converted(conn.resources@[0], conn.ui_resources@[0]));
            assert(crate::connection::spec_converted(conn.resources@[1], conn.ui_resources@[1]));
            assert(crate::connection::spec_converted(conn.resources@[2], conn.ui_resources@[2]));
            assert(crate::connection::spec_converted(conn.resources@[3], conn.ui_resources@[3]));
        }
        conn.set_state(ConnectionState::Ready);

        // Tell the server initialization is complete; the pair is dropped
        // with this function, as tool dispatch for the embedded connection
        // goes in-process.
        let init_notif = JsonRpcNotification::new("notifications/initialized", None);
        let notif_v = notification_to_value(&init_notif);
        let _ = pair.send(PairEnd::Client, notif_v);

        // Store the connection, replacing any earlier one under this id.
        let ghost before = self.connections@;
        let existing = self.find_index("embedded");
        match existing {
            Some(i) => {
                let ghost pre = self.connections@;
                let _ = self.connections.remove(i);
                proof {
                    assert forall|j: int|
                        0 <= j < self.connections@.len() implies (#[trigger] self.connections@[j]).0@
                            != "embedded"@ by {
                        if j < i {
                            assert(self.connections@[j] == pre[j]);
                        } else {
                            assert(self.connections@[j] == pre[j + 1]);
                        }
                    }
                }
            },
            None => {},
        }
        let ghost mid = self.connections@;
        proof {
            assert forall|j: int|
                0 <= j < mid.len() implies (#[trigger] mid[j]).0@ != "embedded"@ by {
                if existing is None {
                    lemma_conn_lookup_absent_converse(mid, "embedded"@, j);
                }
            }
        }
        self.connections.push((String::from_str("embedded"), conn));
        proof {
            let cs = self.connections@;
            lemma_conn_lookup_at(cs, "embedded"@, cs.len() - 1);
            assert forall|id2: Seq<char>|
                id2 != "embedded"@ implies #[trigger] conn_lookup(cs, id2) == conn_lookup(
                before,
                id2,
            ) by {
                lemma_conn_lookup_push(mid, cs[cs.len() - 1], id2);
                match existing {
                    Some(i) => {
                        lemma_conn_remove_other(before, i as int, id2);
                    },
                    None => {},
                }
            }
        }
        Ok(String::from_str("embedded"))
    }
}

/// When a lookup finds nothing, no key in the table reads `id`.
proof fn lemma_conn_lookup_absent_converse(
    cs: Seq<(String, McpServerConnection)>,
    id: Seq<char>,
    j: int,
)
    requires
        conn_lookup(cs, id) is None,
        0 <= j < cs.len(),
    ensures
        cs[j].0@ != id,
    decreases j,
{
    if j == 0 {
    } else {
        assert(cs.drop_first()[j - 1] == cs[j]);
        lemma_conn_lookup_absent_converse(cs.drop_first(), id, j - 1);
    }
}

/// The mock page served for an external connection's resource read: a
/// placeholder built from the cached declaration.
pub open spec fn spec_mock_ui(u: UiResource) -> Seq<char> {
    "<!DOCTYPE html><html><head><title>"@ + u.name@ + "</title></head><body><h1>"@ + u.name@
        + "</h1><p>"@ + (match u.description {
        Some(d) => d@,
        None => "No description"@,
    }) + "</p><p>URI: "@ + u.uri@ + "</p><p>Type: "@ + u.mime_type@ + "</p></body></html>"@
}

/// Build the mock page for a cached UI resource.
fn generate_mock_ui(u: &UiResource) -> (r: String)
    ensures
        r@ == spec_mock_ui(*u),
{
    let mut s = String::from_str("<!DOCTYPE html><html><head><title>");
    s.append(u.name.as_str());
    s.append("</title></head><body><h1>");
    s.append(u.name.as_str());
    s.append("</h1><p>");
    match &u.description {
        Some(d) => s.append(d.as_str()),
        None => s.append("No description"),
    }
    s.append("</p><p>URI: ");
    s.append(u.uri.as_str());
    s.append("</p><p>Type: ");
    s.append(u.mime_type.as_str());
    s.append("</p></body></html>");
    proof {
        assert(s@ =~= spec_mock_ui(*u));
    }
    s
}

impl ConnectionManager {
    /// Call a tool on a connection.
    ///
    /// An unknown connection id fails with `NotFound`; a connection in any
    /// state but `Ready` fails with `NotReady`.  On the embedded
    /// connection the call dispatches in-process, so a weather call echoes
    /// its `location` argument into the structured payload and an unknown
    /// tool fails with `ToolNotFound`.  On an external connection the call
    /// is answered with a stub that echoes the arguments as the structured
    /// payload; routing it live over the transport is left open here, and
    /// a driver that does route it builds the request with
    /// [`ConnectionManager::build_call_tool_request`] and decodes the
    /// reply with `model::parse_call_tool_result`.
    pub fn call_tool(
        &self,
        connection_id: &str,
        tool_name: &str,
        arguments: &JsonValue,
    ) -> (r: Result<CallToolResult, ConnectionError>)
        ensures
            conn_lookup(self.spec_connections(), connection_id@) is None ==> (r matches Err(e)
                && (e matches ConnectionError::NotFound(m) && m@ == connection_id@)),
            conn_lookup(self.spec_connections(), connection_id@) matches Some(c) && !(c.state
                is Ready) ==> (r matches Err(e) && (e matches ConnectionError::NotReady(m) && m@
                == connection_id@)),
            conn_lookup(self.spec_connections(), connection_id@) matches Some(c) && c.state
                is Ready && connection_id@ == "embedded"@ ==> {
                &&& (tool_name@ == "get_weather"@ || tool_name@ == "refresh_weather"@) ==> (r
                    matches Ok(res) && spec_weather_result(*arguments, res))
                &&& tool_name@ == "get_portfolio"@ ==> (r matches Ok(res) && spec_demo_payload(
                    res,
                ))
                &&& tool_name@ == "get_system_status"@ ==> (r matches Ok(res)
                    && spec_demo_payload(res))
                &&& tool_name@ == "create_note"@ ==> (r matches Ok(res) && spec_note_result(
                    *arguments,
                    res,
                ))
                &&& !(tool_name@ == "get_weather"@ || tool_name@ == "refresh_weather"@
                    || tool_name@ == "get_portfolio"@ || tool_name@ == "get_system_status"@
                    || tool_name@ == "create_note"@) ==> (r matches Err(e) && e matches
                    ConnectionError::ToolNotFound(m) && m@ == "Tool not found: "@ + tool_name@)
            },
            conn_lookup(self.spec_connections(), connection_id@) matches Some(c) && c.state
                is Ready && connection_id@ != "embedded"@ ==> (r matches Ok(res) && {
                &&& res.is_error is None
                &&& res.structured_content matches Some(sc) && json_eq(*arguments, sc)
                &&& res.content@.len() == 1
                &&& res.content@[0] matches Content::Text(t) && t@ == "Tool "@ + tool_name@
                    + " called"@
            }),
    {
        let connection = match self.get_connection(connection_id) {
            Some(c) => c,
            None => {
                return Err(ConnectionError::NotFound(String::from_str(connection_id)));
            },
        };
        if !connection.is_ready() {
            return Err(ConnectionError::NotReady(String::from_str(connection_id)));
        }
        if str_eq(connection_id, "embedded") {
            let server = EmbeddedServer::new();
            return match server.call_tool(tool_name, arguments) {
                Ok(res) => Ok(res),
                Err(e) => Err(ConnectionError::ToolNotFound(e)),
            };
        }
        // Stub for external connections: echo the arguments.  Routing the
        // live request over the transport belongs to the caller's driver
        // loop.
        let mut text = String::from_str("Tool ");
        text.append(tool_name);
        text.append(" called");
        let mut content: Vec<Content> = Vec::new();
        content.push(Content::Text(text));
        Ok(
            CallToolResult {
                content,
                is_error: None,
                structured_content: Some(arguments.deep_clone()),
            },
        )
    }

    /// Read a UI resource's content from a connection.
    ///
    /// An unknown connection id fails with `NotFound`, a connection not in
    /// `Ready` state with `NotReady`, and a URI absent from that
    /// connection's UI-resource cache with `ResourceNotFound` — whatever
    /// the underlying server could serve.  A cached URI resolves through
    /// the embedded server in-process (the served script, failing with
    /// `ResourceNotFound` on a URI that server does not know), or to a
    /// synthesized placeholder on an external connection; the content
    /// carries the requested URI and the first matching cache entry's mime
    /// type and metadata.
    pub fn read_ui_resource(&self, connection_id: &str, uri: &str) -> (r: Result<
        UiResourceContent,
        ConnectionError,
    >)
        ensures
            conn_lookup(self.spec_connections(), connection_id@) is None ==> (r matches Err(e)
                && (e matches ConnectionError::NotFound(m) && m@ == connection_id@)),
            conn_lookup(self.spec_connections(), connection_id@) matches Some(c) && !(c.state
                is Ready) ==> (r matches Err(e) && (e matches ConnectionError::NotReady(m) && m@
                == connection_id@)),
            conn_lookup(self.spec_connections(), connection_id@) matches Some(c) && c.state
                is Ready && (forall|i: int|
                0 <= i < c.ui_resources@.len() ==> (#[trigger] c.ui_resources@[i]).uri@ != uri@)
                ==> (r matches Err(e) && (e matches ConnectionError::ResourceNotFound(m) && m@
                == uri@)),
            r matches Ok(content) ==> {
                &&& content.uri@ == uri@
                &&& content.blob is None
                &&& conn_lookup(self.spec_connections(), connection_id@) matches Some(c)
                    && c.state is Ready && (exists|i: int|
                    #[trigger] spec_first_cached(c, uri@, i) && content.mime_type@
                        == c.ui_resources@[i].mime_type@ && crate::resources::spec_opt_meta_like(
                        c.ui_resources@[i]._meta,
                        content._meta,
                    ) && (content.text matches Some(t) && (if connection_id@ == "embedded"@ {
                        t@ == crate::server::spec_embedded_resource_text(uri@)
                    } else {
                        t@ == spec_mock_ui(c.ui_resources@[i])
                    })))
            },
            conn_lookup(self.spec_connections(), connection_id@) matches Some(c) && c.state
                is Ready && connection_id@ == "embedded"@ && (exists|i: int|
                0 <= i < c.ui_resources@.len() && (#[trigger] c.ui_resources@[i]).uri@ == uri@)
                ==> (if crate::server::spec_embedded_resource_known(uri@) {
                r is Ok
            } else {
                r matches Err(e) && (e matches ConnectionError::ResourceNotFound(m) && m@
                    == "Resource not found: "@ + uri@)
            }),
            conn_lookup(self.spec_connections(), connection_id@) matches Some(c) && c.state
                is Ready && connection_id@ != "embedded"@ && (exists|i: int|
                0 <= i < c.ui_resources@.len() && (#[trigger] c.ui_resources@[i]).uri@ == uri@)
                ==> r is Ok,
    {
        let connection = match self.get_connection(connection_id) {
            Some(c) => c,
            None => {
                return Err(ConnectionError::NotFound(String::from_str(connection_id)));
            },
        };
        if !connection.is_ready() {
            return Err(ConnectionError::NotReady(String::from_str(connection_id)));
        }
        let resource = match connection.find_ui_resource(uri) {
            Some(u) => u,
            None => {
                return Err(ConnectionError::ResourceNotFound(String::from_str(uri)));
            },
        };
        let ghost widx = choose|i: int|
            0 <= i < connection.ui_resources@.len() && connection.ui_resources@[i] == *resource
                && resource.uri@ == uri@ && (forall|j: int|
                0 <= j < i ==> (#[trigger] connection.ui_resources@[j]).uri@ != uri@);
        proof {
            assert(spec_first_cached(*connection, uri@, widx));
            assert(connection.ui_resources@[widx] == *resource);
        }
        let meta = match &resource._meta {
            Some(m) => Some(m.clone()),
            None => None,
        };
        if str_eq(connection_id, "embedded") {
            let server = EmbeddedServer::new();
            return match server.read_resource(uri) {
                Ok(read) => {
                    if read.contents.len() >= 1 {
                        let text = match &read.contents[0] {
                            crate::model::ResourceContents::Text { uri: _, text } => text.clone(),
                        };
                        Ok(
                            UiResourceContent {
                                uri: String::from_str(uri),
                                mime_type: resource.mime_type.clone(),
                                text: Some(text),
                                blob: None,
                                _meta: meta,
                            },
                        )
                    } else {
                        Err(ConnectionError::ResourceNotFound(String::from_str(uri)))
                    }
                },
                Err(e) => Err(ConnectionError::ResourceNotFound(e)),
            };
        }
        // Fallback for external connections: a synthesized placeholder.
        let html = generate_mock_ui(resource);
        Ok(
            UiResourceContent {
                uri: String::from_str(uri),
                mime_type: resource.mime_type.clone(),
                text: Some(html),
                blob: None,
                _meta: meta,
            },
        )
    }
}

/// The output covers connection `a`'s tool `b`: some entry carries that
/// connection's id and a copy of that tool.
pub open spec fn spec_covers_tool(
    out: Seq<(String, crate::model::Tool)>,
    cs: Seq<(String, McpServerConnection)>,
    a: int,
    b: int,
) -> bool {
    exists|k: int|
        0 <= k < out.len() && (#[trigger] out[k]).0@ == cs[a].0@ && crate::model::spec_tool_like(
            cs[a].1.tools@[b],
            out[k].1,
        )
}

/// The output covers connection `a`'s linked tool at index `t`: some entry
/// carries that connection's id and that tool index.
pub open spec fn spec_covers_link(
    out: Seq<(String, usize, String)>,
    cs: Seq<(String, McpServerConnection)>,
    a: int,
    t: int,
) -> bool {
    exists|k: int| 0 <= k < out.len() && (#[trigger] out[k]).0@ == cs[a].0@ && out[k].1 == t
}

/// The output covers connection `a`'s cached UI resource `b`: some entry
/// carries that connection's id and that resource's URI.
pub open spec fn spec_covers_ui(
    out: Seq<(String, String)>,
    cs: Seq<(String, McpServerConnection)>,
    a: int,
    b: int,
) -> bool {
    exists|k: int|
        0 <= k < out.len() && (#[trigger] out[k]).0@ == cs[a].0@ && out[k].1@ == cs[a].1.ui_resources@[b].uri@
}

/// An output entry of [`ConnectionManager::get_all_tools`]: some
/// connection's id together with a copy of one of its tools.
pub open spec fn spec_tool_entry_from(
    cs: Seq<(String, McpServerConnection)>,
    e: (String, crate::model::Tool),
) -> bool {
    exists|a: int, b: int|
        0 <= a < cs.len() && 0 <= b < cs[a].1.tools@.len() && e.0@ == cs[a].0@
            && crate::model::spec_tool_like(#[trigger] cs[a].1.tools@[b], e.1)
}

/// An output entry of [`ConnectionManager::get_tools_with_ui`]: a
/// connection id, a tool index in that connection's cache, and the URI its
/// metadata links to.
pub open spec fn spec_link_entry_from(
    cs: Seq<(String, McpServerConnection)>,
    e: (String, usize, String),
) -> bool {
    exists|a: int|
        0 <= a < cs.len() && e.0@ == (#[trigger] cs[a]).0@ && 0 <= e.1 < cs[a].1.tools@.len()
            && crate::connection::spec_tool_ui_link(cs[a].1.tools@[e.1 as int]) == Some(e.2@)
}

/// An output entry of [`ConnectionManager::get_all_ui_resources`]: a
/// connection id together with one of its cached UI resource URIs.
pub open spec fn spec_ui_entry_from(
    cs: Seq<(String, McpServerConnection)>,
    e: (String, String),
) -> bool {
    exists|a: int, b: int|
        0 <= a < cs.len() && 0 <= b < cs[a].1.ui_resources@.len() && e.0@ == cs[a].0@ && e.1@ == (
        #[trigger] cs[a].1.ui_resources@[b]).uri@
}

impl ConnectionManager {
    /// Every tool of every connection, each with its connection id:
    /// nothing else appears, and nothing cached is missed.
    pub fn get_all_tools(&self) -> (r: Vec<(String, crate::model::Tool)>)
        ensures
            forall|k: int|
                0 <= k < r@.len() ==> spec_tool_entry_from(
                    self.spec_connections(),
                    #[trigger] r@[k],
                ),
            forall|a: int, b: int|
                0 <= a < self.spec_connections().len() && 0 <= b
                    < self.spec_connections()[a].1.tools@.len() ==> #[trigger] spec_covers_tool(
                    r@,
                    self.spec_connections(),
                    a,
                    b,
                ),
    {
        let mut out: Vec<(String, crate::model::Tool)> = Vec::new();
        let n = self.connections.len();
        let mut i: usize = 0;
        while i < n
            invariant
                0 <= i <= n,
                n == self.spec_connections().len(),
                forall|k: int|
                    0 <= k < out@.len() ==> spec_tool_entry_from(
                        self.spec_connections(),
                        #[trigger] out@[k],
                    ),
                forall|a: int, b: int|
                    0 <= a < i && 0 <= b < self.spec_connections()[a].1.tools@.len()
                        ==> #[trigger] spec_covers_tool(out@, self.spec_connections(), a, b),
            decreases n - i,
        {
            let m = self.connections[i].1.tools.len();
            let mut j: usize = 0;
            while j < m
                invariant
                    0 <= j <= m,
                    0 <= i < n,
                    n == self.spec_connections().len(),
                    m == self.spec_connections()[i as int].1.tools@.len(),
                    forall|k: int|
                        0 <= k < out@.len() ==> spec_tool_entry_from(
                            self.spec_connections(),
                            #[trigger] out@[k],
                        ),
                    forall|a: int, b: int|
                        0 <= a < i && 0 <= b < self.spec_connections()[a].1.tools@.len()
                            ==> #[trigger] spec_covers_tool(out@, self.spec_connections(), a, b),
                    forall|b: int|
                        0 <= b < j ==> #[trigger] spec_covers_tool(
                            out@,
                            self.spec_connections(),
                            i as int,
                            b,
                        ),
                decreases m - j,
            {
                let ghost prev = out@;
                out.push((self.connections[i].0.clone(), self.connections[i].1.tools[j].clone()));
                proof {
                    let k = out@.len() - 1;
                    let cs = self.spec_connections();
                    assert(crate::model::spec_tool_like(
                        cs[i as int].1.tools@[j as int],
                        out@[k].1,
                    ));
                    assert(spec_tool_entry_from(cs, out@[k]));
                    assert(spec_covers_tool(out@, cs, i as int, j as int));
                    assert forall|a: int, b: int|
                        spec_covers_tool(prev, cs, a, b) implies #[trigger] spec_covers_tool(
                        out@,
                        cs,
                        a,
                        b,
                    ) by {
                        let k0 = choose|k0: int|
                            0 <= k0 < prev.len() && (#[trigger] prev[k0]).0@ == cs[a].0@
                                && crate::model::spec_tool_like(cs[a].1.tools@[b], prev[k0].1);
                        assert(out@[k0] == prev[k0]);
                        assert((out@[k0]).0@ == cs[a].0@);
                    }
                }
                j = j + 1;
            }
            i = i + 1;
        }
        out
    }

    /// Every linked tool of every connection: the connection id, the tool
    /// index in that connection's cache, and the linked UI resource URI;
    /// nothing else appears, and no linked tool is missed.
    pub fn get_tools_with_ui(&self) -> (r: Vec<(String, usize, String)>)
        ensures
            forall|k: int|
                0 <= k < r@.len() ==> spec_link_entry_from(
                    self.spec_connections(),
                    #[trigger] r@[k],
                ),
            forall|a: int, t: int|
                0 <= a < self.spec_connections().len() && 0 <= t
                    < self.spec_connections()[a].1.tools@.len()
                    && crate::connection::spec_tool_ui_link(
                    self.spec_connections()[a].1.tools@[t],
                ) is Some ==> #[trigger] spec_covers_link(r@, self.spec_connections(), a, t),
    {
        let mut out: Vec<(String, usize, String)> = Vec::new();
        let n = self.connections.len();
        let mut i: usize = 0;
        while i < n
            invariant
                0 <= i <= n,
                n == self.spec_connections().len(),
                forall|k: int|
                    0 <= k < out@.len() ==> spec_link_entry_from(
                        self.spec_connections(),
                        #[trigger] out@[k],
                    ),
                forall|a: int, t: int|
                    0 <= a < i && 0 <= t < self.spec_connections()[a].1.tools@.len()
                        && crate::connection::spec_tool_ui_link(
                        self.spec_connections()[a].1.tools@[t],
                    ) is Some ==> #[trigger] spec_covers_link(out@, self.spec_connections(), a, t),
            decreases n - i,
        {
            let linked = self.connections[i].1.get_tools_with_ui();
            let m = linked.len();
            let mut j: usize = 0;
            while j < m
                invariant
                    0 <= j <= m,
                    0 <= i < n,
                    n == self.spec_connections().len(),
                    m == linked@.len(),
                    forall|t: int|
                        0 <= t < linked@.len() ==> {
                            let (ix, uri) = #[trigger] linked@[t];
                            &&& 0 <= ix < self.spec_connections()[i as int].1.tools@.len()
                            &&& crate::connection::spec_tool_ui_link(
                                self.spec_connections()[i as int].1.tools@[ix as int],
                            ) == Some(uri@)
                        },
                    forall|k: int|
                        0 <= k < out@.len() ==> spec_link_entry_from(
                            self.spec_connections(),
                            #[trigger] out@[k],
                        ),
                    forall|a: int, t: int|
                        0 <= a < i && 0 <= t < self.spec_connections()[a].1.tools@.len()
                            && crate::connection::spec_tool_ui_link(
                            self.spec_connections()[a].1.tools@[t],
                        ) is Some ==> #[trigger] spec_covers_link(
                            out@,
                            self.spec_connections(),
                            a,
                            t,
                        ),
                    forall|t: int|
                        0 <= t < j ==> #[trigger] spec_covers_link(
                            out@,
                            self.spec_connections(),
                            i as int,
                            (linked@[t]).0 as int,
                        ),
                decreases m - j,
            {
                let idx = linked[j].0;
                let uri = linked[j].1.clone();
                let ghost prev = out@;
                out.push((self.connections[i].0.clone(), idx, uri));
                proof {
                    let k = out@.len() - 1;
                    let cs = self.spec_connections();
                    assert((out@[k]).0@ == cs[i as int].0@);
                    assert((linked@[j as int]).0 == out@[k].1);
                    assert(spec_link_entry_from(cs, out@[k]));
                    assert(spec_covers_link(out@, cs, i as int, (linked@[j as int]).0 as int));
                    assert forall|a: int, t: int|
                        spec_covers_link(prev, cs, a, t) implies #[trigger] spec_covers_link(
                        out@,
                        cs,
                        a,
                        t,
                    ) by {
                        let k0 = choose|k0: int|
                            0 <= k0 < prev.len() && (#[trigger] prev[k0]).0@ == cs[a].0@
                                && prev[k0].1 == t;
                        assert(out@[k0] == prev[k0]);
                        assert((out@[k0]).0@ == cs[a].0@);
                    }
                }
                j = j + 1;
            }
            proof {
                let cs = self.spec_connections();
                assert forall|t: int|
                    0 <= t < cs[i as int].1.tools@.len()
                        && crate::connection::spec_tool_ui_link(cs[i as int].1.tools@[t])
                        is Some implies #[trigger] spec_covers_link(out@, cs, i as int, t) by {
                    let k0 = choose|k0: int|
                        0 <= k0 < linked@.len() && (#[trigger] linked@[k0]).0 == t;
                    assert(spec_covers_link(out@, cs, i as int, (linked@[k0]).0 as int));
                }
            }
            i = i + 1;
        }
        out
    }

    /// Every cached UI resource URI of every connection, each with its
    /// connection id: nothing else appears, and nothing cached is missed.
    pub fn get_all_ui_resources(&self) -> (r: Vec<(String, String)>)
        ensures
            forall|k: int|
                0 <= k < r@.len() ==> spec_ui_entry_from(self.spec_connections(), #[trigger] r@[k]),
            forall|a: int, b: int|
                0 <= a < self.spec_connections().len() && 0 <= b
                    < self.spec_connections()[a].1.ui_resources@.len() ==> #[trigger] spec_covers_ui(
                    r@,
                    self.spec_connections(),
                    a,
                    b,
                ),
    {
        let mut out: Vec<(String, String)> = Vec::new();
        let n = self.connections.len();
        let mut i: usize = 0;
        while i < n
            invariant
                0 <= i <= n,
                n == self.spec_connections().len(),
                forall|k: int|
                    0 <= k < out@.len() ==> spec_ui_entry_from(
                        self.spec_connections(),
                        #[trigger] out@[k],
                    ),
                forall|a: int, b: int|
                    0 <= a < i && 0 <= b < self.spec_connections()[a].1.ui_resources@.len()
                        ==> #[trigger] spec_covers_ui(out@, self.spec_connections(), a, b),
            decreases n - i,
        {
            let m = self.connections[i].1.ui_resources.len();
            let mut j: usize = 0;
            while j < m
                invariant
                    0 <= j <= m,
                    0 <= i < n,
                    n == self.spec_connections().len(),
                    m == self.spec_connections()[i as int].1.ui_resources@.len(),
                    forall|k: int|
                        0 <= k < out@.len() ==> spec_ui_entry_from(
                            self.spec_connections(),
                            #[trigger] out@[k],
                        ),
                    forall|a: int, b: int|
                        0 <= a < i && 0 <= b < self.spec_connections()[a].1.ui_resources@.len()
                            ==> #[trigger] spec_covers_ui(out@, self.spec_connections(), a, b),
                    forall|b: int|
                        0 <= b < j ==> #[trigger] spec_covers_ui(
                            out@,
                            self.spec_connections(),
                            i as int,
                            b,
                        ),
                decreases m - j,
            {
                let ghost prev = out@;
                out.push((
                    self.connections[i].0.clone(),
                    self.connections[i].1.ui_resources[j].uri.clone(),
                ));
                proof {
                    let k = out@.len() - 1;
                    let cs = self.spec_connections();
                    assert(out@[k].1@ == (cs[i as int].1.ui_resources@[j as int]).uri@);
                    assert(spec_ui_entry_from(cs, out@[k]));
                    assert(spec_covers_ui(out@, cs, i as int, j as int));
                    assert forall|a: int, b: int|
                        spec_covers_ui(prev, cs, a, b) implies #[trigger] spec_covers_ui(
                        out@,
                        cs,
                        a,
                        b,
                    ) by {
                        let k0 = choose|k0: int|
                            0 <= k0 < prev.len() && (#[trigger] prev[k0]).0@ == cs[a].0@
                                && prev[k0].1@ == cs[a].1.ui_resources@[b].uri@;
                        assert(out@[k0] == prev[k0]);
                        assert((out@[k0]).0@ == cs[a].0@);
                    }
                }
                j = j + 1;
            }
            i = i + 1;
        }
        out
    }
}

} // verus!
