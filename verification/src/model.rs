//! Tool and resource model.
//!
//! The declarations a server sends during discovery — its tools, its
//! resources, a tool call's result, a resource read's contents — modelled as
//! plain values, with the wire encodings and decodings used on the server
//! protocol channel.  An optional member is omitted from the wire when
//! absent, and a decoder reads an absent or `null` member as absent.

use vstd::prelude::*;

use crate::json::{
    json_eq, lemma_obj_lookup_absent, lemma_obj_lookup_at, spec_get, JsonValue,
};
use crate::jsonrpc::{has_string_member, string_member};

verus! {

/// A tool a server declares.
#[derive(Debug)]
pub struct Tool {
    /// The tool's name, unique on its server.
    pub name: String,
    /// Human-readable title.
    pub title: Option<String>,
    /// What the tool does.
    pub description: Option<String>,
    /// JSON schema of the tool's arguments.
    pub input_schema: JsonValue,
    /// Metadata; may link the tool to a UI resource.
    pub meta: Option<JsonValue>,
}

/// A resource a server declares.
#[derive(Debug)]
pub struct Resource {
    /// The resource's URI.
    pub uri: String,
    /// Human-readable display name.
    pub name: String,
    /// What the resource holds.
    pub description: Option<String>,
    /// MIME type of the content.
    pub mime_type: Option<String>,
    /// Metadata; may carry UI configuration.
    pub meta: Option<JsonValue>,
}

/// One block of a tool result's content.
#[derive(Debug)]
pub enum Content {
    /// Plain text.
    Text(String),
}

impl Content {
    /// A text content block.
    pub fn text(s: &str) -> (r: Content)
        ensures
            r matches Content::Text(t) && t@ == s@,
    {
        Content::Text(String::from_str(s))
    }
}

/// The result of a tool call.
#[derive(Debug)]
pub struct CallToolResult {
    /// Content blocks for the model.
    pub content: Vec<Content>,
    /// Whether the call failed tool-side.
    pub is_error: Option<bool>,
    /// Structured payload for a rendering surface.
    pub structured_content: Option<JsonValue>,
}

/// The result of `tools/list`.
#[derive(Debug)]
pub struct ListToolsResult {
    pub tools: Vec<Tool>,
}

/// The result of `resources/list`.
#[derive(Debug)]
pub struct ListResourcesResult {
    pub resources: Vec<Resource>,
}

/// One content entry of a resource read.
#[derive(Debug)]
pub enum ResourceContents {
    /// Text content, tagged with the URI it came from.
    Text { uri: String, text: String },
}

/// The result of `resources/read`.
#[derive(Debug)]
pub struct ReadResourceResult {
    pub contents: Vec<ResourceContents>,
}

/// An optional member that decodes as an optional string: it may be absent
/// or `null`, and must be a string otherwise.
pub open spec fn opt_string_ok(v: JsonValue, key: Seq<char>) -> bool {
    match spec_get(v, key) {
        None => true,
        Some(x) => x is Str || x is Null,
    }
}

/// The optional string an optional member decodes to.
pub open spec fn opt_string_of(v: JsonValue, key: Seq<char>, s: Option<String>) -> bool {
    match spec_get(v, key) {
        None => s is None,
        Some(x) => match x {
            JsonValue::Str(t) => s matches Some(u) && u@ == t@,
            _ => s is None,
        },
    }
}

/// Read an optional member that must be a string when present.  The second
/// component is false when the member is present but neither a string nor
/// `null`.
fn decode_opt_string(v: &JsonValue, key: &str) -> (r: (Option<String>, bool))
    ensures
        r.1 == opt_string_ok(*v, key@),
        opt_string_of(*v, key@, r.0),
{
    match v.get(key) {
        None => (None, true),
        Some(x) => match x.as_str() {
            Some(s) => (Some(s.clone()), true),
            None => (None, x.is_null()),
        },
    }
}

/// A wire value decodes as a tool when its `name` is a string, its
/// `inputSchema` is an object, its optional `title` and `description` are
/// strings when present, and its `_meta`, when present and not `null`, is an
/// object.
pub open spec fn tool_value_ok(v: JsonValue) -> bool {
    &&& has_string_member(v, "name"@)
    &&& opt_string_ok(v, "title"@)
    &&& opt_string_ok(v, "description"@)
    &&& spec_get(v, "inputSchema"@) matches Some(x) && x is Obj
    &&& match spec_get(v, "_meta"@) {
        None => true,
        Some(m) => m is Obj || m is Null,
    }
}

/// The decoded tool `t` reads exactly the members of `v`.
pub open spec fn tool_matches(v: JsonValue, t: Tool) -> bool {
    &&& string_member(v, "name"@, t.name@)
    &&& opt_string_of(v, "title"@, t.title)
    &&& opt_string_of(v, "description"@, t.description)
    &&& spec_get(v, "inputSchema"@) matches Some(x) && json_eq(x, t.input_schema)
    &&& match spec_get(v, "_meta"@) {
        None => t.meta is None,
        Some(m) => if m is Obj {
            t.meta matches Some(w) && json_eq(m, w)
        } else {
            t.meta is None
        },
    }
}

/// Decode a tool declaration.
pub fn parse_tool(v: &JsonValue) -> (r: Option<Tool>)
    ensures
        match r {
            Some(t) => tool_value_ok(*v) && tool_matches(*v, t),
            None => !tool_value_ok(*v),
        },
{
    let name = match v.get("name") {
        Some(x) => match x.as_str() {
            Some(s) => s.clone(),
            None => {
                return None;
            },
        },
        None => {
            return None;
        },
    };
    let (title, title_ok) = decode_opt_string(v, "title");
    if !title_ok {
        return None;
    }
    let (description, desc_ok) = decode_opt_string(v, "description");
    if !desc_ok {
        return None;
    }
    let input_schema = match v.get("inputSchema") {
        Some(x) => {
            if matches!(x, JsonValue::Obj(_)) {
                x.deep_clone()
            } else {
                return None;
            }
        },
        None => {
            return None;
        },
    };
    let meta = match v.get("_meta") {
        Some(m) => {
            if matches!(m, JsonValue::Obj(_)) {
                Some(m.deep_clone())
            } else if m.is_null() {
                None
            } else {
                return None;
            }
        },
        None => None,
    };
    Some(Tool { name, title, description, input_schema, meta })
}

/// A wire value decodes as a resource when its `uri` and `name` are
/// strings, its optional `description` and `mimeType` are strings when
/// present, and its `_meta`, when present and not `null`, is an object.
pub open spec fn resource_value_ok(v: JsonValue) -> bool {
    &&& has_string_member(v, "uri"@)
    &&& has_string_member(v, "name"@)
    &&& opt_string_ok(v, "description"@)
    &&& opt_string_ok(v, "mimeType"@)
    &&& match spec_get(v, "_meta"@) {
        None => true,
        Some(m) => m is Obj || m is Null,
    }
}

/// The decoded resource `t` reads exactly the members of `v`.
pub open spec fn resource_matches(v: JsonValue, t: Resource) -> bool {
    &&& string_member(v, "uri"@, t.uri@)
    &&& string_member(v, "name"@, t.name@)
    &&& opt_string_of(v, "description"@, t.description)
    &&& opt_string_of(v, "mimeType"@, t.mime_type)
    &&& match spec_get(v, "_meta"@) {
        None => t.meta is None,
        Some(m) => if m is Obj {
            t.meta matches Some(w) && json_eq(m, w)
        } else {
            t.meta is None
        },
    }
}

/// Decode a resource declaration.
pub fn parse_resource(v: &JsonValue) -> (r: Option<Resource>)
    ensures
        match r {
            Some(t) => resource_value_ok(*v) && resource_matches(*v, t),
            None => !resource_value_ok(*v),
        },
{
    let uri = match v.get("uri") {
        Some(x) => match x.as_str() {
            Some(s) => s.clone(),
            None => {
                return None;
            },
        },
        None => {
            return None;
        },
    };
    let name = match v.get("name") {
        Some(x) => match x.as_str() {
            Some(s) => s.clone(),
            None => {
                return None;
            },
        },
        None => {
            return None;
        },
    };
    let (description, desc_ok) = decode_opt_string(v, "description");
    if !desc_ok {
        return None;
    }
    let (mime_type, mime_ok) = decode_opt_string(v, "mimeType");
    if !mime_ok {
        return None;
    }
    let meta = match v.get("_meta") {
        Some(m) => {
            if matches!(m, JsonValue::Obj(_)) {
                Some(m.deep_clone())
            } else if m.is_null() {
                None
            } else {
                return None;
            }
        },
        None => None,
    };
    Some(Resource { uri, name, description, mime_type, meta })
}

/// The wire value of a tools list: `{"tools": [...]}` where each entry
/// decodes to the corresponding tool.
pub open spec fn list_tools_value_matches(v: JsonValue, ts: Seq<Tool>) -> bool {
    &&& spec_get(v, "tools"@) matches Some(JsonValue::Arr(entries))
    &&& entries@.len() == ts.len()
    &&& forall|i: int|
        0 <= i < ts.len() ==> tool_value_ok(#[trigger] entries@[i]) && tool_matches(
            entries@[i],
            ts[i],
        )
}

/// A tools list value whose every entry decodes.
pub open spec fn list_tools_value_ok(v: JsonValue) -> bool {
    &&& spec_get(v, "tools"@) matches Some(JsonValue::Arr(entries))
    &&& forall|i: int| 0 <= i < entries@.len() ==> tool_value_ok(#[trigger] entries@[i])
}

/// Decode a `tools/list` result.  Fails when the `tools` member is missing
/// or not an array, or when any entry fails to decode; the caller then
/// leaves its cache as it was.
pub fn parse_list_tools(v: &JsonValue) -> (r: Option<ListToolsResult>)
    ensures
        match r {
            Some(res) => list_tools_value_matches(*v, res.tools@),
            None => !list_tools_value_ok(*v),
        },
{
    let entries = match v.get("tools") {
        Some(x) => match x {
            JsonValue::Arr(entries) => entries,
            _ => {
                return None;
            },
        },
        None => {
            return None;
        },
    };
    let n = entries.len();
    let mut tools: Vec<Tool> = Vec::new();
    let mut i: usize = 0;
    while i < n
        invariant
            0 <= i <= n,
            n == entries@.len(),
            spec_get(*v, "tools"@) == Some(JsonValue::Arr(*entries)),
            tools@.len() == i,
            forall|j: int|
                0 <= j < i ==> tool_value_ok(#[trigger] entries@[j]) && tool_matches(
                    entries@[j],
                    tools@[j],
                ),
        decreases n - i,
    {
        match parse_tool(&entries[i]) {
            Some(t) => tools.push(t),
            None => {
                proof {
                    assert(!tool_value_ok(entries@[i as int]));
                    let es = spec_get(*v, "tools"@)->0->Arr_0;
                    assert(es == *entries);
                    if list_tools_value_ok(*v) {
                        assert(tool_value_ok(es@[i as int]));
                        assert(tool_value_ok(entries@[i as int]));
                    }
                    assert(!list_tools_value_ok(*v));
                }
                return None;
            },
        }
        i = i + 1;
    }
    Some(ListToolsResult { tools })
}

/// The wire value of a resources list: `{"resources": [...]}` where each
/// entry decodes to the corresponding resource.
pub open spec fn list_resources_value_matches(v: JsonValue, rs: Seq<Resource>) -> bool {
    &&& spec_get(v, "resources"@) matches Some(JsonValue::Arr(entries))
    &&& entries@.len() == rs.len()
    &&& forall|i: int|
        0 <= i < rs.len() ==> resource_value_ok(#[trigger] entries@[i]) && resource_matches(
            entries@[i],
            rs[i],
        )
}

/// A resources list value whose every entry decodes.
pub open spec fn list_resources_value_ok(v: JsonValue) -> bool {
    &&& spec_get(v, "resources"@) matches Some(JsonValue::Arr(entries))
    &&& forall|i: int| 0 <= i < entries@.len() ==> resource_value_ok(#[trigger] entries@[i])
}

/// Decode a `resources/list` result; fails as [`parse_list_tools`] does.
pub fn parse_list_resources(v: &JsonValue) -> (r: Option<ListResourcesResult>)
    ensures
        match r {
            Some(res) => list_resources_value_matches(*v, res.resources@),
            None => !list_resources_value_ok(*v),
        },
{
    let entries = match v.get("resources") {
        Some(x) => match x {
            JsonValue::Arr(entries) => entries,
            _ => {
                return None;
            },
        },
        None => {
            return None;
        },
    };
    let n = entries.len();
    let mut resources: Vec<Resource> = Vec::new();
    let mut i: usize = 0;
    while i < n
        invariant
            0 <= i <= n,
            n == entries@.len(),
            spec_get(*v, "resources"@) == Some(JsonValue::Arr(*entries)),
            resources@.len() == i,
            forall|j: int|
                0 <= j < i ==> resource_value_ok(#[trigger] entries@[j]) && resource_matches(
                    entries@[j],
                    resources@[j],
                ),
        decreases n - i,
    {
        match parse_resource(&entries[i]) {
            Some(t) => resources.push(t),
            None => {
                proof {
                    assert(!resource_value_ok(entries@[i as int]));
                    let es = spec_get(*v, "resources"@)->0->Arr_0;
                    assert(es == *entries);
                    if list_resources_value_ok(*v) {
                        assert(resource_value_ok(es@[i as int]));
                        assert(resource_value_ok(entries@[i as int]));
                    }
                    assert(!list_resources_value_ok(*v));
                }
                return None;
            },
        }
        i = i + 1;
    }
    Some(ListResourcesResult { resources })
}

/// A tool value ready for the wire: its schema is an object and its
/// metadata, when present, is one too.
pub open spec fn tool_wire_ready(t: Tool) -> bool {
    &&& t.input_schema is Obj
    &&& match t.meta {
        Some(m) => m is Obj,
        None => true,
    }
}

/// Encode a tool declaration; optional members are omitted when absent.
pub fn tool_to_value(t: &Tool) -> (r: JsonValue)
    requires
        tool_wire_ready(*t),
    ensures
        tool_value_ok(r),
        tool_matches(r, *t),
{
    let mut fs: Vec<(String, JsonValue)> = Vec::new();
    fs.push((String::from_str("name"), JsonValue::Str(t.name.clone())));
    match &t.title {
        Some(x) => fs.push((String::from_str("title"), JsonValue::Str(x.clone()))),
        None => {},
    }
    match &t.description {
        Some(x) => fs.push((String::from_str("description"), JsonValue::Str(x.clone()))),
        None => {},
    }
    let schema = t.input_schema.deep_clone();
    proof {
        crate::json::lemma_json_eq_symm(t.input_schema, schema);
    }
    fs.push((String::from_str("inputSchema"), schema));
    match &t.meta {
        Some(m) => {
            let mc = m.deep_clone();
            proof {
                crate::json::lemma_json_eq_symm(t.meta->0, mc);
            }
            fs.push((String::from_str("_meta"), mc));
        },
        None => {},
    }
    let r = JsonValue::Obj(fs);
    proof {
        reveal_strlit("name");
        reveal_strlit("title");
        reveal_strlit("description");
        reveal_strlit("inputSchema");
        reveal_strlit("_meta");
        assert("name"@.len() == 4);
        assert("title"@.len() == 5);
        assert("description"@.len() == 11);
        assert("inputSchema"@.len() == 11);
        assert("_meta"@.len() == 5);
        assert("description"@ != "inputSchema"@) by {
            if "description"@ == "inputSchema"@ {
                assert("description"@[0] == "inputSchema"@[0]);
            }
        }
        assert("title"@ != "_meta"@) by {
            if "title"@ == "_meta"@ {
                assert("title"@[0] == "_meta"@[0]);
            }
        }
        let fsv = r->Obj_0@;
        let ti: int = if t.title is Some { 1int } else { 0int };
        let di: int = if t.description is Some { 1int } else { 0int };
        lemma_obj_lookup_at(fsv, "name"@, 0);
        if t.title is Some {
            lemma_obj_lookup_at(fsv, "title"@, 1);
        } else {
            lemma_obj_lookup_absent(fsv, "title"@);
        }
        if t.description is Some {
            lemma_obj_lookup_at(fsv, "description"@, 1 + ti);
        } else {
            lemma_obj_lookup_absent(fsv, "description"@);
        }
        lemma_obj_lookup_at(fsv, "inputSchema"@, 1 + ti + di);
        if t.meta is Some {
            lemma_obj_lookup_at(fsv, "_meta"@, 2 + ti + di);
        } else {
            lemma_obj_lookup_absent(fsv, "_meta"@);
        }
    }
    r
}

/// A resource value ready for the wire: its metadata, when present, is an
/// object.
pub open spec fn resource_wire_ready(t: Resource) -> bool {
    match t.meta {
        Some(m) => m is Obj,
        None => true,
    }
}

/// Encode a resource declaration; optional members are omitted when absent.
pub fn resource_to_value(t: &Resource) -> (r: JsonValue)
    requires
        resource_wire_ready(*t),
    ensures
        resource_value_ok(r),
        resource_matches(r, *t),
{
    let mut fs: Vec<(String, JsonValue)> = Vec::new();
    fs.push((String::from_str("uri"), JsonValue::Str(t.uri.clone())));
    fs.push((String::from_str("name"), JsonValue::Str(t.name.clone())));
    match &t.description {
        Some(x) => fs.push((String::from_str("description"), JsonValue::Str(x.clone()))),
        None => {},
    }
    match &t.mime_type {
        Some(x) => fs.push((String::from_str("mimeType"), JsonValue::Str(x.clone()))),
        None => {},
    }
    match &t.meta {
        Some(m) => {
            let mc = m.deep_clone();
            proof {
                crate::json::lemma_json_eq_symm(t.meta->0, mc);
            }
            fs.push((String::from_str("_meta"), mc));
        },
        None => {},
    }
    let r = JsonValue::Obj(fs);
    proof {
        reveal_strlit("uri");
        reveal_strlit("name");
        reveal_strlit("description");
        reveal_strlit("mimeType");
        reveal_strlit("_meta");
        assert("uri"@.len() == 3);
        assert("name"@.len() == 4);
        assert("description"@.len() == 11);
        assert("mimeType"@.len() == 8);
        assert("_meta"@.len() == 5);
        let fsv = r->Obj_0@;
        let di: int = if t.description is Some { 1int } else { 0int };
        let mi: int = if t.mime_type is Some { 1int } else { 0int };
        lemma_obj_lookup_at(fsv, "uri"@, 0);
        lemma_obj_lookup_at(fsv, "name"@, 1);
        if t.description is Some {
            lemma_obj_lookup_at(fsv, "description"@, 2);
        } else {
            lemma_obj_lookup_absent(fsv, "description"@);
        }
        if t.mime_type is Some {
            lemma_obj_lookup_at(fsv, "mimeType"@, 2 + di);
        } else {
            lemma_obj_lookup_absent(fsv, "mimeType"@);
        }
        if t.meta is Some {
            lemma_obj_lookup_at(fsv, "_meta"@, 2 + di + mi);
        } else {
            lemma_obj_lookup_absent(fsv, "_meta"@);
        }
    }
    r
}

/// Encode a `tools/list` result as `{"tools": [...]}`.
pub fn list_tools_to_value(res: &ListToolsResult) -> (r: JsonValue)
    requires
        forall|i: int| 0 <= i < res.tools@.len() ==> tool_wire_ready(#[trigger] res.tools@[i]),
    ensures
        list_tools_value_ok(r),
        list_tools_value_matches(r, res.tools@),
{
    let n = res.tools.len();
    let mut entries: Vec<JsonValue> = Vec::new();
    let mut i: usize = 0;
    while i < n
        invariant
            0 <= i <= n,
            n == res.tools@.len(),
            entries@.len() == i,
            forall|j: int|
                0 <= j < res.tools@.len() ==> tool_wire_ready(#[trigger] res.tools@[j]),
            forall|j: int|
                0 <= j < i ==> tool_value_ok(#[trigger] entries@[j]) && tool_matches(
                    entries@[j],
                    res.tools@[j],
                ),
        decreases n - i,
    {
        let v = tool_to_value(&res.tools[i]);
        entries.push(v);
        i = i + 1;
    }
    let mut fs: Vec<(String, JsonValue)> = Vec::new();
    fs.push((String::from_str("tools"), JsonValue::Arr(entries)));
    let r = JsonValue::Obj(fs);
    proof {
        lemma_obj_lookup_at(r->Obj_0@, "tools"@, 0);
    }
    r
}

/// Encode a `resources/list` result as `{"resources": [...]}`.
pub fn list_resources_to_value(res: &ListResourcesResult) -> (r: JsonValue)
    requires
        forall|i: int|
            0 <= i < res.resources@.len() ==> resource_wire_ready(#[trigger] res.resources@[i]),
    ensures
        list_resources_value_ok(r),
        list_resources_value_matches(r, res.resources@),
{
    let n = res.resources.len();
    let mut entries: Vec<JsonValue> = Vec::new();
    let mut i: usize = 0;
    while i < n
        invariant
            0 <= i <= n,
            n == res.resources@.len(),
            entries@.len() == i,
            forall|j: int|
                0 <= j < res.resources@.len() ==> resource_wire_ready(
                    #[trigger] res.resources@[j],
                ),
            forall|j: int|
                0 <= j < i ==> resource_value_ok(#[trigger] entries@[j]) && resource_matches(
                    entries@[j],
                    res.resources@[j],
                ),
        decreases n - i,
    {
        let v = resource_to_value(&res.resources[i]);
        entries.push(v);
        i = i + 1;
    }
    let mut fs: Vec<(String, JsonValue)> = Vec::new();
    fs.push((String::from_str("resources"), JsonValue::Arr(entries)));
    let r = JsonValue::Obj(fs);
    proof {
        lemma_obj_lookup_at(r->Obj_0@, "resources"@, 0);
    }
    r
}

/// Two tools that read alike: same name, title, description, schema and
/// metadata.
pub open spec fn spec_tool_like(a: Tool, b: Tool) -> bool {
    &&& a.name@ == b.name@
    &&& match (a.title, b.title) {
        (Some(x), Some(y)) => x@ == y@,
        (None, None) => true,
        _ => false,
    }
    &&& match (a.description, b.description) {
        (Some(x), Some(y)) => x@ == y@,
        (None, None) => true,
        _ => false,
    }
    &&& json_eq(a.input_schema, b.input_schema)
    &&& match (a.meta, b.meta) {
        (Some(x), Some(y)) => json_eq(x, y),
        (None, None) => true,
        _ => false,
    }
}

impl Clone for Tool {
    /// A clone reads like its original.
    fn clone(&self) -> (r: Self)
        ensures
            spec_tool_like(*self, r),
    {
        Tool {
            name: self.name.clone(),
            title: match &self.title {
                Some(t) => Some(t.clone()),
                None => None,
            },
            description: match &self.description {
                Some(d) => Some(d.clone()),
                None => None,
            },
            input_schema: self.input_schema.deep_clone(),
            meta: match &self.meta {
                Some(m) => Some(m.deep_clone()),
                None => None,
            },
        }
    }
}

/// A content entry of a tool result: an object whose `text` member is a
/// string.
pub open spec fn content_entry_ok(v: JsonValue) -> bool {
    spec_get(v, "text"@) matches Some(x) && x is Str
}

/// The decoded content block `t` reads the entry's `text` member.
pub open spec fn content_entry_text(v: JsonValue, t: Content) -> bool {
    &&& t matches Content::Text(s)
    &&& spec_get(v, "text"@) matches Some(JsonValue::Str(x)) && s@ == x@
}

/// A wire value decodes as a tool call result when its `content`, if
/// present and not `null`, is an array of text entries, and its `isError`,
/// if present, is a boolean or `null`.
pub open spec fn call_tool_result_value_ok(v: JsonValue) -> bool {
    &&& match spec_get(v, "content"@) {
        None => true,
        Some(x) => x is Null || (x matches JsonValue::Arr(es) && forall|i: int|
            0 <= i < es@.len() ==> content_entry_ok(#[trigger] es@[i])),
    }
    &&& match spec_get(v, "isError"@) {
        None => true,
        Some(x) => x is Null || x is Bool,
    }
}

/// The decoded result `r` reads exactly the members of `v`: the text
/// blocks in order, the error flag, and the structured payload.
pub open spec fn call_tool_result_matches(v: JsonValue, r: CallToolResult) -> bool {
    &&& match spec_get(v, "content"@) {
        None => r.content@.len() == 0,
        Some(x) => if x is Null {
            r.content@.len() == 0
        } else {
            x matches JsonValue::Arr(es) && es@.len() == r.content@.len() && forall|i: int|
                0 <= i < es@.len() ==> content_entry_text(#[trigger] es@[i], r.content@[i])
        },
    }
    &&& r.is_error == (match spec_get(v, "isError"@) {
        Some(JsonValue::Bool(b)) => Some(b),
        _ => None,
    })
    &&& match spec_get(v, "structuredContent"@) {
        None => r.structured_content is None,
        Some(x) => if x is Null {
            r.structured_content is None
        } else {
            r.structured_content matches Some(q) && json_eq(x, q)
        },
    }
}

/// Decode a `tools/call` result from the wire, as a driver routing a live
/// call over a transport needs; fails when a present member has the wrong
/// shape.
pub fn parse_call_tool_result(v: &JsonValue) -> (r: Option<CallToolResult>)
    ensures
        match r {
            Some(res) => call_tool_result_value_ok(*v) && call_tool_result_matches(*v, res),
            None => !call_tool_result_value_ok(*v),
        },
{
    let mut content: Vec<Content> = Vec::new();
    match v.get("content") {
        None => {},
        Some(x) => {
            if x.is_null() {
            } else {
                match x {
                    JsonValue::Arr(es) => {
                        let n = es.len();
                        let mut i: usize = 0;
                        while i < n
                            invariant
                                0 <= i <= n,
                                n == es@.len(),
                                spec_get(*v, "content"@) == Some(JsonValue::Arr(*es)),
                                content@.len() == i,
                                forall|j: int|
                                    0 <= j < i ==> content_entry_ok(#[trigger] es@[j])
                                        && content_entry_text(es@[j], content@[j]),
                            decreases n - i,
                        {
                            match es[i].get("text") {
                                Some(t) => match t.as_str() {
                                    Some(text) => content.push(Content::Text(text.clone())),
                                    None => {
                                        proof {
                                            let es2 = spec_get(*v, "content"@)->0->Arr_0;
                                            if call_tool_result_value_ok(*v) {
                                                assert(content_entry_ok(es2@[i as int]));
                                            }
                                        }
                                        return None;
                                    },
                                },
                                None => {
                                    proof {
                                        let es2 = spec_get(*v, "content"@)->0->Arr_0;
                                        if call_tool_result_value_ok(*v) {
                                            assert(content_entry_ok(es2@[i as int]));
                                        }
                                    }
                                    return None;
                                },
                            }
                            i = i + 1;
                        }
                    },
                    _ => {
                        return None;
                    },
                }
            }
        },
    }
    let is_error = match v.get("isError") {
        None => None,
        Some(x) => match x.as_bool() {
            Some(b) => Some(b),
            None => {
                if x.is_null() {
                    None
                } else {
                    return None;
                }
            },
        },
    };
    let structured_content = match v.get("structuredContent") {
        None => None,
        Some(x) => {
            if x.is_null() {
                None
            } else {
                Some(x.deep_clone())
            }
        },
    };
    Some(CallToolResult { content, is_error, structured_content })
}

} // verus!
