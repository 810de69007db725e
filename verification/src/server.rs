//! The embedded server.
//!
//! A same-process server speaking the server protocol over the in-memory
//! transport pair: it answers `initialize`, `tools/list` and
//! `resources/list`, runs tool calls, and serves UI resource content.  Its
//! tools and resources are fixed demo declarations; what matters here is the
//! dispatch, the reply envelopes and the id echo.

use vstd::prelude::*;

use crate::json::{
    json_eq, lemma_obj_lookup_absent, lemma_obj_lookup_at, spec_get, JsonValue,
};
use crate::jsonrpc::{string_member};
use crate::model::{
    list_resources_to_value, list_tools_to_value, list_resources_value_ok, list_tools_value_ok,
    resource_wire_ready, tool_wire_ready, CallToolResult, Content, ListResourcesResult,
    ListToolsResult, ReadResourceResult, Resource, ResourceContents, Tool,
};
use crate::resources::spec_is_ui_uri;
use crate::strutil::str_eq;

verus! {

/// The identity the embedded server reports.
pub struct EmbeddedServerInfo {
    pub name: String,
    pub version: String,
}

/// The embedded server.
pub struct EmbeddedServer {
    pub server_info: EmbeddedServerInfo,
}

/// A reply's `id` member echoes the incoming message's `id`, with `null`
/// standing in when the incoming message carried none.
pub open spec fn spec_reply_id_echo(msg: JsonValue, v: JsonValue) -> bool {
    match spec_get(msg, "id"@) {
        Some(x) => spec_get(v, "id"@) matches Some(y) && json_eq(x, y),
        None => spec_get(v, "id"@) matches Some(y) && y is Null,
    }
}

/// A successful reply envelope: version, id echo, a `result` member and no
/// `error`.
pub open spec fn spec_success_reply(msg: JsonValue, v: JsonValue) -> bool {
    &&& string_member(v, "jsonrpc"@, "2.0"@)
    &&& spec_reply_id_echo(msg, v)
    &&& spec_get(v, "result"@) is Some
    &&& spec_get(v, "error"@) is None
}

/// An error reply envelope: version, id echo, no `result`, and an error
/// object with the given code.
pub open spec fn spec_error_reply(msg: JsonValue, v: JsonValue, code: i64) -> bool {
    &&& string_member(v, "jsonrpc"@, "2.0"@)
    &&& spec_reply_id_echo(msg, v)
    &&& spec_get(v, "result"@) is None
    &&& spec_get(v, "error"@) matches Some(e) && spec_get(e, "code"@) == Some(
        JsonValue::Int(code),
    ) && crate::jsonrpc::has_string_member(e, "message"@)
}

/// Build a successful reply to `msg` carrying `result`.
fn make_reply(msg: &JsonValue, result: JsonValue) -> (r: JsonValue)
    ensures
        spec_success_reply(*msg, r),
        spec_get(r, "result"@) == Some(result),
        crate::jsonrpc::response_value_ok(r),
{
    let idv = match msg.get("id") {
        Some(x) => x.deep_clone(),
        None => JsonValue::Null,
    };
    let mut fs: Vec<(String, JsonValue)> = Vec::new();
    fs.push((String::from_str("jsonrpc"), JsonValue::Str(String::from_str("2.0"))));
    fs.push((String::from_str("id"), idv));
    fs.push((String::from_str("result"), result));
    let r = JsonValue::Obj(fs);
    proof {
        reveal_strlit("jsonrpc");
        reveal_strlit("id");
        reveal_strlit("result");
        reveal_strlit("error");
        assert("jsonrpc"@.len() == 7);
        assert("id"@.len() == 2);
        assert("result"@.len() == 6);
        assert("error"@.len() == 5);
        let fsv = r->Obj_0@;
        lemma_obj_lookup_at(fsv, "jsonrpc"@, 0);
        lemma_obj_lookup_at(fsv, "id"@, 1);
        lemma_obj_lookup_at(fsv, "result"@, 2);
        lemma_obj_lookup_absent(fsv, "error"@);
    }
    r
}

/// Build an error reply to `msg` with the given code and message.
fn make_error_reply(msg: &JsonValue, code: i32, message: &str) -> (r: JsonValue)
    ensures
        spec_error_reply(*msg, r, code as i64),
        crate::jsonrpc::response_value_ok(r),
{
    let idv = match msg.get("id") {
        Some(x) => x.deep_clone(),
        None => JsonValue::Null,
    };
    let mut err: Vec<(String, JsonValue)> = Vec::new();
    err.push((String::from_str("code"), JsonValue::Int(code as i64)));
    err.push((String::from_str("message"), JsonValue::Str(String::from_str(message))));
    let errv = JsonValue::Obj(err);
    proof {
        reveal_strlit("code");
        reveal_strlit("message");
        assert("code"@.len() == 4);
        assert("message"@.len() == 7);
        lemma_obj_lookup_at(errv->Obj_0@, "code"@, 0);
        lemma_obj_lookup_at(errv->Obj_0@, "message"@, 1);
    }
    let mut fs: Vec<(String, JsonValue)> = Vec::new();
    fs.push((String::from_str("jsonrpc"), JsonValue::Str(String::from_str("2.0"))));
    fs.push((String::from_str("id"), idv));
    fs.push((String::from_str("error"), errv));
    let r = JsonValue::Obj(fs);
    proof {
        reveal_strlit("jsonrpc");
        reveal_strlit("id");
        reveal_strlit("result");
        reveal_strlit("error");
        assert("jsonrpc"@.len() == 7);
        assert("id"@.len() == 2);
        assert("result"@.len() == 6);
        assert("error"@.len() == 5);
        let fsv = r->Obj_0@;
        lemma_obj_lookup_at(fsv, "jsonrpc"@, 0);
        lemma_obj_lookup_at(fsv, "id"@, 1);
        lemma_obj_lookup_at(fsv, "error"@, 2);
        lemma_obj_lookup_absent(fsv, "result"@);
    }
    r
}

/// A tool's metadata links it to the UI resource at `uri`.
pub open spec fn spec_tool_ui_uri(t: Tool, uri: Seq<char>) -> bool {
    &&& t.meta matches Some(m)
    &&& spec_get(m, "ui"@) matches Some(u)
    &&& spec_get(u, "resourceUri"@) matches Some(JsonValue::Str(s)) && s@ == uri
}

/// The visibility list of a metadata value's `ui` block: `["app"]` for an
/// app-only declaration, `["model", "app"]` otherwise.
pub open spec fn spec_meta_visibility(m: JsonValue, app_only: bool) -> bool {
    &&& spec_get(m, "ui"@) matches Some(u)
    &&& spec_get(u, "visibility"@) matches Some(JsonValue::Arr(vs))
    &&& if app_only {
        vs@.len() == 1 && (vs@[0] matches JsonValue::Str(a) && a@ == "app"@)
    } else {
        vs@.len() == 2 && (vs@[0] matches JsonValue::Str(a) && a@ == "model"@) && (vs@[1] matches
        JsonValue::Str(b) && b@ == "app"@)
    }
}

/// A tool's metadata marks it app-only or model-and-app visible.
pub open spec fn spec_tool_visibility(t: Tool, app_only: bool) -> bool {
    t.meta matches Some(m) && spec_meta_visibility(m, app_only)
}

/// Build the `{"ui": {"resourceUri": ..., "visibility": [...]}}` metadata
/// of a tool; an app-only tool is hidden from the model.
fn ui_meta(resource_uri: &str, app_only: bool) -> (m: JsonValue)
    ensures
        m is Obj,
        spec_get(m, "ui"@) matches Some(u) && spec_get(u, "resourceUri"@) matches Some(
            JsonValue::Str(s),
        ) && s@ == resource_uri@,
        spec_meta_visibility(m, app_only),
{
    let mut vis: Vec<JsonValue> = Vec::new();
    if !app_only {
        vis.push(JsonValue::Str(String::from_str("model")));
    }
    vis.push(JsonValue::Str(String::from_str("app")));
    let mut inner: Vec<(String, JsonValue)> = Vec::new();
    inner.push((String::from_str("resourceUri"), JsonValue::Str(String::from_str(resource_uri))));
    inner.push((String::from_str("visibility"), JsonValue::Arr(vis)));
    let innerv = JsonValue::Obj(inner);
    proof {
        reveal_strlit("resourceUri");
        reveal_strlit("visibility");
        assert("resourceUri"@.len() == 11);
        assert("visibility"@.len() == 10);
        lemma_obj_lookup_at(innerv->Obj_0@, "resourceUri"@, 0);
        lemma_obj_lookup_at(innerv->Obj_0@, "visibility"@, 1);
    }
    let mut outer: Vec<(String, JsonValue)> = Vec::new();
    outer.push((String::from_str("ui"), innerv));
    let m = JsonValue::Obj(outer);
    proof {
        lemma_obj_lookup_at(m->Obj_0@, "ui"@, 0);
    }
    m
}

/// A plain `{"type": "object"}` input schema.
fn object_schema() -> (r: JsonValue)
    ensures
        r is Obj,
{
    let mut fs: Vec<(String, JsonValue)> = Vec::new();
    fs.push((String::from_str("type"), JsonValue::Str(String::from_str("object"))));
    JsonValue::Obj(fs)
}

/// The string argument at `key`, or `default` when the member is missing
/// or not a string.
pub open spec fn spec_str_arg_or(args: JsonValue, key: Seq<char>, default: Seq<char>) -> Seq<
    char,
> {
    match spec_get(args, key) {
        Some(JsonValue::Str(s)) => s@,
        _ => default,
    }
}

/// What a weather tool call returns for `args`: no tool-side error, one
/// text block reading `Sunny, 25°C in <location>`, and a structured payload
/// whose `location` member echoes the `location` argument (or `Unknown`)
/// beside the fixed temperature and conditions.
pub open spec fn spec_weather_result(args: JsonValue, res: CallToolResult) -> bool {
    &&& res.is_error is None
    &&& res.content@.len() == 1
    &&& res.content@[0] matches Content::Text(t) && t@ == "Sunny, 25\u{b0}C in "@
        + spec_str_arg_or(args, "location"@, "Unknown"@)
    &&& res.structured_content matches Some(sc)
    &&& spec_get(sc, "temp"@) == Some(JsonValue::Int(25i64))
    &&& spec_get(sc, "conditions"@) matches Some(JsonValue::Str(w)) && w@ == "Sunny"@
    &&& spec_get(sc, "location"@) matches Some(JsonValue::Str(l)) && l@ == spec_str_arg_or(
        args,
        "location"@,
        "Unknown"@,
    )
}

/// What `create_note` returns for `args`: a confirmation text block and a
/// structured payload echoing the note's title and content, with a fresh
/// 36-character id.
pub open spec fn spec_note_result(args: JsonValue, res: CallToolResult) -> bool {
    &&& res.is_error is None
    &&& res.structured_content matches Some(sc)
    &&& spec_get(sc, "title"@) matches Some(JsonValue::Str(t)) && t@ == spec_str_arg_or(
        args,
        "title"@,
        "New Note"@,
    )
    &&& spec_get(sc, "content"@) matches Some(JsonValue::Str(c)) && c@ == spec_str_arg_or(
        args,
        "content"@,
        ""@,
    )
    &&& spec_get(sc, "id"@) matches Some(JsonValue::Str(i)) && i@.len() == 36
}

impl EmbeddedServer {
    /// A fresh embedded server.
    pub fn new() -> (r: Self)
        ensures
            r.server_info.name@ == "mcp-apps-embedded-server"@,
            r.server_info.version@ == "0.1.0"@,
    {
        EmbeddedServer {
            server_info: EmbeddedServerInfo {
                name: String::from_str("mcp-apps-embedded-server"),
                version: String::from_str("0.1.0"),
            },
        }
    }

    /// The capability block the server declares: the apps extension, and
    /// list-changed notifications for tools and resources.
    pub fn get_capabilities(&self) -> (r: JsonValue)
        ensures
            crate::capabilities::spec_has_ui_block(r),
            crate::capabilities::spec_cap_block(r, "tools"@) == Some(Some(true)),
            crate::capabilities::spec_cap_block(r, "resources"@) == Some(Some(true)),
    {
        let mut modes: Vec<JsonValue> = Vec::new();
        modes.push(JsonValue::Str(String::from_str("inline")));
        modes.push(JsonValue::Str(String::from_str("fullscreen")));
        let mut ui: Vec<(String, JsonValue)> = Vec::new();
        ui.push((String::from_str("supportedDisplayModes"), JsonValue::Arr(modes)));
        ui.push((String::from_str("supportsSandboxing"), JsonValue::Bool(true)));
        let uiv = JsonValue::Obj(ui);
        let mut exp: Vec<(String, JsonValue)> = Vec::new();
        exp.push((String::from_str("io.modelcontextprotocol/ui"), uiv));
        let expv = JsonValue::Obj(exp);
        let mut tools: Vec<(String, JsonValue)> = Vec::new();
        tools.push((String::from_str("listChanged"), JsonValue::Bool(true)));
        let toolsv = JsonValue::Obj(tools);
        let mut ress: Vec<(String, JsonValue)> = Vec::new();
        ress.push((String::from_str("listChanged"), JsonValue::Bool(true)));
        let ressv = JsonValue::Obj(ress);
        let mut fs: Vec<(String, JsonValue)> = Vec::new();
        fs.push((String::from_str("experimental"), expv));
        fs.push((String::from_str("tools"), toolsv));
        fs.push((String::from_str("resources"), ressv));
        let r = JsonValue::Obj(fs);
        proof {
            reveal_strlit("experimental");
            reveal_strlit("tools");
            reveal_strlit("resources");
            reveal_strlit("listChanged");
            reveal_strlit("io.modelcontextprotocol/ui");
            assert("experimental"@.len() == 12);
            assert("tools"@.len() == 5);
            assert("resources"@.len() == 9);
            let fsv = r->Obj_0@;
            lemma_obj_lookup_at(fsv, "experimental"@, 0);
            lemma_obj_lookup_at(fsv, "tools"@, 1);
            lemma_obj_lookup_at(fsv, "resources"@, 2);
            lemma_obj_lookup_at(expv->Obj_0@, "io.modelcontextprotocol/ui"@, 0);
            lemma_obj_lookup_at(toolsv->Obj_0@, "listChanged"@, 0);
            lemma_obj_lookup_at(ressv->Obj_0@, "listChanged"@, 0);
        }
        r
    }

    /// The server's identity block.
    pub fn get_server_info(&self) -> (r: JsonValue)
        ensures
            string_member(r, "name"@, self.server_info.name@),
            string_member(r, "version"@, self.server_info.version@),
    {
        let mut fs: Vec<(String, JsonValue)> = Vec::new();
        fs.push((String::from_str("name"), JsonValue::Str(self.server_info.name.clone())));
        fs.push((String::from_str("version"), JsonValue::Str(self.server_info.version.clone())));
        let r = JsonValue::Obj(fs);
        proof {
            reveal_strlit("name");
            reveal_strlit("version");
            assert("name"@.len() == 4);
            assert("version"@.len() == 7);
            lemma_obj_lookup_at(r->Obj_0@, "name"@, 0);
            lemma_obj_lookup_at(r->Obj_0@, "version"@, 1);
        }
        r
    }

    /// Answer an `initialize` request: the protocol version, the server's
    /// capabilities and its identity.  Every parameter value is accepted.
    pub fn handle_initialize(&self, params: &JsonValue) -> (r: Result<JsonValue, String>)
        ensures
            r matches Ok(v) && spec_init_result_ok(*self, v),
    {
        let _ = params;
        let caps = self.get_capabilities();
        let info = self.get_server_info();
        let mut fs: Vec<(String, JsonValue)> = Vec::new();
        fs.push((
            String::from_str("protocolVersion"),
            JsonValue::Str(String::from_str("2026-01-26")),
        ));
        fs.push((String::from_str("capabilities"), caps));
        fs.push((String::from_str("serverInfo"), info));
        let r = JsonValue::Obj(fs);
        proof {
            reveal_strlit("protocolVersion");
            reveal_strlit("capabilities");
            reveal_strlit("serverInfo");
            assert("protocolVersion"@.len() == 15);
            assert("capabilities"@.len() == 12);
            assert("serverInfo"@.len() == 10);
            let fsv = r->Obj_0@;
            lemma_obj_lookup_at(fsv, "protocolVersion"@, 0);
            lemma_obj_lookup_at(fsv, "capabilities"@, 1);
            lemma_obj_lookup_at(fsv, "serverInfo"@, 2);
        }
        Ok(r)
    }

    /// The five demo tools, each linked to a UI resource through its
    /// metadata; `refresh_weather` is app-only.
    pub fn list_tools(&self) -> (r: Result<ListToolsResult, String>)
        ensures
            r matches Ok(res) && {
                let ts = res.tools@;
                &&& ts.len() == 5
                &&& forall|i: int| 0 <= i < 5 ==> tool_wire_ready(#[trigger] ts[i])
                &&& ts[0].name@ == "get_weather"@
                &&& ts[1].name@ == "get_portfolio"@
                &&& ts[2].name@ == "get_system_status"@
                &&& ts[3].name@ == "create_note"@
                &&& ts[4].name@ == "refresh_weather"@
                &&& spec_tool_ui_uri(ts[0], "ui://weather-server/dashboard"@)
                &&& spec_tool_ui_uri(ts[1], "ui://portfolio-server/gallery"@)
                &&& spec_tool_ui_uri(ts[2], "ui://system-server/status"@)
                &&& spec_tool_ui_uri(ts[3], "ui://notes-server/editor"@)
                &&& spec_tool_ui_uri(ts[4], "ui://weather-server/dashboard"@)
                &&& forall|i: int| 0 <= i < 4 ==> spec_tool_visibility(#[trigger] ts[i], false)
                &&& spec_tool_visibility(ts[4], true)
            },
    {
        let mut tools: Vec<Tool> = Vec::new();
        tools.push(Tool {
            name: String::from_str("get_weather"),
            title: Some(String::from_str("Get Weather")),
            description: Some(String::from_str("Get current weather for a location")),
            input_schema: object_schema(),
            meta: Some(ui_meta("ui://weather-server/dashboard", false)),
        });
        tools.push(Tool {
            name: String::from_str("get_portfolio"),
            title: Some(String::from_str("Portfolio Gallery")),
            description: Some(String::from_str("View professional portfolio")),
            input_schema: object_schema(),
            meta: Some(ui_meta("ui://portfolio-server/gallery", false)),
        });
        tools.push(Tool {
            name: String::from_str("get_system_status"),
            title: Some(String::from_str("System Status")),
            description: Some(String::from_str("Monitor system performance metrics")),
            input_schema: object_schema(),
            meta: Some(ui_meta("ui://system-server/status", false)),
        });
        tools.push(Tool {
            name: String::from_str("create_note"),
            title: Some(String::from_str("Create Note")),
            description: Some(String::from_str("Create a new sticky note")),
            input_schema: object_schema(),
            meta: Some(ui_meta("ui://notes-server/editor", false)),
        });
        tools.push(Tool {
            name: String::from_str("refresh_weather"),
            title: Some(String::from_str("Refresh Weather")),
            description: Some(String::from_str("Refresh weather data (app-only)")),
            input_schema: object_schema(),
            meta: Some(ui_meta("ui://weather-server/dashboard", true)),
        });
        Ok(ListToolsResult { tools })
    }

    /// The four demo UI resources; every URI uses the `ui://` scheme and
    /// the recommended mime type.
    pub fn list_resources(&self) -> (r: Result<ListResourcesResult, String>)
        ensures
            r matches Ok(res) && {
                let rs = res.resources@;
                &&& rs.len() == 4
                &&& forall|i: int| 0 <= i < 4 ==> resource_wire_ready(#[trigger] rs[i])
                &&& rs[0].uri@ == "ui://weather-server/dashboard"@
                &&& rs[1].uri@ == "ui://portfolio-server/gallery"@
                &&& rs[2].uri@ == "ui://system-server/status"@
                &&& rs[3].uri@ == "ui://notes-server/editor"@
                &&& forall|i: int| 0 <= i < 4 ==> spec_is_ui_uri((#[trigger] rs[i]).uri@)
                &&& forall|i: int|
                    0 <= i < 4 ==> ((#[trigger] rs[i]).mime_type matches Some(m) && (m@
                        == "text/html;profile=mcp-app"@))
            },
    {
        let mime = "text/html;profile=mcp-app";
        let mut resources: Vec<Resource> = Vec::new();
        resources.push(Resource {
            uri: String::from_str("ui://weather-server/dashboard"),
            name: String::from_str("Weather Dashboard"),
            description: Some(String::from_str("Interactive weather visualization dashboard")),
            mime_type: Some(String::from_str(mime)),
            meta: Some(ui_details_meta(true)),
        });
        resources.push(Resource {
            uri: String::from_str("ui://portfolio-server/gallery"),
            name: String::from_str("Portfolio Gallery"),
            description: Some(String::from_str("Professional portfolio gallery view")),
            mime_type: Some(String::from_str(mime)),
            meta: Some(ui_details_meta(false)),
        });
        resources.push(Resource {
            uri: String::from_str("ui://system-server/status"),
            name: String::from_str("System Status"),
            description: Some(String::from_str("System performance monitor")),
            mime_type: Some(String::from_str(mime)),
            meta: Some(ui_details_meta(false)),
        });
        resources.push(Resource {
            uri: String::from_str("ui://notes-server/editor"),
            name: String::from_str("Note Editor"),
            description: Some(String::from_str("Note creation interface")),
            mime_type: Some(String::from_str(mime)),
            meta: Some(ui_details_meta(false)),
        });
        proof {
            reveal_strlit("ui://weather-server/dashboard");
            reveal_strlit("ui://portfolio-server/gallery");
            reveal_strlit("ui://system-server/status");
            reveal_strlit("ui://notes-server/editor");
            reveal_strlit("ui://");
            assert(spec_is_ui_uri("ui://weather-server/dashboard"@)) by {
                assert("ui://weather-server/dashboard"@.subrange(0, 5) =~= "ui://"@);
            }
            assert(spec_is_ui_uri("ui://portfolio-server/gallery"@)) by {
                assert("ui://portfolio-server/gallery"@.subrange(0, 5) =~= "ui://"@);
            }
            assert(spec_is_ui_uri("ui://system-server/status"@)) by {
                assert("ui://system-server/status"@.subrange(0, 5) =~= "ui://"@);
            }
            assert(spec_is_ui_uri("ui://notes-server/editor"@)) by {
                assert("ui://notes-server/editor"@.subrange(0, 5) =~= "ui://"@);
            }
        }
        Ok(ListResourcesResult { resources })
    }
}

/// The result of `initialize`: protocol version, a capability block that
/// declares the apps extension and both notification flags, and the
/// server's identity.
pub open spec fn spec_init_result_ok(srv: EmbeddedServer, v: JsonValue) -> bool {
    &&& string_member(v, "protocolVersion"@, "2026-01-26"@)
    &&& spec_get(v, "capabilities"@) matches Some(c) && crate::capabilities::spec_has_ui_block(c)
        && crate::capabilities::spec_cap_block(c, "tools"@) == Some(Some(true))
        && crate::capabilities::spec_cap_block(c, "resources"@) == Some(Some(true))
    &&& spec_get(v, "serverInfo"@) matches Some(si) && string_member(
        si,
        "name"@,
        srv.server_info.name@,
    ) && string_member(si, "version"@, srv.server_info.version@)
}

/// Build the `{"ui": {...}}` metadata of a resource declaration; the
/// weather resource also names an approved connect domain.
fn ui_details_meta(with_csp: bool) -> (m: JsonValue)
    ensures
        m is Obj,
{
    let mut inner: Vec<(String, JsonValue)> = Vec::new();
    if with_csp {
        let mut domains: Vec<JsonValue> = Vec::new();
        domains.push(JsonValue::Str(String::from_str("https://api.openweathermap.org")));
        let mut csp: Vec<(String, JsonValue)> = Vec::new();
        csp.push((String::from_str("connectDomains"), JsonValue::Arr(domains)));
        inner.push((String::from_str("csp"), JsonValue::Obj(csp)));
    }
    inner.push((String::from_str("prefersBorder"), JsonValue::Bool(true)));
    let mut outer: Vec<(String, JsonValue)> = Vec::new();
    outer.push((String::from_str("ui"), JsonValue::Obj(inner)));
    JsonValue::Obj(outer)
}

/// A demo payload: no tool-side error and a structured object.
pub open spec fn spec_demo_payload(res: CallToolResult) -> bool {
    &&& res.is_error is None
    &&& res.structured_content matches Some(x) && x is Obj
}

/// One forecast entry.
fn forecast_day(day: &str, high: i64, low: i64, conditions: &str) -> (r: JsonValue) {
    let mut fs: Vec<(String, JsonValue)> = Vec::new();
    fs.push((String::from_str("day"), JsonValue::Str(String::from_str(day))));
    fs.push((String::from_str("high"), JsonValue::Int(high)));
    fs.push((String::from_str("low"), JsonValue::Int(low)));
    fs.push((String::from_str("conditions"), JsonValue::Str(String::from_str(conditions))));
    JsonValue::Obj(fs)
}

/// The weather tools' result for the given arguments.
fn weather_call(args: &JsonValue) -> (r: CallToolResult)
    ensures
        spec_weather_result(*args, r),
{
    let location: String = match args.get("location") {
        Some(x) => match x.as_str() {
            Some(s) => s.clone(),
            None => String::from_str("Unknown"),
        },
        None => String::from_str("Unknown"),
    };
    let mut text = String::from_str("Sunny, 25\u{b0}C in ");
    text.append(location.as_str());
    let mut forecast: Vec<JsonValue> = Vec::new();
    forecast.push(forecast_day("Today", 25, 18, "Sunny"));
    forecast.push(forecast_day("Tomorrow", 23, 17, "Partly Cloudy"));
    forecast.push(forecast_day("Wednesday", 22, 16, "Cloudy"));
    let mut sc: Vec<(String, JsonValue)> = Vec::new();
    sc.push((String::from_str("temp"), JsonValue::Int(25)));
    sc.push((String::from_str("conditions"), JsonValue::Str(String::from_str("Sunny"))));
    sc.push((String::from_str("location"), JsonValue::Str(location)));
    sc.push((String::from_str("humidity"), JsonValue::Int(45)));
    sc.push((String::from_str("wind_speed"), JsonValue::Int(12)));
    sc.push((String::from_str("forecast"), JsonValue::Arr(forecast)));
    let scv = JsonValue::Obj(sc);
    proof {
        reveal_strlit("temp");
        reveal_strlit("conditions");
        reveal_strlit("location");
        assert("temp"@.len() == 4);
        assert("conditions"@.len() == 10);
        assert("location"@.len() == 8);
        lemma_obj_lookup_at(scv->Obj_0@, "temp"@, 0);
        lemma_obj_lookup_at(scv->Obj_0@, "conditions"@, 1);
        lemma_obj_lookup_at(scv->Obj_0@, "location"@, 2);
    }
    let mut content: Vec<Content> = Vec::new();
    content.push(Content::Text(text));
    CallToolResult { content, is_error: None, structured_content: Some(scv) }
}

/// The note tool's result for the given arguments.
fn note_call(args: &JsonValue) -> (r: CallToolResult)
    ensures
        spec_note_result(*args, r),
{
    let title: String = match args.get("title") {
        Some(x) => match x.as_str() {
            Some(s) => s.clone(),
            None => String::from_str("New Note"),
        },
        None => String::from_str("New Note"),
    };
    let body: String = match args.get("content") {
        Some(x) => match x.as_str() {
            Some(s) => s.clone(),
            None => String::new(),
        },
        None => String::new(),
    };
    let id = crate::idgen::fresh_uuid();
    let mut sc: Vec<(String, JsonValue)> = Vec::new();
    sc.push((String::from_str("title"), JsonValue::Str(title)));
    sc.push((String::from_str("content"), JsonValue::Str(body)));
    sc.push((String::from_str("created_at"), JsonValue::Str(String::from_str("Just now"))));
    sc.push((String::from_str("id"), JsonValue::Str(id)));
    let scv = JsonValue::Obj(sc);
    proof {
        reveal_strlit("title");
        reveal_strlit("content");
        reveal_strlit("created_at");
        reveal_strlit("id");
        reveal_strlit("");
        assert(""@ =~= Seq::<char>::empty());
        assert("title"@.len() == 5);
        assert("content"@.len() == 7);
        assert("created_at"@.len() == 10);
        assert("id"@.len() == 2);
        lemma_obj_lookup_at(scv->Obj_0@, "title"@, 0);
        lemma_obj_lookup_at(scv->Obj_0@, "content"@, 1);
        lemma_obj_lookup_at(scv->Obj_0@, "id"@, 3);
    }
    let mut content: Vec<Content> = Vec::new();
    content.push(Content::text("Note created"));
    CallToolResult { content, is_error: None, structured_content: Some(scv) }
}

/// A named project entry of the portfolio payload.
fn portfolio_project(name: &str, desc: &str, stars: i64) -> (r: JsonValue) {
    let mut fs: Vec<(String, JsonValue)> = Vec::new();
    fs.push((String::from_str("name"), JsonValue::Str(String::from_str(name))));
    fs.push((String::from_str("desc"), JsonValue::Str(String::from_str(desc))));
    fs.push((String::from_str("stars"), JsonValue::Int(stars)));
    JsonValue::Obj(fs)
}

/// The portfolio tool's result.
fn portfolio_call() -> (r: CallToolResult)
    ensures
        spec_demo_payload(r),
{
    let mut projects: Vec<JsonValue> = Vec::new();
    projects.push(portfolio_project(
        "MCP-Rust",
        "A Rust implementation of the Model Context Protocol.",
        128,
    ));
    projects.push(portfolio_project("Dioxus Dashboard", "A high-performance dashboard.", 256));
    projects.push(portfolio_project("Generative UI", "Dynamic UI generation from scripts.", 64));
    projects.push(
        portfolio_project("AI Agent", "An autonomous agent that builds applications.", 512),
    );
    let mut skills: Vec<JsonValue> = Vec::new();
    skills.push(JsonValue::Str(String::from_str("Rust")));
    skills.push(JsonValue::Str(String::from_str("TypeScript")));
    skills.push(JsonValue::Str(String::from_str("React")));
    skills.push(JsonValue::Str(String::from_str("MCP")));
    let mut sc: Vec<(String, JsonValue)> = Vec::new();
    sc.push((String::from_str("owner"), JsonValue::Str(String::from_str("Developer Portfolio"))));
    sc.push((
        String::from_str("bio"),
        JsonValue::Str(
            String::from_str("Full-stack developer specializing in Rust and web technologies"),
        ),
    ));
    sc.push((String::from_str("projects"), JsonValue::Arr(projects)));
    sc.push((String::from_str("skills"), JsonValue::Arr(skills)));
    CallToolResult {
        content: Vec::new(),
        is_error: None,
        structured_content: Some(JsonValue::Obj(sc)),
    }
}

/// One service row of the status payload.
fn status_service(name: &str, status: &str, latency: &str) -> (r: JsonValue) {
    let mut fs: Vec<(String, JsonValue)> = Vec::new();
    fs.push((String::from_str("name"), JsonValue::Str(String::from_str(name))));
    fs.push((String::from_str("status"), JsonValue::Str(String::from_str(status))));
    fs.push((String::from_str("latency"), JsonValue::Str(String::from_str(latency))));
    JsonValue::Obj(fs)
}

/// The system-status tool's result.
fn system_status_call() -> (r: CallToolResult)
    ensures
        spec_demo_payload(r),
{
    let mut services: Vec<JsonValue> = Vec::new();
    services.push(status_service("Database", "online", "12ms"));
    services.push(status_service("Web Server", "online", "4ms"));
    services.push(status_service("Auth Service", "online", "45ms"));
    services.push(status_service("Worker Node", "maintenance", "--"));
    let mut sc: Vec<(String, JsonValue)> = Vec::new();
    sc.push((String::from_str("cpu_usage"), JsonValue::Int(45)));
    sc.push((String::from_str("memory_usage"), JsonValue::Int(62)));
    sc.push((String::from_str("disk_usage"), JsonValue::Int(28)));
    sc.push((String::from_str("uptime"), JsonValue::Str(String::from_str("14d 2h 15m"))));
    sc.push((String::from_str("active_processes"), JsonValue::Int(142)));
    sc.push((String::from_str("services"), JsonValue::Arr(services)));
    CallToolResult {
        content: Vec::new(),
        is_error: None,
        structured_content: Some(JsonValue::Obj(sc)),
    }
}

impl EmbeddedServer {
    /// Run one of the demo tools.
    ///
    /// The weather tools echo the `location` argument into their structured
    /// payload; `create_note` echoes the note's title and content and mints
    /// a fresh id; the other tools return fixed structured payloads.  An
    /// unknown tool name fails with `Tool not found`.
    pub fn call_tool(&self, name: &str, arguments: &JsonValue) -> (r: Result<
        CallToolResult,
        String,
    >)
        ensures
            name@ == "get_weather"@ || name@ == "refresh_weather"@ ==> (r matches Ok(res)
                && spec_weather_result(*arguments, res)),
            name@ == "get_portfolio"@ ==> (r matches Ok(res) && spec_demo_payload(res)),
            name@ == "get_system_status"@ ==> (r matches Ok(res) && spec_demo_payload(res)),
            name@ == "create_note"@ ==> (r matches Ok(res) && spec_note_result(*arguments, res)),
            !(name@ == "get_weather"@ || name@ == "refresh_weather"@ || name@ == "get_portfolio"@
                || name@ == "get_system_status"@ || name@ == "create_note"@) ==> (r matches Err(e)
                && e@ == "Tool not found: "@ + name@),
    {
        proof {
            reveal_strlit("get_weather");
            reveal_strlit("refresh_weather");
            reveal_strlit("get_portfolio");
            reveal_strlit("get_system_status");
            reveal_strlit("create_note");
            assert("get_weather"@.len() == 11);
            assert("refresh_weather"@.len() == 15);
            assert("get_portfolio"@.len() == 13);
            assert("get_system_status"@.len() == 17);
            assert("create_note"@.len() == 11);
            assert("get_weather"@ != "create_note"@) by {
                if "get_weather"@ == "create_note"@ {
                    assert("get_weather"@[0] == "create_note"@[0]);
                }
            }
        }
        if str_eq(name, "get_weather") || str_eq(name, "refresh_weather") {
            Ok(weather_call(arguments))
        } else if str_eq(name, "get_portfolio") {
            Ok(portfolio_call())
        } else if str_eq(name, "get_system_status") {
            Ok(system_status_call())
        } else if str_eq(name, "create_note") {
            Ok(note_call(arguments))
        } else {
            let mut e = String::from_str("Tool not found: ");
            e.append(name);
            Err(e)
        }
    }

    /// Serve the content of one UI resource: its rendering script, tagged
    /// with the URI it was requested under.  An unknown URI fails with
    /// `Resource not found`.
    pub fn read_resource(&self, uri: &str) -> (r: Result<ReadResourceResult, String>)
        ensures
            (uri@ == "ui://weather-server/dashboard"@ || uri@ == "ui://portfolio-server/gallery"@
                || uri@ == "ui://system-server/status"@ || uri@ == "ui://notes-server/editor"@)
                ==> (r matches Ok(res) && res.contents@.len() == 1 && (res.contents@[0] matches
                ResourceContents::Text { uri: u, text: t } && u@ == uri@ && t@
                == spec_embedded_resource_text(uri@))),
            !(uri@ == "ui://weather-server/dashboard"@ || uri@ == "ui://portfolio-server/gallery"@
                || uri@ == "ui://system-server/status"@ || uri@ == "ui://notes-server/editor"@)
                ==> (r matches Err(e) && e@ == "Resource not found: "@ + uri@),
    {
        let script: &str = if str_eq(uri, "ui://weather-server/dashboard") {
            WEATHER_VIEW_SCRIPT
        } else if str_eq(uri, "ui://portfolio-server/gallery") {
            PORTFOLIO_VIEW_SCRIPT
        } else if str_eq(uri, "ui://system-server/status") {
            STATUS_VIEW_SCRIPT
        } else if str_eq(uri, "ui://notes-server/editor") {
            NOTES_VIEW_SCRIPT
        } else {
            let mut e = String::from_str("Resource not found: ");
            e.append(uri);
            return Err(e);
        };
        let mut contents: Vec<ResourceContents> = Vec::new();
        contents.push(ResourceContents::Text {
            uri: String::from_str(uri),
            text: String::from_str(script),
        });
        Ok(ReadResourceResult { contents })
    }

    /// Answer one message from the transport.
    ///
    /// `initialize`, `tools/list` and `resources/list` get success replies
    /// whose ids echo the request's; the `initialized` notification gets no
    /// reply; everything else, a missing method included, gets a
    /// `METHOD_NOT_FOUND` error reply.
    pub fn handle_message(&self, msg: &JsonValue) -> (r: Option<JsonValue>)
        ensures
            r is None <==> string_member(*msg, "method"@, "notifications/initialized"@),
            string_member(*msg, "method"@, "initialize"@) ==> (r matches Some(v)
                && spec_success_reply(*msg, v) && (spec_get(v, "result"@) matches Some(res)
                && spec_init_result_ok(*self, res)) && crate::jsonrpc::response_value_ok(v)),
            string_member(*msg, "method"@, "tools/list"@) ==> (r matches Some(v)
                && spec_success_reply(*msg, v) && (spec_get(v, "result"@) matches Some(res)
                && list_tools_value_ok(res) && spec_embedded_tools_value(res))
                && crate::jsonrpc::response_value_ok(v)),
            string_member(*msg, "method"@, "resources/list"@) ==> (r matches Some(v)
                && spec_success_reply(*msg, v) && (spec_get(v, "result"@) matches Some(res)
                && list_resources_value_ok(res) && spec_embedded_resources_value(res))
                && crate::jsonrpc::response_value_ok(v)),
            !(string_member(*msg, "method"@, "notifications/initialized"@) || string_member(
                *msg,
                "method"@,
                "initialize"@,
            ) || string_member(*msg, "method"@, "tools/list"@) || string_member(
                *msg,
                "method"@,
                "resources/list"@,
            )) ==> (r matches Some(v) && spec_error_reply(*msg, v, -32601i64)
                && crate::jsonrpc::response_value_ok(v)),
    {
        proof {
            reveal_strlit("notifications/initialized");
            reveal_strlit("initialize");
            reveal_strlit("tools/list");
            reveal_strlit("resources/list");
            assert("notifications/initialized"@.len() == 25);
            assert("initialize"@.len() == 10);
            assert("tools/list"@.len() == 10);
            assert("resources/list"@.len() == 14);
            assert("initialize"@ != "tools/list"@) by {
                if "initialize"@ == "tools/list"@ {
                    assert("initialize"@[0] == "tools/list"@[0]);
                }
            }
        }
        let method: Option<&String> = match msg.get("method") {
            Some(x) => x.as_str(),
            None => None,
        };
        match method {
            Some(m) => {
                if str_eq(m.as_str(), "notifications/initialized") {
                    return None;
                }
                if str_eq(m.as_str(), "initialize") {
                    let p = match msg.get("params") {
                        Some(x) => x.deep_clone(),
                        None => JsonValue::Null,
                    };
                    let res = match self.handle_initialize(&p) {
                        Ok(res) => res,
                        Err(_) => {
                            proof {
                                assert(false);
                            }
                            JsonValue::Null
                        },
                    };
                    return Some(make_reply(msg, res));
                }
                if str_eq(m.as_str(), "tools/list") {
                    let listing = match self.list_tools() {
                        Ok(res) => res,
                        Err(_) => {
                            proof {
                                assert(false);
                            }
                            ListToolsResult { tools: Vec::new() }
                        },
                    };
                    let resv = list_tools_to_value(&listing);
                    return Some(make_reply(msg, resv));
                }
                if str_eq(m.as_str(), "resources/list") {
                    let listing = match self.list_resources() {
                        Ok(res) => res,
                        Err(_) => {
                            proof {
                                assert(false);
                            }
                            ListResourcesResult { resources: Vec::new() }
                        },
                    };
                    let resv = list_resources_to_value(&listing);
                    return Some(make_reply(msg, resv));
                }
                Some(
                    make_error_reply(
                        msg,
                        crate::error_codes::METHOD_NOT_FOUND,
                        "Method not found",
                    ),
                )
            },
            None => Some(
                make_error_reply(msg, crate::error_codes::METHOD_NOT_FOUND, "Method not found"),
            ),
        }
    }
}

/// The wire shape of the embedded server's tools listing: five entries
/// under the known names, in order.
pub open spec fn spec_embedded_tools_value(res: JsonValue) -> bool {
    &&& spec_get(res, "tools"@) matches Some(JsonValue::Arr(es))
    &&& es@.len() == 5
    &&& string_member(es@[0], "name"@, "get_weather"@)
    &&& string_member(es@[1], "name"@, "get_portfolio"@)
    &&& string_member(es@[2], "name"@, "get_system_status"@)
    &&& string_member(es@[3], "name"@, "create_note"@)
    &&& string_member(es@[4], "name"@, "refresh_weather"@)
}

/// The wire shape of the embedded server's resources listing: four
/// entries under the known `ui://` URIs, in order.
pub open spec fn spec_embedded_resources_value(res: JsonValue) -> bool {
    &&& spec_get(res, "resources"@) matches Some(JsonValue::Arr(es))
    &&& es@.len() == 4
    &&& string_member(es@[0], "uri"@, "ui://weather-server/dashboard"@)
    &&& string_member(es@[1], "uri"@, "ui://portfolio-server/gallery"@)
    &&& string_member(es@[2], "uri"@, "ui://system-server/status"@)
    &&& string_member(es@[3], "uri"@, "ui://notes-server/editor"@)
    &&& forall|i: int|
        0 <= i < 4 ==> (spec_get(#[trigger] es@[i], "uri"@) matches Some(JsonValue::Str(u))
            && spec_is_ui_uri(u@))
}

/// Whether the embedded server serves content under `uri`.
pub open spec fn spec_embedded_resource_known(uri: Seq<char>) -> bool {
    ||| uri == "ui://weather-server/dashboard"@
    ||| uri == "ui://portfolio-server/gallery"@
    ||| uri == "ui://system-server/status"@
    ||| uri == "ui://notes-server/editor"@
}

/// The rendering script served under each of the embedded server's
/// resource URIs; arbitrary on any other URI, where the read fails.
pub open spec fn spec_embedded_resource_text(uri: Seq<char>) -> Seq<char> {
    if uri == "ui://weather-server/dashboard"@ {
        WEATHER_VIEW_SCRIPT@
    } else if uri == "ui://portfolio-server/gallery"@ {
        PORTFOLIO_VIEW_SCRIPT@
    } else if uri == "ui://system-server/status"@ {
        STATUS_VIEW_SCRIPT@
    } else {
        NOTES_VIEW_SCRIPT@
    }
}

/// The weather view's rendering script.
pub const WEATHER_VIEW_SCRIPT: &'static str = "let content = if data.structured_content != () { data.structured_content } else { #{} };\nlet location = if \"location\" in content { content.location } else { \"Loading...\" };\nlet temp = if \"temp\" in content { content.temp.to_string() + \"\u{b0}\" } else { \"--\u{b0}\" };\nlet conditions = if \"conditions\" in content { content.conditions } else { \"Please wait\" };\nreturn el(\"div\", #{ \"class\": \"weather\" }, [\n    el(\"h2\", #{}, [ text(location) ]),\n    el(\"span\", #{}, [ text(temp) ]),\n    el(\"span\", #{}, [ text(conditions) ])\n]);\n";

/// The portfolio view's rendering script.
pub const PORTFOLIO_VIEW_SCRIPT: &'static str = "let content = if data.structured_content != () { data.structured_content } else { #{} };\nlet owner = if \"owner\" in content { content.owner } else { \"Portfolio\" };\nlet bio = if \"bio\" in content { content.bio } else { \"\" };\nreturn el(\"div\", #{ \"class\": \"portfolio\" }, [\n    el(\"h1\", #{}, [ text(owner) ]),\n    el(\"p\", #{}, [ text(bio) ])\n]);\n";

/// The system-status view's rendering script.
pub const STATUS_VIEW_SCRIPT: &'static str = "let content = if data.structured_content != () { data.structured_content } else { #{} };\nlet cpu = if \"cpu_usage\" in content { content.cpu_usage } else { 0 };\nlet mem = if \"memory_usage\" in content { content.memory_usage } else { 0 };\nreturn el(\"div\", #{ \"class\": \"status\" }, [\n    el(\"h2\", #{}, [ text(\"System Status\") ]),\n    el(\"span\", #{}, [ text(cpu.to_string() + \"%\") ]),\n    el(\"span\", #{}, [ text(mem.to_string() + \"%\") ])\n]);\n";

/// The note view's rendering script.
pub const NOTES_VIEW_SCRIPT: &'static str = "let content = if data.structured_content != () { data.structured_content } else { #{} };\nlet title = if \"title\" in content { content.title } else { \"Untitled\" };\nlet body = if \"content\" in content { content.content } else { \"\" };\nreturn el(\"div\", #{ \"class\": \"note\" }, [\n    el(\"h2\", #{}, [ text(title) ]),\n    el(\"p\", #{}, [ text(body) ])\n]);\n";

impl Default for EmbeddedServer {
    /// The same server [`EmbeddedServer::new`] builds.
    fn default() -> (r: Self)
        ensures
            r.server_info.name@ == "mcp-apps-embedded-server"@,
            r.server_info.version@ == "0.1.0"@,
    {
        EmbeddedServer::new()
    }
}

} // verus!
