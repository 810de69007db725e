//! Builders for the bridge protocol's messages.
//!
//! Each builder assembles one request, response or notification of the
//! host-to-view protocol, with its payload members in declaration order.

use vstd::prelude::*;

use crate::capabilities::{DisplayMode, McpUiAppCapabilities, UiHostCapabilities};
use crate::json::JsonValue;
use crate::jsonrpc::{JsonRpcError, JsonRpcNotification, JsonRpcRequest, JsonRpcResponse};
use crate::lifecycle::HostContext;
use crate::resources::{McpUiResourceCsp, UiResourcePermissions};

verus! {

/// Encode an app's capability declaration: each declared block becomes a
/// member, in declaration order, with absent blocks omitted.
fn app_caps_to_value(a: &McpUiAppCapabilities) -> (r: JsonValue)
    ensures
        r matches JsonValue::Obj(fs) && {
            let e: int = if a.experimental is Some { 1 } else { 0 };
            let t: int = if a.tools is Some { 1 } else { 0 };
            let m: int = if a.available_display_modes is Some { 1 } else { 0 };
            &&& fs@.len() == e + t + m
            &&& a.experimental matches Some(x) ==> (fs@[0].0@ == "experimental"@
                && crate::json::json_eq(x, fs@[0].1))
            &&& a.tools matches Some(tc) ==> (fs@[e].0@ == "tools"@ && (fs@[e].1 matches
                JsonValue::Obj(b) && (match tc.list_changed {
                Some(f) => b@.len() == 1 && b@[0].0@ == "listChanged"@ && b@[0].1
                    == JsonValue::Bool(f),
                None => b@.len() == 0,
            })))
            &&& a.available_display_modes matches Some(ms) ==> (fs@[e + t].0@
                == "availableDisplayModes"@ && (fs@[e + t].1 matches JsonValue::Arr(es)
                && es@.len() == ms@.len() && forall|i: int|
                0 <= i < ms@.len() ==> ((#[trigger] es@[i]) matches JsonValue::Str(w) && w@
                    == crate::capabilities::spec_mode_name(ms@[i]))))
        },
{
    let mut fs: Vec<(String, JsonValue)> = Vec::new();
    match &a.experimental {
        Some(x) => fs.push((String::from_str("experimental"), x.deep_clone())),
        None => {},
    }
    match &a.tools {
        Some(t) => {
            let mut b: Vec<(String, JsonValue)> = Vec::new();
            match t.list_changed {
                Some(f) => b.push((String::from_str("listChanged"), JsonValue::Bool(f))),
                None => {},
            }
            fs.push((String::from_str("tools"), JsonValue::Obj(b)));
        },
        None => {},
    }
    match &a.available_display_modes {
        Some(ms) => {
            let n = ms.len();
            let mut es: Vec<JsonValue> = Vec::new();
            let mut i: usize = 0;
            while i < n
                invariant
                    0 <= i <= n,
                    n == ms@.len(),
                    es@.len() == i,
                    forall|j: int|
                        0 <= j < i ==> ((#[trigger] es@[j]) matches JsonValue::Str(w) && w@
                            == crate::capabilities::spec_mode_name(ms@[j])),
                decreases n - i,
            {
                es.push(JsonValue::Str(String::from_str(ms[i].as_str())));
                i = i + 1;
            }
            fs.push((String::from_str("availableDisplayModes"), JsonValue::Arr(es)));
        },
        None => {},
    }
    JsonValue::Obj(fs)
}

/// Encode an optional list of strings under `key`, omitting an absent
/// list.
fn push_string_list(fs: &mut Vec<(String, JsonValue)>, key: &str, ds: &Option<Vec<String>>)
    ensures
        match ds {
            None => final(fs)@ == old(fs)@,
            Some(list) => {
                &&& final(fs)@.len() == old(fs)@.len() + 1
                &&& forall|k: int|
                    0 <= k < old(fs)@.len() ==> #[trigger] final(fs)@[k] == old(fs)@[k]
                &&& ({
                    let last = final(fs)@[final(fs)@.len() - 1];
                    &&& last.0@ == key@
                    &&& last.1 matches JsonValue::Arr(es) && es@.len() == list@.len() && forall|
                        i: int,
                    |
                        0 <= i < list@.len() ==> ((#[trigger] es@[i]) matches JsonValue::Str(t)
                            && t@ == list@[i]@)
                })
            },
        },
{
    match ds {
        Some(list) => {
            let n = list.len();
            let mut es: Vec<JsonValue> = Vec::new();
            let mut i: usize = 0;
            while i < n
                invariant
                    0 <= i <= n,
                    n == list@.len(),
                    es@.len() == i,
                    forall|j: int|
                        0 <= j < i ==> ((#[trigger] es@[j]) matches JsonValue::Str(t) && t@
                            == list@[j]@),
                decreases n - i,
            {
                es.push(JsonValue::Str(list[i].clone()));
                i = i + 1;
            }
            fs.push((String::from_str(key), JsonValue::Arr(es)));
        },
        None => {},
    }
}

/// Encode a resource CSP configuration: each configured domain list
/// becomes a member, in declaration order, with absent lists omitted.
fn resource_csp_to_value(c: &McpUiResourceCsp) -> (r: JsonValue)
    ensures
        r matches JsonValue::Obj(fs) && {
            let a: int = if c.connect_domains is Some { 1 } else { 0 };
            let b: int = if c.resource_domains is Some { 1 } else { 0 };
            let d: int = if c.frame_domains is Some { 1 } else { 0 };
            let e: int = if c.base_uri_domains is Some { 1 } else { 0 };
            &&& fs@.len() == a + b + d + e
            &&& c.connect_domains is Some ==> fs@[0].0@ == "connectDomains"@
            &&& c.resource_domains is Some ==> fs@[a].0@ == "resourceDomains"@
            &&& c.frame_domains is Some ==> fs@[a + b].0@ == "frameDomains"@
            &&& c.base_uri_domains is Some ==> fs@[a + b + d].0@ == "baseUriDomains"@
        },
{
    let mut fs: Vec<(String, JsonValue)> = Vec::new();
    push_string_list(&mut fs, "connectDomains", &c.connect_domains);
    push_string_list(&mut fs, "resourceDomains", &c.resource_domains);
    push_string_list(&mut fs, "frameDomains", &c.frame_domains);
    push_string_list(&mut fs, "baseUriDomains", &c.base_uri_domains);
    JsonValue::Obj(fs)
}

/// Encode requested sandbox permissions: one empty-object member per
/// requested permission, in declaration order.
fn resource_permissions_to_value(p: &UiResourcePermissions) -> (r: JsonValue)
    ensures
        r matches JsonValue::Obj(fs) && {
            let a: int = if p.camera is Some { 1 } else { 0 };
            let b: int = if p.microphone is Some { 1 } else { 0 };
            let d: int = if p.geolocation is Some { 1 } else { 0 };
            let e: int = if p.clipboard_write is Some { 1 } else { 0 };
            &&& fs@.len() == a + b + d + e
            &&& p.camera is Some ==> fs@[0].0@ == "camera"@
            &&& p.microphone is Some ==> fs@[a].0@ == "microphone"@
            &&& p.geolocation is Some ==> fs@[a + b].0@ == "geolocation"@
            &&& p.clipboard_write is Some ==> fs@[a + b + d].0@ == "clipboardWrite"@
        },
{
    let mut fs: Vec<(String, JsonValue)> = Vec::new();
    if p.camera.is_some() {
        fs.push((String::from_str("camera"), JsonValue::Obj(Vec::new())));
    }
    if p.microphone.is_some() {
        fs.push((String::from_str("microphone"), JsonValue::Obj(Vec::new())));
    }
    if p.geolocation.is_some() {
        fs.push((String::from_str("geolocation"), JsonValue::Obj(Vec::new())));
    }
    if p.clipboard_write.is_some() {
        fs.push((String::from_str("clipboardWrite"), JsonValue::Obj(Vec::new())));
    }
    JsonValue::Obj(fs)
}

/// Encode a host context for the wire, member by member in declaration
/// order, with absent options omitted.  The members carry the context's
/// fields under their wire names; no decision of this crate reads the
/// encoding back, so only its object shape is stated.
fn host_context_to_value(c: &HostContext) -> (r: JsonValue)
    ensures
        r is Obj,
{
    let mut fs: Vec<(String, JsonValue)> = Vec::new();
    match &c.tool_info {
        Some(info) => {
            let mut b: Vec<(String, JsonValue)> = Vec::new();
            match &info.id {
                Some(id) => b.push((String::from_str("id"), id.deep_clone())),
                None => {},
            }
            b.push((String::from_str("tool"), info.tool.deep_clone()));
            fs.push((String::from_str("toolInfo"), JsonValue::Obj(b)));
        },
        None => {},
    }
    match &c.theme {
        Some(t) => fs.push((String::from_str("theme"), JsonValue::Str(t.clone()))),
        None => {},
    }
    match &c.styles {
        Some(sty) => {
            let mut b: Vec<(String, JsonValue)> = Vec::new();
            match &sty.variables {
                Some(v) => b.push((String::from_str("variables"), v.deep_clone())),
                None => {},
            }
            match &sty.css {
                Some(css) => {
                    let mut cb: Vec<(String, JsonValue)> = Vec::new();
                    match &css.fonts {
                        Some(f) => cb.push((String::from_str("fonts"), JsonValue::Str(f.clone()))),
                        None => {},
                    }
                    b.push((String::from_str("css"), JsonValue::Obj(cb)));
                },
                None => {},
            }
            fs.push((String::from_str("styles"), JsonValue::Obj(b)));
        },
        None => {},
    }
    match &c.display_mode {
        Some(m) => fs.push((
            String::from_str("displayMode"),
            JsonValue::Str(String::from_str(m.as_str())),
        )),
        None => {},
    }
    match &c.available_display_modes {
        Some(ms) => {
            let n = ms.len();
            let mut es: Vec<JsonValue> = Vec::new();
            let mut i: usize = 0;
            while i < n
                invariant
                    0 <= i <= n,
                    n == ms@.len(),
                    es@.len() == i,
                    forall|j: int|
                        0 <= j < i ==> ((#[trigger] es@[j]) matches JsonValue::Str(w) && w@
                            == crate::capabilities::spec_mode_name(ms@[j])),
                decreases n - i,
            {
                es.push(JsonValue::Str(String::from_str(ms[i].as_str())));
                i = i + 1;
            }
            fs.push((String::from_str("availableDisplayModes"), JsonValue::Arr(es)));
        },
        None => {},
    }
    match &c.container_dimensions {
        Some(d) => {
            let mut b: Vec<(String, JsonValue)> = Vec::new();
            match d.height {
                Some(h) => b.push((String::from_str("height"), JsonValue::Int(h as i64))),
                None => {},
            }
            match d.max_height {
                Some(h) => b.push((String::from_str("maxHeight"), JsonValue::Int(h as i64))),
                None => {},
            }
            match d.width {
                Some(w) => b.push((String::from_str("width"), JsonValue::Int(w as i64))),
                None => {},
            }
            match d.max_width {
                Some(w) => b.push((String::from_str("maxWidth"), JsonValue::Int(w as i64))),
                None => {},
            }
            fs.push((String::from_str("containerDimensions"), JsonValue::Obj(b)));
        },
        None => {},
    }
    match &c.locale {
        Some(l) => fs.push((String::from_str("locale"), JsonValue::Str(l.clone()))),
        None => {},
    }
    match &c.time_zone {
        Some(z) => fs.push((String::from_str("timeZone"), JsonValue::Str(z.clone()))),
        None => {},
    }
    match &c.user_agent {
        Some(ua) => fs.push((String::from_str("userAgent"), JsonValue::Str(ua.clone()))),
        None => {},
    }
    match &c.platform {
        Some(p) => {
            let name = match p {
                crate::lifecycle::Platform::Web => "web",
                crate::lifecycle::Platform::Desktop => "desktop",
                crate::lifecycle::Platform::Mobile => "mobile",
            };
            fs.push((String::from_str("platform"), JsonValue::Str(String::from_str(name))));
        },
        None => {},
    }
    match &c.device_capabilities {
        Some(d) => {
            let mut b: Vec<(String, JsonValue)> = Vec::new();
            match d.touch {
                Some(t) => b.push((String::from_str("touch"), JsonValue::Bool(t))),
                None => {},
            }
            match d.hover {
                Some(h) => b.push((String::from_str("hover"), JsonValue::Bool(h))),
                None => {},
            }
            fs.push((String::from_str("deviceCapabilities"), JsonValue::Obj(b)));
        },
        None => {},
    }
    match &c.safe_area_insets {
        Some(sa) => {
            let mut b: Vec<(String, JsonValue)> = Vec::new();
            b.push((String::from_str("top"), JsonValue::Int(sa.top as i64)));
            b.push((String::from_str("right"), JsonValue::Int(sa.right as i64)));
            b.push((String::from_str("bottom"), JsonValue::Int(sa.bottom as i64)));
            b.push((String::from_str("left"), JsonValue::Int(sa.left as i64)));
            fs.push((String::from_str("safeAreaInsets"), JsonValue::Obj(b)));
        },
        None => {},
    }
    JsonValue::Obj(fs)
}

/// Build a `ui/initialize` request.
pub fn ui_initialize_request(
    app_name: &str,
    app_version: &str,
    capabilities: &McpUiAppCapabilities,
) -> (r: JsonRpcRequest)
    ensures
        r.method@ == "ui/initialize"@,
        r.id is Some,
        r.params matches Some(JsonValue::Obj(fs)) && fs@.len() == 3 && (fs@[0].0@
            == "protocolVersion"@) && (fs@[0].1 matches JsonValue::Str(v) && v@ == "2026-01-26"@)
            && (fs@[1].0@ == "appInfo"@) && (fs@[1].1 matches JsonValue::Obj(info) && info@.len()
            == 2 && (info@[0].0@ == "name"@) && (info@[0].1 matches JsonValue::Str(n) && n@
            == app_name@) && (info@[1].0@ == "version"@) && (info@[1].1 matches JsonValue::Str(w)
            && w@ == app_version@)) && (fs@[2].0@ == "appCapabilities"@) && fs@[2].1 is Obj,
{
    let mut info: Vec<(String, JsonValue)> = Vec::new();
    info.push((String::from_str("name"), JsonValue::Str(String::from_str(app_name))));
    info.push((String::from_str("version"), JsonValue::Str(String::from_str(app_version))));
    let mut fs: Vec<(String, JsonValue)> = Vec::new();
    fs.push((
        String::from_str("protocolVersion"),
        JsonValue::Str(String::from_str("2026-01-26")),
    ));
    fs.push((String::from_str("appInfo"), JsonValue::Obj(info)));
    fs.push((String::from_str("appCapabilities"), app_caps_to_value(capabilities)));
    JsonRpcRequest::new("ui/initialize", Some(JsonValue::Obj(fs)))
}

/// Build a `ui/initialize` success response.
pub fn ui_initialize_response(
    id: JsonValue,
    host_name: &str,
    host_version: &str,
    capabilities: &UiHostCapabilities,
    context: Option<&HostContext>,
) -> (r: JsonRpcResponse)
    ensures
        r.jsonrpc@ == "2.0"@,
        r.id == Some(id),
        r.error is None,
        r.result matches Some(JsonValue::Obj(fs)) && {
            &&& fs@.len() == (if context is Some {
                4int
            } else {
                3int
            })
            &&& fs@[0].0@ == "protocolVersion"@
            &&& fs@[0].1 matches JsonValue::Str(v) && v@ == "2026-01-26"@
            &&& fs@[1].0@ == "hostCapabilities"@ && fs@[1].1 is Obj
            &&& fs@[2].0@ == "hostInfo"@
            &&& fs@[2].1 matches JsonValue::Obj(info) && info@.len() == 2 && (info@[0].0@
                == "name"@) && (info@[0].1 matches JsonValue::Str(n) && n@ == host_name@) && (
            info@[1].0@ == "version"@) && (info@[1].1 matches JsonValue::Str(w) && w@
                == host_version@)
            &&& context is Some ==> (fs@[3].0@ == "hostContext"@ && fs@[3].1 is Obj)
        },
{
    let mut info: Vec<(String, JsonValue)> = Vec::new();
    info.push((String::from_str("name"), JsonValue::Str(String::from_str(host_name))));
    info.push((String::from_str("version"), JsonValue::Str(String::from_str(host_version))));
    let mut fs: Vec<(String, JsonValue)> = Vec::new();
    fs.push((
        String::from_str("protocolVersion"),
        JsonValue::Str(String::from_str("2026-01-26")),
    ));
    fs.push((String::from_str("hostCapabilities"), crate::manager::host_caps_to_value(
        capabilities,
    )));
    fs.push((String::from_str("hostInfo"), JsonValue::Obj(info)));
    match context {
        Some(ctx) => {
            fs.push((String::from_str("hostContext"), host_context_to_value(ctx)));
        },
        None => {},
    }
    JsonRpcResponse {
        jsonrpc: String::from_str("2.0"),
        id: Some(id),
        result: Some(JsonValue::Obj(fs)),
        error: None,
    }
}

/// Build the `ui/notifications/initialized` notification.
pub fn initialized_notification() -> (r: JsonRpcNotification)
    ensures
        r.method@ == "ui/notifications/initialized"@,
        r.params matches Some(p) && p is Obj,
{
    JsonRpcNotification::new("ui/notifications/initialized", Some(JsonValue::Obj(Vec::new())))
}

/// Build a `ui/notifications/tool-input` notification.
pub fn tool_input_notification(arguments: JsonValue) -> (r: JsonRpcNotification)
    ensures
        r.method@ == "ui/notifications/tool-input"@,
        r.params matches Some(JsonValue::Obj(fs)) && fs@.len() == 1 && (fs@[0].0@ == "arguments"@)
            && fs@[0].1 == arguments,
{
    let mut fs: Vec<(String, JsonValue)> = Vec::new();
    fs.push((String::from_str("arguments"), arguments));
    JsonRpcNotification::new("ui/notifications/tool-input", Some(JsonValue::Obj(fs)))
}

/// Build a `ui/notifications/tool-input-partial` notification.
pub fn tool_input_partial_notification(arguments: JsonValue) -> (r: JsonRpcNotification)
    ensures
        r.method@ == "ui/notifications/tool-input-partial"@,
        r.params matches Some(JsonValue::Obj(fs)) && fs@.len() == 1 && (fs@[0].0@ == "arguments"@)
            && fs@[0].1 == arguments,
{
    let mut fs: Vec<(String, JsonValue)> = Vec::new();
    fs.push((String::from_str("arguments"), arguments));
    JsonRpcNotification::new("ui/notifications/tool-input-partial", Some(JsonValue::Obj(fs)))
}

/// Build a `ui/notifications/tool-result` notification; the result value
/// itself is the payload.
pub fn tool_result_notification(result: JsonValue) -> (r: JsonRpcNotification)
    ensures
        r.method@ == "ui/notifications/tool-result"@,
        r.params == Some(result),
{
    JsonRpcNotification::new("ui/notifications/tool-result", Some(result))
}

/// Build a `ui/notifications/tool-cancelled` notification.
pub fn tool_cancelled_notification(reason: Option<&str>) -> (r: JsonRpcNotification)
    ensures
        r.method@ == "ui/notifications/tool-cancelled"@,
        match reason {
            Some(why) => r.params matches Some(JsonValue::Obj(fs)) && fs@.len() == 1 && (fs@[0].0@
                == "reason"@) && (fs@[0].1 matches JsonValue::Str(w) && w@ == why@),
            None => r.params matches Some(p) && p matches JsonValue::Obj(fs) && fs@.len() == 0,
        },
{
    let mut fs: Vec<(String, JsonValue)> = Vec::new();
    match reason {
        Some(why) => fs.push((String::from_str("reason"), JsonValue::Str(String::from_str(why)))),
        None => {},
    }
    JsonRpcNotification::new("ui/notifications/tool-cancelled", Some(JsonValue::Obj(fs)))
}

/// Build a `ui/resource-teardown` request.
pub fn resource_teardown_request(id: JsonValue, reason: Option<&str>) -> (r: JsonRpcRequest)
    ensures
        r.method@ == "ui/resource-teardown"@,
        r.id == Some(id),
        match reason {
            Some(why) => r.params matches Some(JsonValue::Obj(fs)) && fs@.len() == 1 && (fs@[0].0@
                == "reason"@) && (fs@[0].1 matches JsonValue::Str(w) && w@ == why@),
            None => r.params matches Some(p) && p matches JsonValue::Obj(fs) && fs@.len() == 0,
        },
{
    let mut fs: Vec<(String, JsonValue)> = Vec::new();
    match reason {
        Some(why) => fs.push((String::from_str("reason"), JsonValue::Str(String::from_str(why)))),
        None => {},
    }
    JsonRpcRequest::new("ui/resource-teardown", Some(JsonValue::Obj(fs))).with_id(id)
}

/// Build a `ui/notifications/size-changed` notification.
pub fn size_changed_notification(width: u32, height: u32) -> (r: JsonRpcNotification)
    ensures
        r.method@ == "ui/notifications/size-changed"@,
        r.params matches Some(JsonValue::Obj(fs)) && fs@.len() == 2 && (fs@[0].0@ == "width"@) && (
        fs@[0].1 == JsonValue::Int(width as i64)) && (fs@[1].0@ == "height"@) && (fs@[1].1
            == JsonValue::Int(height as i64)),
{
    let mut fs: Vec<(String, JsonValue)> = Vec::new();
    fs.push((String::from_str("width"), JsonValue::Int(width as i64)));
    fs.push((String::from_str("height"), JsonValue::Int(height as i64)));
    JsonRpcNotification::new("ui/notifications/size-changed", Some(JsonValue::Obj(fs)))
}

/// Build a `ui/notifications/host-context-changed` notification; the
/// partial context update itself is the payload.
pub fn host_context_changed_notification(context: JsonValue) -> (r: JsonRpcNotification)
    ensures
        r.method@ == "ui/notifications/host-context-changed"@,
        r.params == Some(context),
{
    JsonRpcNotification::new("ui/notifications/host-context-changed", Some(context))
}

/// Build a `ui/notifications/sandbox-proxy-ready` notification.
pub fn sandbox_proxy_ready_notification() -> (r: JsonRpcNotification)
    ensures
        r.method@ == "ui/notifications/sandbox-proxy-ready"@,
        r.params matches Some(p) && p is Obj,
{
    JsonRpcNotification::new(
        "ui/notifications/sandbox-proxy-ready",
        Some(JsonValue::Obj(Vec::new())),
    )
}

/// Build a `ui/notifications/sandbox-resource-ready` notification.
pub fn sandbox_resource_ready_notification(
    html: &str,
    csp: Option<&McpUiResourceCsp>,
    permissions: Option<&UiResourcePermissions>,
) -> (r: JsonRpcNotification)
    ensures
        r.method@ == "ui/notifications/sandbox-resource-ready"@,
        r.params matches Some(JsonValue::Obj(fs)) && {
            &&& fs@.len() == 1 + (if csp is Some {
                1int
            } else {
                0int
            }) + (if permissions is Some {
                1int
            } else {
                0int
            })
            &&& fs@[0].0@ == "html"@
            &&& fs@[0].1 matches JsonValue::Str(h) && h@ == html@
            &&& csp is Some ==> (fs@[1].0@ == "csp"@ && fs@[1].1 is Obj)
            &&& permissions is Some ==> {
                let i = if csp is Some {
                    2int
                } else {
                    1int
                };
                fs@[i].0@ == "permissions"@ && fs@[i].1 is Obj
            }
        },
{
    let mut fs: Vec<(String, JsonValue)> = Vec::new();
    fs.push((String::from_str("html"), JsonValue::Str(String::from_str(html))));
    match csp {
        Some(c) => fs.push((String::from_str("csp"), resource_csp_to_value(c))),
        None => {},
    }
    match permissions {
        Some(p) => fs.push((String::from_str("permissions"), resource_permissions_to_value(p))),
        None => {},
    }
    JsonRpcNotification::new("ui/notifications/sandbox-resource-ready", Some(JsonValue::Obj(fs)))
}

/// Build a `ui/request-display-mode` request.
pub fn request_display_mode_request(id: JsonValue, mode: DisplayMode) -> (r: JsonRpcRequest)
    ensures
        r.method@ == "ui/request-display-mode"@,
        r.id == Some(id),
        r.params matches Some(JsonValue::Obj(fs)) && fs@.len() == 1 && (fs@[0].0@ == "mode"@) && (
        fs@[0].1 matches JsonValue::Str(m) && m@ == crate::capabilities::spec_mode_name(mode)),
{
    let mut fs: Vec<(String, JsonValue)> = Vec::new();
    fs.push((String::from_str("mode"), JsonValue::Str(String::from_str(mode.as_str()))));
    JsonRpcRequest::new("ui/request-display-mode", Some(JsonValue::Obj(fs))).with_id(id)
}

/// Build a `ui/request-display-mode` success response.
pub fn request_display_mode_response(id: JsonValue, mode: DisplayMode) -> (r: JsonRpcResponse)
    ensures
        r.jsonrpc@ == "2.0"@,
        r.id == Some(id),
        r.error is None,
        r.result matches Some(JsonValue::Obj(fs)) && fs@.len() == 1 && (fs@[0].0@ == "mode"@) && (
        fs@[0].1 matches JsonValue::Str(m) && m@ == crate::capabilities::spec_mode_name(mode)),
{
    let mut fs: Vec<(String, JsonValue)> = Vec::new();
    fs.push((String::from_str("mode"), JsonValue::Str(String::from_str(mode.as_str()))));
    JsonRpcResponse {
        jsonrpc: String::from_str("2.0"),
        id: Some(id),
        result: Some(JsonValue::Obj(fs)),
        error: None,
    }
}

/// Build a `ui/update-model-context` request.
pub fn update_model_context_request(
    id: JsonValue,
    content: Option<Vec<JsonValue>>,
    structured_content: Option<JsonValue>,
) -> (r: JsonRpcRequest)
    ensures
        r.method@ == "ui/update-model-context"@,
        r.id == Some(id),
        r.params matches Some(JsonValue::Obj(fs)) && {
            &&& fs@.len() == (if content is Some {
                1int
            } else {
                0int
            }) + (if structured_content is Some {
                1int
            } else {
                0int
            })
            &&& content matches Some(c) ==> (fs@[0].0@ == "content"@ && fs@[0].1 == JsonValue::Arr(
                c,
            ))
            &&& structured_content matches Some(sc) ==> {
                let i = if content is Some {
                    1int
                } else {
                    0int
                };
                fs@[i].0@ == "structuredContent"@ && fs@[i].1 == sc
            }
        },
{
    let mut fs: Vec<(String, JsonValue)> = Vec::new();
    match content {
        Some(c) => fs.push((String::from_str("content"), JsonValue::Arr(c))),
        None => {},
    }
    match structured_content {
        Some(sc) => fs.push((String::from_str("structuredContent"), sc)),
        None => {},
    }
    JsonRpcRequest::new("ui/update-model-context", Some(JsonValue::Obj(fs))).with_id(id)
}

/// Build a `ui/open-link` request.
pub fn open_link_request(id: JsonValue, url: &str) -> (r: JsonRpcRequest)
    ensures
        r.method@ == "ui/open-link"@,
        r.id == Some(id),
        r.params matches Some(JsonValue::Obj(fs)) && fs@.len() == 1 && (fs@[0].0@ == "url"@) && (
        fs@[0].1 matches JsonValue::Str(u) && u@ == url@),
{
    let mut fs: Vec<(String, JsonValue)> = Vec::new();
    fs.push((String::from_str("url"), JsonValue::Str(String::from_str(url))));
    JsonRpcRequest::new("ui/open-link", Some(JsonValue::Obj(fs))).with_id(id)
}

/// Build a `ui/message` request.
pub fn ui_message_request(id: JsonValue, role: &str, content: JsonValue) -> (r: JsonRpcRequest)
    ensures
        r.method@ == "ui/message"@,
        r.id == Some(id),
        r.params matches Some(JsonValue::Obj(fs)) && fs@.len() == 2 && (fs@[0].0@ == "role"@) && (
        fs@[0].1 matches JsonValue::Str(x) && x@ == role@) && (fs@[1].0@ == "content"@) && fs@[1].1
            == content,
{
    let mut fs: Vec<(String, JsonValue)> = Vec::new();
    fs.push((String::from_str("role"), JsonValue::Str(String::from_str(role))));
    fs.push((String::from_str("content"), content));
    JsonRpcRequest::new("ui/message", Some(JsonValue::Obj(fs))).with_id(id)
}

/// Build an empty success response.
pub fn success_response(id: JsonValue) -> (r: JsonRpcResponse)
    ensures
        r.jsonrpc@ == "2.0"@,
        r.id == Some(id),
        r.result matches Some(p) && p matches JsonValue::Obj(fs) && fs@.len() == 0,
        r.error is None,
{
    JsonRpcResponse {
        jsonrpc: String::from_str("2.0"),
        id: Some(id),
        result: Some(JsonValue::Obj(Vec::new())),
        error: None,
    }
}

/// Build an error response.
pub fn error_response(id: JsonValue, code: i32, message: &str) -> (r: JsonRpcResponse)
    ensures
        r.jsonrpc@ == "2.0"@,
        r.id == Some(id),
        r.result is None,
        r.error matches Some(e) && e.code == code && e.message@ == message@ && e.data is None,
{
    JsonRpcResponse {
        jsonrpc: String::from_str("2.0"),
        id: Some(id),
        result: None,
        error: Some(JsonRpcError::new(code, message)),
    }
}

} // verus!
