//! UI resource types.
//!
//! A UI resource is a renderable artifact whose URI uses the `ui://` scheme;
//! its content is HTML-like text with a recommended mime type of
//! `text/html;profile=mcp-app`.  Resource metadata can carry a content
//! security policy, sandbox permission requests and rendering preferences.

use vstd::prelude::*;

use crate::capabilities::Empty;
use crate::json::{spec_get, JsonValue};
use crate::strutil::{seq_starts_with, str_eq, str_starts_with};

verus! {

/// Tool visibility options.
#[derive(Clone, Copy, PartialEq, Eq, Structural, Debug)]
pub enum ToolVisibility {
    /// Tool visible to and callable by the agent
    Model,
    /// Tool callable by the app from this server only
    App,
}

/// Content security policy configuration of a UI resource.
#[derive(Debug)]
pub struct McpUiResourceCsp {
    /// Origins for network requests (maps to `connect-src`)
    pub connect_domains: Option<Vec<String>>,
    /// Origins for static resources
    pub resource_domains: Option<Vec<String>>,
    /// Origins for nested iframes (maps to `frame-src`)
    pub frame_domains: Option<Vec<String>>,
    /// Allowed base URIs for the document
    pub base_uri_domains: Option<Vec<String>>,
}

/// Sandbox permissions a UI resource requests.
#[derive(Clone, Copy, PartialEq, Eq, Structural, Debug)]
pub struct UiResourcePermissions {
    /// Request camera access
    pub camera: Option<Empty>,
    /// Request microphone access
    pub microphone: Option<Empty>,
    /// Request geolocation access
    pub geolocation: Option<Empty>,
    /// Request clipboard write access
    pub clipboard_write: Option<Empty>,
}

/// UI-specific resource details within metadata.
#[derive(Debug)]
pub struct UiResourceDetails {
    /// Content security policy configuration
    pub csp: Option<McpUiResourceCsp>,
    /// Sandbox permissions requested by the UI
    pub permissions: Option<UiResourcePermissions>,
    /// Dedicated origin for the view
    pub domain: Option<String>,
    /// Visual boundary preference
    pub prefers_border: Option<bool>,
}

/// Resource metadata.
#[derive(Debug)]
pub struct UiResourceMeta {
    /// UI-specific metadata
    pub ui: Option<UiResourceDetails>,
}

/// A UI resource: its URI must use the `ui://` scheme.
#[derive(Clone, Debug)]
pub struct UiResource {
    /// Unique identifier (must use the `ui://` URI scheme)
    pub uri: String,
    /// Human-readable display name
    pub name: String,
    /// Optional description of the resource's purpose
    pub description: Option<String>,
    /// MIME type of the content
    pub mime_type: String,
    /// Metadata for security and rendering configuration
    pub _meta: Option<UiResourceMeta>,
}

/// Content of a UI resource returned from a resource read.
#[derive(Clone, Debug)]
pub struct UiResourceContent {
    /// Matching UI resource URI
    pub uri: String,
    /// MIME type
    pub mime_type: String,
    /// Content as text (one of `text` and `blob` is provided)
    pub text: Option<String>,
    /// Base64-encoded content, as an alternative to `text`
    pub blob: Option<String>,
    /// Resource metadata
    pub _meta: Option<UiResourceMeta>,
}

/// Tool metadata linking a tool to a UI resource.
#[derive(Clone, Debug)]
pub struct McpUiToolMeta {
    /// URI of the UI resource that renders this tool's results
    pub resource_uri: Option<String>,
    /// Who can call this tool; absent means both model and app
    pub visibility: Option<Vec<ToolVisibility>>,
}

/// Style configuration for theming.
#[derive(Clone, Debug)]
pub struct UiStyleConfig {
    /// CSS variables for theming
    pub variables: Option<JsonValue>,
    /// CSS blocks that views can inject
    pub css: Option<UiCssConfig>,
}

/// CSS configuration.
#[derive(Clone, Debug)]
pub struct UiCssConfig {
    /// CSS for font loading
    pub fonts: Option<String>,
}

/// Whether `uri` designates a UI resource: exactly the strings that start
/// with `ui://`.
pub open spec fn spec_is_ui_uri(uri: Seq<char>) -> bool {
    seq_starts_with(uri, "ui://"@)
}

impl UiResource {
    /// Whether `uri` is a valid UI resource URI: it accepts exactly the
    /// strings with prefix `ui://` and nothing else.
    pub fn is_valid_uri(uri: &str) -> (r: bool)
        ensures
            r == spec_is_ui_uri(uri@),
    {
        str_starts_with(uri, "ui://")
    }

    /// The recommended mime type for UI resources.
    pub fn recommended_mime_type() -> (r: &'static str)
        ensures
            r@ == "text/html;profile=mcp-app"@,
    {
        "text/html;profile=mcp-app"
    }

    /// Whether `mime_type` is the standard HTML content type: the
    /// recommended type itself or any `text/html` type.
    pub fn is_html_content_type(mime_type: &str) -> (r: bool)
        ensures
            r == (mime_type@ == "text/html;profile=mcp-app"@ || seq_starts_with(
                mime_type@,
                "text/html"@,
            )),
    {
        str_eq(mime_type, "text/html;profile=mcp-app") || str_starts_with(mime_type, "text/html")
    }
}

/// The views of a list of domain strings.
pub open spec fn domain_views(ds: Seq<String>) -> Seq<Seq<char>> {
    ds.map_values(|d: String| d@)
}

/// The first `i` of the strings `ss` joined by `sep`.
pub open spec fn prefix_join(ss: Seq<Seq<char>>, sep: Seq<char>, i: int) -> Seq<char>
    decreases i,
{
    if i <= 0 {
        Seq::empty()
    } else if i == 1 {
        ss[0]
    } else {
        prefix_join(ss, sep, i - 1) + sep + ss[i - 1]
    }
}

/// The strings `ss` joined by `sep`.
pub open spec fn spec_join(ss: Seq<Seq<char>>, sep: Seq<char>) -> Seq<char> {
    prefix_join(ss, sep, ss.len() as int)
}

/// A source directive over an optional domain list: `'none'` when the list
/// is absent or empty, else the domains joined by single spaces.
pub open spec fn spec_src_directive(name: Seq<char>, ds: Option<Vec<String>>) -> Seq<char> {
    match ds {
        None => name + " 'none'"@,
        Some(list) => if list@.len() == 0 {
            name + " 'none'"@
        } else {
            name + " "@ + spec_join(domain_views(list@), " "@)
        },
    }
}

/// The complete CSP header a resource's configuration builds: the fixed
/// restrictive directives, the connect and frame directives from the
/// configured domain lists, and a final `object-src 'none'`.
pub open spec fn spec_csp_header(c: McpUiResourceCsp) -> Seq<char> {
    "default-src 'none'; script-src 'self' 'unsafe-inline'; style-src 'self' 'unsafe-inline'; img-src 'self' data:; media-src 'self' data:; "@
        + spec_src_directive("connect-src"@, c.connect_domains) + "; "@ + spec_src_directive(
        "frame-src"@,
        c.frame_domains,
    ) + "; object-src 'none'"@
}

/// Join the given strings with single spaces onto the end of `out`.
fn append_joined(out: &mut String, ds: &Vec<String>)
    ensures
        final(out)@ == old(out)@ + spec_join(domain_views(ds@), " "@),
{
    let n = ds.len();
    let mut i: usize = 0;
    while i < n
        invariant
            0 <= i <= n,
            n == ds@.len(),
            out@ == old(out)@ + prefix_join(domain_views(ds@), " "@, i as int),
        decreases n - i,
    {
        if i > 0 {
            out.append(" ");
        }
        out.append(ds[i].as_str());
        proof {
            assert(domain_views(ds@)[i as int] == ds@[i as int]@);
            if i == 0 {
                assert(out@ =~= old(out)@ + prefix_join(domain_views(ds@), " "@, i + 1));
            } else {
                assert(out@ =~= old(out)@ + prefix_join(domain_views(ds@), " "@, i + 1));
            }
        }
        i = i + 1;
    }
}

/// Append one source directive for an optional domain list.
fn append_src_directive(out: &mut String, name: &str, ds: &Option<Vec<String>>)
    ensures
        final(out)@ == old(out)@ + spec_src_directive(name@, *ds),
{
    out.append(name);
    match ds {
        Some(list) => {
            if list.len() == 0 {
                out.append(" 'none'");
            } else {
                out.append(" ");
                append_joined(out, list);
            }
        },
        None => {
            out.append(" 'none'");
        },
    }
    proof {
        assert(out@ =~= old(out)@ + spec_src_directive(name@, *ds));
    }
}

impl McpUiResourceCsp {
    /// Build the CSP header string for this configuration.
    pub fn build_csp_header(&self) -> (r: String)
        ensures
            r@ == spec_csp_header(*self),
    {
        let mut out = String::new();
        out.append(
            "default-src 'none'; script-src 'self' 'unsafe-inline'; style-src 'self' 'unsafe-inline'; img-src 'self' data:; media-src 'self' data:; ",
        );
        append_src_directive(&mut out, "connect-src", &self.connect_domains);
        out.append("; ");
        append_src_directive(&mut out, "frame-src", &self.frame_domains);
        out.append("; object-src 'none'");
        proof {
            assert(out@ =~= spec_csp_header(*self));
        }
        out
    }
}

/// A wire value that decodes as an array of strings.
pub open spec fn string_array_ok(v: JsonValue) -> bool {
    v matches JsonValue::Arr(es) && forall|i: int| 0 <= i < es@.len() ==> (#[trigger] es@[i]) is Str
}

/// The strings `ss` read exactly the elements of `v`.
pub open spec fn string_array_matches(v: JsonValue, ss: Seq<String>) -> bool {
    &&& v matches JsonValue::Arr(es)
    &&& es@.len() == ss.len()
    &&& forall|i: int|
        0 <= i < ss.len() ==> ((#[trigger] es@[i]) matches JsonValue::Str(t) && ss[i]@ == t@)
}

/// Decode an array of strings; fails on anything else.
fn parse_string_array(v: &JsonValue) -> (r: Option<Vec<String>>)
    ensures
        match r {
            Some(ss) => string_array_ok(*v) && string_array_matches(*v, ss@),
            None => !string_array_ok(*v),
        },
{
    match v {
        JsonValue::Arr(es) => {
            let n = es.len();
            let mut out: Vec<String> = Vec::new();
            let mut i: usize = 0;
            while i < n
                invariant
                    0 <= i <= n,
                    n == es@.len(),
                    *v == JsonValue::Arr(*es),
                    out@.len() == i,
                    forall|j: int|
                        0 <= j < i ==> ((#[trigger] es@[j]) matches JsonValue::Str(t) && out@[j]@
                            == t@),
                decreases n - i,
            {
                match es[i].as_str() {
                    Some(t) => out.push(t.clone()),
                    None => {
                        proof {
                            let es2 = (*v)->Arr_0;
                            if string_array_ok(*v) {
                                assert(es2@[i as int] is Str);
                            }
                        }
                        return None;
                    },
                }
                i = i + 1;
            }
            Some(out)
        },
        _ => None,
    }
}

/// An optional member that decodes as an optional string array: absent or
/// `null` reads as `None`, an array of strings as itself.
fn parse_opt_string_array(v: &JsonValue, key: &str) -> (r: (Option<Vec<String>>, bool))
    ensures
        r.1 == match spec_get(*v, key@) {
            None => true,
            Some(x) => x is Null || string_array_ok(x),
        },
        match spec_get(*v, key@) {
            None => r.0 is None,
            Some(x) => if x is Null {
                r.0 is None
            } else if string_array_ok(x) {
                r.0 matches Some(ss) && string_array_matches(x, ss@)
            } else {
                r.0 is None
            },
        },
{
    match v.get(key) {
        None => (None, true),
        Some(x) => {
            if x.is_null() {
                (None, true)
            } else {
                match parse_string_array(x) {
                    Some(ss) => (Some(ss), true),
                    None => (None, false),
                }
            }
        },
    }
}

/// An empty-object flag member: absent or `null` reads as ungranted, an
/// object as granted; anything else fails to decode.
fn parse_flag_member(v: &JsonValue, key: &str) -> (r: (Option<Empty>, bool))
    ensures
        r.1 == match spec_get(*v, key@) {
            None => true,
            Some(x) => x is Null || x is Obj,
        },
        (r.0 is Some) == (spec_get(*v, key@) matches Some(x) && x is Obj),
{
    match v.get(key) {
        None => (None, true),
        Some(x) => {
            if matches!(x, JsonValue::Obj(_)) {
                (Some(Empty {  }), true)
            } else {
                (None, x.is_null())
            }
        },
    }
}

impl McpUiResourceCsp {
    /// Decode a CSP configuration block; every domain list is optional and
    /// must be an array of strings when present.
    pub fn from_value(v: &JsonValue) -> (r: Option<McpUiResourceCsp>)
        ensures
            r is None <==> {
                ||| (spec_get(*v, "connectDomains"@) matches Some(x) && !(x is Null)
                    && !string_array_ok(x))
                ||| (spec_get(*v, "resourceDomains"@) matches Some(x) && !(x is Null)
                    && !string_array_ok(x))
                ||| (spec_get(*v, "frameDomains"@) matches Some(x) && !(x is Null)
                    && !string_array_ok(x))
                ||| (spec_get(*v, "baseUriDomains"@) matches Some(x) && !(x is Null)
                    && !string_array_ok(x))
            },
            r matches Some(c) ==> {
                &&& match spec_get(*v, "connectDomains"@) {
                    Some(x) => !(x is Null) ==> (string_array_ok(x) && (c.connect_domains
                        matches Some(ss) && string_array_matches(x, ss@))),
                    None => c.connect_domains is None,
                }
                &&& match spec_get(*v, "resourceDomains"@) {
                    Some(x) => !(x is Null) ==> (string_array_ok(x) && (c.resource_domains
                        matches Some(ss) && string_array_matches(x, ss@))),
                    None => c.resource_domains is None,
                }
                &&& match spec_get(*v, "frameDomains"@) {
                    Some(x) => !(x is Null) ==> (string_array_ok(x) && (c.frame_domains
                        matches Some(ss) && string_array_matches(x, ss@))),
                    None => c.frame_domains is None,
                }
                &&& match spec_get(*v, "baseUriDomains"@) {
                    Some(x) => !(x is Null) ==> (string_array_ok(x) && (c.base_uri_domains
                        matches Some(ss) && string_array_matches(x, ss@))),
                    None => c.base_uri_domains is None,
                }
            },
    {
        let (connect_domains, a) = parse_opt_string_array(v, "connectDomains");
        if !a {
            return None;
        }
        let (resource_domains, b) = parse_opt_string_array(v, "resourceDomains");
        if !b {
            return None;
        }
        let (frame_domains, c) = parse_opt_string_array(v, "frameDomains");
        if !c {
            return None;
        }
        let (base_uri_domains, d) = parse_opt_string_array(v, "baseUriDomains");
        if !d {
            return None;
        }
        Some(McpUiResourceCsp { connect_domains, resource_domains, frame_domains, base_uri_domains })
    }
}

impl UiResourceMeta {
    /// Decode resource metadata: the `ui` block with its CSP, permission,
    /// origin and border members.  Decoding fails when a present member has
    /// the wrong shape; the caller then drops the metadata.
    pub fn from_value(v: &JsonValue) -> (r: Option<UiResourceMeta>)
        ensures
            r matches Some(m) ==> ((m.ui is Some) == (spec_get(*v, "ui"@) matches Some(u) && u
                is Obj)),
            r matches Some(m) ==> (m.ui matches Some(d) ==> (spec_get(*v, "ui"@) matches Some(u)
                && {
                &&& d.prefers_border == (match spec_get(u, "prefersBorder"@) {
                    Some(JsonValue::Bool(b)) => Some(b),
                    _ => None,
                })
                &&& match spec_get(u, "domain"@) {
                    Some(JsonValue::Str(t)) => d.domain matches Some(w) && w@ == t@,
                    _ => d.domain is None,
                }
                &&& (d.csp is Some) ==> (spec_get(u, "csp"@) matches Some(x) && x is Obj)
            })),
    {
        let ui = match v.get("ui") {
            Some(u) => {
                if matches!(u, JsonValue::Obj(_)) {
                    let prefers_border = match u.get("prefersBorder") {
                        Some(b) => b.as_bool(),
                        None => None,
                    };
                    let domain = match u.get("domain") {
                        Some(x) => match x.as_str() {
                            Some(t) => Some(t.clone()),
                            None => None,
                        },
                        None => None,
                    };
                    let csp = match u.get("csp") {
                        Some(x) => {
                            if matches!(x, JsonValue::Obj(_)) {
                                match McpUiResourceCsp::from_value(x) {
                                    Some(c) => Some(c),
                                    None => {
                                        return None;
                                    },
                                }
                            } else {
                                None
                            }
                        },
                        None => None,
                    };
                    let permissions = {
                        let perms = match u.get("permissions") {
                            Some(p) => {
                                if matches!(p, JsonValue::Obj(_)) {
                                    let (camera, _) = parse_flag_member(p, "camera");
                                    let (microphone, _) = parse_flag_member(p, "microphone");
                                    let (geolocation, _) = parse_flag_member(p, "geolocation");
                                    let (clipboard_write, _) = parse_flag_member(
                                        p,
                                        "clipboardWrite",
                                    );
                                    Some(
                                        UiResourcePermissions {
                                            camera,
                                            microphone,
                                            geolocation,
                                            clipboard_write,
                                        },
                                    )
                                } else {
                                    None
                                }
                            },
                            None => None,
                        };
                        perms
                    };
                    Some(UiResourceDetails { csp, permissions, domain, prefers_border })
                } else {
                    None
                }
            },
            None => None,
        };
        Some(UiResourceMeta { ui })
    }
}

/// Two optional strings that read alike.
pub open spec fn spec_opt_string_like(a: Option<String>, b: Option<String>) -> bool {
    match (a, b) {
        (Some(x), Some(y)) => x@ == y@,
        (None, None) => true,
        _ => false,
    }
}

/// Two optional domain lists that read alike, element for element.
pub open spec fn spec_opt_domains_like(a: Option<Vec<String>>, b: Option<Vec<String>>) -> bool {
    match (a, b) {
        (Some(x), Some(y)) => x@.len() == y@.len() && forall|i: int|
            0 <= i < x@.len() ==> (#[trigger] x@[i])@ == y@[i]@,
        (None, None) => true,
        _ => false,
    }
}

/// Two CSP configurations that read alike.
pub open spec fn spec_csp_like(a: McpUiResourceCsp, b: McpUiResourceCsp) -> bool {
    &&& spec_opt_domains_like(a.connect_domains, b.connect_domains)
    &&& spec_opt_domains_like(a.resource_domains, b.resource_domains)
    &&& spec_opt_domains_like(a.frame_domains, b.frame_domains)
    &&& spec_opt_domains_like(a.base_uri_domains, b.base_uri_domains)
}

/// Two UI detail blocks that read alike.
pub open spec fn spec_details_like(a: UiResourceDetails, b: UiResourceDetails) -> bool {
    &&& match (a.csp, b.csp) {
        (Some(x), Some(y)) => spec_csp_like(x, y),
        (None, None) => true,
        _ => false,
    }
    &&& a.permissions == b.permissions
    &&& spec_opt_string_like(a.domain, b.domain)
    &&& a.prefers_border == b.prefers_border
}

/// Two metadata values that read alike.
pub open spec fn spec_meta_like(a: UiResourceMeta, b: UiResourceMeta) -> bool {
    match (a.ui, b.ui) {
        (Some(x), Some(y)) => spec_details_like(x, y),
        (None, None) => true,
        _ => false,
    }
}

/// Two optional metadata values that read alike.
pub open spec fn spec_opt_meta_like(a: Option<UiResourceMeta>, b: Option<UiResourceMeta>) -> bool {
    match (a, b) {
        (Some(x), Some(y)) => spec_meta_like(x, y),
        (None, None) => true,
        _ => false,
    }
}

/// Copy a list of strings, element for element.
fn clone_string_vec(v: &Vec<String>) -> (r: Vec<String>)
    ensures
        r@.len() == v@.len(),
        forall|i: int| 0 <= i < v@.len() ==> (#[trigger] v@[i])@ == r@[i]@,
{
    let n = v.len();
    let mut out: Vec<String> = Vec::new();
    let mut i: usize = 0;
    while i < n
        invariant
            0 <= i <= n,
            n == v@.len(),
            out@.len() == i,
            forall|j: int| 0 <= j < i ==> (#[trigger] v@[j])@ == out@[j]@,
        decreases n - i,
    {
        out.push(v[i].clone());
        i = i + 1;
    }
    out
}

/// Copy an optional list of strings, element for element.
fn clone_opt_domains(v: &Option<Vec<String>>) -> (r: Option<Vec<String>>)
    ensures
        spec_opt_domains_like(*v, r),
{
    match v {
        Some(list) => Some(clone_string_vec(list)),
        None => None,
    }
}

impl Clone for McpUiResourceCsp {
    /// A clone reads like its original.
    fn clone(&self) -> (r: Self)
        ensures
            spec_csp_like(*self, r),
    {
        McpUiResourceCsp {
            connect_domains: clone_opt_domains(&self.connect_domains),
            resource_domains: clone_opt_domains(&self.resource_domains),
            frame_domains: clone_opt_domains(&self.frame_domains),
            base_uri_domains: clone_opt_domains(&self.base_uri_domains),
        }
    }
}

impl Clone for UiResourceDetails {
    /// A clone reads like its original.
    fn clone(&self) -> (r: Self)
        ensures
            spec_details_like(*self, r),
    {
        UiResourceDetails {
            csp: match &self.csp {
                Some(c) => Some(c.clone()),
                None => None,
            },
            permissions: self.permissions,
            domain: match &self.domain {
                Some(d) => Some(d.clone()),
                None => None,
            },
            prefers_border: self.prefers_border,
        }
    }
}

impl Clone for UiResourceMeta {
    /// A clone reads like its original.
    fn clone(&self) -> (r: Self)
        ensures
            spec_meta_like(*self, r),
    {
        UiResourceMeta {
            ui: match &self.ui {
                Some(d) => Some(d.clone()),
                None => None,
            },
        }
    }
}

} // verus!
