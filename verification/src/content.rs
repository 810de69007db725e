//! Renderable content handed to the rendering surface.
//!
//! A resource read yields text or base64-encoded bytes; this module
//! resolves them to one string and classifies it: content that opens with
//! an `el(` call or mentions the `data.` context object is a rendering
//! script for the script-based renderer, anything else is HTML.

use vstd::prelude::*;

use crate::json::JsonValue;
use crate::resources::{UiResourceContent, UiResourceMeta};
use crate::strutil::{seq_contains_seq, seq_starts_with, str_contains, str_starts_with};

verus! {

/// Content a view can render.
pub enum UiContent {
    /// HTML content.
    Html { content: String, metadata: Option<UiResourceMeta> },
    /// A rendering script with its context data.
    RhaiScript { script: String, context: String },
    /// Unrenderable; carries the reason.
    Error(String),
    /// Still loading.
    Loading,
}

/// What the standard-alphabet base64 decoding of a string is, when the
/// string decodes at all.
pub uninterp spec fn base64_decoding(s: Seq<char>) -> Option<Seq<u8>>;

/// Relies on base64's `Engine::decode` with the standard padded alphabet:
/// the result is a function of the input characters alone.
#[verifier::external_body]
fn b64_decode(s: &str) -> (r: Option<Vec<u8>>)
    ensures
        match r {
            Some(bytes) => base64_decoding(s@) == Some(bytes@),
            None => base64_decoding(s@) is None,
        },
{
    match base64::Engine::decode(&base64::engine::general_purpose::STANDARD, s) {
        Ok(b) => Some(b),
        Err(_) => None,
    }
}

/// What `String::from_utf8_lossy` reads out of a byte string.
pub uninterp spec fn utf8_lossy(bytes: Seq<u8>) -> Seq<char>;

/// Relies on `String::from_utf8_lossy`: the result is a function of the
/// bytes alone.
#[verifier::external_body]
fn bytes_to_string_lossy(b: &Vec<u8>) -> (r: String)
    ensures
        r@ == utf8_lossy(b@),
{
    String::from_utf8_lossy(b.as_slice()).to_string()
}

/// The whitespace this module strips: space, tab, carriage return and
/// line feed.
pub open spec fn spec_is_ws(c: char) -> bool {
    c == ' ' || c == '\t' || c == '\n' || c == '\r'
}

/// `s` without its leading whitespace.
pub open spec fn spec_trim_start(s: Seq<char>) -> Seq<char>
    decreases s.len(),
{
    if s.len() > 0 && spec_is_ws(s[0]) {
        spec_trim_start(s.drop_first())
    } else {
        s
    }
}

/// `s` without its leading whitespace.
fn trim_start<'a>(s: &'a str) -> (r: &'a str)
    ensures
        r@ == spec_trim_start(s@),
{
    let mut t = s;
    loop
        invariant
            spec_trim_start(s@) == spec_trim_start(t@),
        decreases t@.len(),
    {
        let n = t.unicode_len();
        if n == 0 {
            return t;
        }
        let c = t.get_char(0);
        if c == ' ' || c == '\t' || c == '\n' || c == '\r' {
            let u = t.substring_char(1, n);
            proof {
                assert(u@ =~= t@.drop_first());
            }
            t = u;
        } else {
            return t;
        }
    }
}

/// Whether resolved content looks like a rendering script: after leading
/// whitespace it opens with an `el(` call, or it mentions the `data.`
/// context object anywhere.
pub open spec fn spec_looks_like_script(s: Seq<char>) -> bool {
    seq_starts_with(spec_trim_start(s), "el("@) || seq_contains_seq(s, "data."@)
}

/// The one string a resource read resolves to: its text, or its decoded
/// blob (an undecodable blob reads as empty), or nothing at all.
pub open spec fn spec_resolved_html(c: UiResourceContent) -> Option<Seq<char>> {
    match c.text {
        Some(t) => Some(t@),
        None => match c.blob {
            Some(b) => Some(
                utf8_lossy(
                    match base64_decoding(b@) {
                        Some(bytes) => bytes,
                        None => Seq::empty(),
                    },
                ),
            ),
            None => None,
        },
    }
}

impl UiContent {
    /// Resolve and classify the content of a resource read.
    ///
    /// The text is used as it stands; a blob is base64-decoded first, with
    /// an undecodable blob reading as empty.  Script-looking content
    /// becomes a rendering script carrying the tool result (or `{}`) as
    /// its context; anything else becomes HTML carrying the resource
    /// metadata; a read with neither text nor blob is an error.
    pub fn from_resource_content(content: UiResourceContent, tool_result: Option<String>) -> (r:
        UiContent)
        ensures
            match spec_resolved_html(content) {
                None => r matches UiContent::Error(m) && m@ == "No content in resource"@,
                Some(h) => if spec_looks_like_script(h) {
                    r matches UiContent::RhaiScript { script, context } && script@ == h
                        && context@ == (match tool_result {
                        Some(t) => t@,
                        None => "{}"@,
                    })
                } else {
                    r matches UiContent::Html { content: cc, metadata } && cc@ == h && metadata
                        == content._meta
                },
            },
    {
        let html: String = match content.text {
            Some(t) => t,
            None => {
                match &content.blob {
                    Some(b) => {
                        let bytes = match b64_decode(b.as_str()) {
                            Some(bs) => bs,
                            None => Vec::new(),
                        };
                        bytes_to_string_lossy(&bytes)
                    },
                    None => {
                        return UiContent::Error(String::from_str("No content in resource"));
                    },
                }
            },
        };
        let is_script = str_starts_with(trim_start(html.as_str()), "el(") || str_contains(
            html.as_str(),
            "data.",
        );
        if is_script {
            let context = match tool_result {
                Some(t) => t,
                None => String::from_str("{}"),
            };
            return UiContent::RhaiScript { script: html, context };
        }
        UiContent::Html { content: html, metadata: content._meta }
    }

    /// Whether this content is HTML.
    pub fn is_html(&self) -> (r: bool)
        ensures
            r == (self is Html),
    {
        matches!(self, UiContent::Html { .. })
    }

    /// Whether this content is a rendering script.
    pub fn is_rhai(&self) -> (r: bool)
        ensures
            r == (self is RhaiScript),
    {
        matches!(self, UiContent::RhaiScript { .. })
    }
}

/// What an interactive view sends back into the host.  The rendering
/// surface produces these; the driver around the bridge routes each into
/// the matching protocol request or notification.
pub enum UiMessageEvent {
    /// The view asks the host to run a tool.
    ToolCall { name: String, arguments: JsonValue },
    /// The view sends a message for the model.
    Message { role: String, content: JsonValue },
    /// The view asks the host to open an external link.
    OpenLink { url: String },
    /// The view asks for another display mode.
    RequestDisplayMode { mode: crate::capabilities::DisplayMode },
    /// The view contributes content to the model's context.
    UpdateModelContext { content: Option<Vec<JsonValue>>, structured_content: Option<JsonValue> },
    /// The view logs a message.
    Log { level: String, message: String },
    /// The view's size changed.
    SizeChanged { width: u32, height: u32 },
}

} // verus!
