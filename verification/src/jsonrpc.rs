//! JSON-RPC 2.0 envelopes.
//!
//! A request carries an `id` that its response must echo verbatim; a
//! notification never carries one.  Envelopes convert to and from the
//! [`JsonValue`] tree: `*_to_value` builds the wire object and
//! [`parse_message`] classifies and decodes an incoming object, deciding by
//! the presence of an `id` member and of a `result` or `error` member.

use vstd::prelude::*;

use crate::json::{json_eq, obj_lookup, spec_get, JsonValue};

verus! {

/// Extension identifier for the apps extension.
pub const UI_EXTENSION_ID: &'static str = "io.modelcontextprotocol/ui";

/// Protocol version spoken by this host.
pub const PROTOCOL_VERSION: &'static str = "2026-01-26";

/// JSON-RPC 2.0 request.
#[derive(Debug)]
pub struct JsonRpcRequest {
    pub jsonrpc: String,
    pub id: Option<JsonValue>,
    pub method: String,
    pub params: Option<JsonValue>,
}

/// JSON-RPC 2.0 response.
#[derive(Debug)]
pub struct JsonRpcResponse {
    pub jsonrpc: String,
    pub id: Option<JsonValue>,
    pub result: Option<JsonValue>,
    pub error: Option<JsonRpcError>,
}

/// JSON-RPC 2.0 error object.
#[derive(Debug)]
pub struct JsonRpcError {
    pub code: i32,
    pub message: String,
    pub data: Option<JsonValue>,
}

/// JSON-RPC 2.0 notification: a request without an `id`.
#[derive(Debug)]
pub struct JsonRpcNotification {
    pub jsonrpc: String,
    pub method: String,
    pub params: Option<JsonValue>,
}

/// Any JSON-RPC message.
#[derive(Debug)]
pub enum Message {
    Request(JsonRpcRequest),
    Response(JsonRpcResponse),
    Notification(JsonRpcNotification),
}

/// The failure of [`parse_message`] on a value that does not decode as any
/// message kind.
#[derive(Clone, Copy, PartialEq, Eq, Structural, Debug)]
pub struct MessageParseError;

impl JsonRpcRequest {
    /// A request for `method`.  The id defaults to `1`; the synchronous
    /// handshake issues one request at a time, and every other caller
    /// supplies its own id through [`JsonRpcRequest::with_id`].
    pub fn new(method: &str, params: Option<JsonValue>) -> (r: JsonRpcRequest)
        ensures
            r.jsonrpc@ == "2.0"@,
            r.id == Some(JsonValue::Int(1i64)),
            r.method@ == method@,
            r.params == params,
    {
        JsonRpcRequest {
            jsonrpc: String::from_str("2.0"),
            id: Some(JsonValue::Int(1)),
            method: String::from_str(method),
            params,
        }
    }

    /// The same request under a caller-chosen id.
    pub fn with_id(self, id: JsonValue) -> (r: JsonRpcRequest)
        ensures
            r.jsonrpc == self.jsonrpc,
            r.id == Some(id),
            r.method == self.method,
            r.params == self.params,
    {
        JsonRpcRequest { id: Some(id), ..self }
    }
}

impl JsonRpcNotification {
    /// A notification for `method`.
    pub fn new(method: &str, params: Option<JsonValue>) -> (r: JsonRpcNotification)
        ensures
            r.jsonrpc@ == "2.0"@,
            r.method@ == method@,
            r.params == params,
    {
        JsonRpcNotification {
            jsonrpc: String::from_str("2.0"),
            method: String::from_str(method),
            params,
        }
    }
}

impl JsonRpcError {
    /// An error object without data.
    pub fn new(code: i32, message: &str) -> (r: JsonRpcError)
        ensures
            r.code == code,
            r.message@ == message@,
            r.data is None,
    {
        JsonRpcError { code, message: String::from_str(message), data: None }
    }

    /// The same error object carrying `data`.
    pub fn with_data(self, data: JsonValue) -> (r: JsonRpcError)
        ensures
            r.code == self.code,
            r.message == self.message,
            r.data == Some(data),
    {
        JsonRpcError { data: Some(data), ..self }
    }
}

/// How an optional envelope member relates to a decoded `Option`: an absent
/// or `null` member decodes to `None`, anything else to an equal copy.
pub open spec fn opt_member_of(v: JsonValue, key: Seq<char>, p: Option<JsonValue>) -> bool {
    match spec_get(v, key) {
        None => p is None,
        Some(x) => if x is Null {
            p is None
        } else {
            p matches Some(q) && json_eq(x, q)
        },
    }
}

/// A wire value is a notification when it has no `id` member at all.
pub open spec fn is_notification_value(v: JsonValue) -> bool {
    spec_get(v, "id"@) is None
}

/// A wire value is a response when it carries an `id` member and a `result`
/// or `error` member.
pub open spec fn is_response_value(v: JsonValue) -> bool {
    !is_notification_value(v) && (spec_get(v, "result"@) is Some || spec_get(v, "error"@) is Some)
}

/// A wire value is a request when it carries an `id` member but neither
/// `result` nor `error`.
pub open spec fn is_request_value(v: JsonValue) -> bool {
    !is_notification_value(v) && spec_get(v, "result"@) is None && spec_get(v, "error"@) is None
}

/// A member that must be a string for the envelope to decode.
pub open spec fn string_member(v: JsonValue, key: Seq<char>, s: Seq<char>) -> bool {
    spec_get(v, key) matches Some(JsonValue::Str(t)) && t@ == s
}

/// Whether `v` has a string member at `key`.
pub open spec fn has_string_member(v: JsonValue, key: Seq<char>) -> bool {
    spec_get(v, key) matches Some(x) && x is Str
}

/// A notification value decodes when `jsonrpc` and `method` are strings.
pub open spec fn notification_value_ok(v: JsonValue) -> bool {
    has_string_member(v, "jsonrpc"@) && has_string_member(v, "method"@)
}

/// A request value decodes when `jsonrpc` and `method` are strings.
pub open spec fn request_value_ok(v: JsonValue) -> bool {
    has_string_member(v, "jsonrpc"@) && has_string_member(v, "method"@)
}

/// An error member decodes when it is an object whose `code` is an integer
/// that fits `i32` and whose `message` is a string.
pub open spec fn error_object_ok(x: JsonValue) -> bool {
    &&& spec_get(x, "code"@) matches Some(JsonValue::Int(c)) && i32::MIN <= c <= i32::MAX
    &&& has_string_member(x, "message"@)
}

/// A response value decodes when `jsonrpc` is a string and the `error`
/// member, if present and not `null`, is a well-formed error object.
pub open spec fn response_value_ok(v: JsonValue) -> bool {
    &&& has_string_member(v, "jsonrpc"@)
    &&& match spec_get(v, "error"@) {
        None => true,
        Some(x) => x is Null || error_object_ok(x),
    }
}

/// The decoded notification `n` reads exactly the members of `v`.
pub open spec fn notification_matches(v: JsonValue, n: JsonRpcNotification) -> bool {
    &&& string_member(v, "jsonrpc"@, n.jsonrpc@)
    &&& string_member(v, "method"@, n.method@)
    &&& opt_member_of(v, "params"@, n.params)
}

/// The decoded request `q` reads exactly the members of `v`.
pub open spec fn request_matches(v: JsonValue, q: JsonRpcRequest) -> bool {
    &&& string_member(v, "jsonrpc"@, q.jsonrpc@)
    &&& string_member(v, "method"@, q.method@)
    &&& opt_member_of(v, "id"@, q.id)
    &&& opt_member_of(v, "params"@, q.params)
}

/// The decoded error object `e` reads exactly the members of `x`.
pub open spec fn error_matches(x: JsonValue, e: JsonRpcError) -> bool {
    &&& spec_get(x, "code"@) == Some(JsonValue::Int(e.code as i64))
    &&& string_member(x, "message"@, e.message@)
    &&& opt_member_of(x, "data"@, e.data)
}

/// The decoded response `p` reads exactly the members of `v`.
pub open spec fn response_matches(v: JsonValue, p: JsonRpcResponse) -> bool {
    &&& string_member(v, "jsonrpc"@, p.jsonrpc@)
    &&& opt_member_of(v, "id"@, p.id)
    &&& opt_member_of(v, "result"@, p.result)
    &&& match spec_get(v, "error"@) {
        None => p.error is None,
        Some(x) => if x is Null {
            p.error is None
        } else {
            p.error matches Some(e) && error_matches(x, e)
        },
    }
}

/// Copy an optional payload member out of an envelope struct into a wire
/// object member: `None` is written as `null`.
fn encode_opt(p: &Option<JsonValue>) -> (r: JsonValue)
    ensures
        match p {
            Some(x) => json_eq(*x, r),
            None => r is Null,
        },
{
    match p {
        Some(x) => x.deep_clone(),
        None => JsonValue::Null,
    }
}

/// The wire object that [`request_to_value`] builds for `req`.
pub open spec fn encoded_request(req: JsonRpcRequest, v: JsonValue) -> bool {
    &&& v matches JsonValue::Obj(fs)
    &&& fs@.len() == 4
    &&& fs@[0].0@ == "jsonrpc"@
    &&& fs@[0].1 matches JsonValue::Str(s) && s@ == req.jsonrpc@
    &&& fs@[1].0@ == "id"@
    &&& match req.id {
        Some(x) => json_eq(x, fs@[1].1),
        None => fs@[1].1 is Null,
    }
    &&& fs@[2].0@ == "method"@
    &&& fs@[2].1 matches JsonValue::Str(m) && m@ == req.method@
    &&& fs@[3].0@ == "params"@
    &&& match req.params {
        Some(x) => json_eq(x, fs@[3].1),
        None => fs@[3].1 is Null,
    }
}

/// Encode a request as its wire object: members `jsonrpc`, `id`, `method`,
/// `params`, in that order, with absent options written as `null`.
pub fn request_to_value(req: &JsonRpcRequest) -> (r: JsonValue)
    ensures
        encoded_request(*req, r),
{
    let mut fields: Vec<(String, JsonValue)> = Vec::new();
    fields.push((String::from_str("jsonrpc"), JsonValue::Str(req.jsonrpc.clone())));
    fields.push((String::from_str("id"), encode_opt(&req.id)));
    fields.push((String::from_str("method"), JsonValue::Str(req.method.clone())));
    fields.push((String::from_str("params"), encode_opt(&req.params)));
    JsonValue::Obj(fields)
}

/// Equal JSON values are `null` together.
pub proof fn lemma_json_eq_null(a: JsonValue, b: JsonValue)
    requires
        json_eq(a, b),
    ensures
        (a is Null) == (b is Null),
{
}

/// The wire object that [`notification_to_value`] builds for `n`.
pub open spec fn encoded_notification(n: JsonRpcNotification, v: JsonValue) -> bool {
    &&& v matches JsonValue::Obj(fs)
    &&& fs@.len() == 3
    &&& fs@[0].0@ == "jsonrpc"@
    &&& fs@[0].1 matches JsonValue::Str(s) && s@ == n.jsonrpc@
    &&& fs@[1].0@ == "method"@
    &&& fs@[1].1 matches JsonValue::Str(m) && m@ == n.method@
    &&& fs@[2].0@ == "params"@
    &&& match n.params {
        Some(x) => json_eq(x, fs@[2].1),
        None => fs@[2].1 is Null,
    }
}

/// Encode a notification as its wire object: members `jsonrpc`, `method`,
/// `params`, in that order; there is never an `id` member.
pub fn notification_to_value(n: &JsonRpcNotification) -> (r: JsonValue)
    ensures
        encoded_notification(*n, r),
{
    let mut fields: Vec<(String, JsonValue)> = Vec::new();
    fields.push((String::from_str("jsonrpc"), JsonValue::Str(n.jsonrpc.clone())));
    fields.push((String::from_str("method"), JsonValue::Str(n.method.clone())));
    fields.push((String::from_str("params"), encode_opt(&n.params)));
    JsonValue::Obj(fields)
}

/// The wire object that [`error_to_value`] builds for `e`.
pub open spec fn encoded_error(e: JsonRpcError, v: JsonValue) -> bool {
    &&& v matches JsonValue::Obj(fs)
    &&& fs@.len() == (if e.data is Some {
        3int
    } else {
        2int
    })
    &&& fs@[0].0@ == "code"@
    &&& fs@[0].1 == JsonValue::Int(e.code as i64)
    &&& fs@[1].0@ == "message"@
    &&& fs@[1].1 matches JsonValue::Str(m) && m@ == e.message@
    &&& match e.data {
        Some(d) => fs@[2].0@ == "data"@ && json_eq(d, fs@[2].1),
        None => true,
    }
}

/// Encode an error object: members `code` and `message`, then `data` only
/// when present.
pub fn error_to_value(e: &JsonRpcError) -> (r: JsonValue)
    ensures
        encoded_error(*e, r),
{
    let mut fields: Vec<(String, JsonValue)> = Vec::new();
    fields.push((String::from_str("code"), JsonValue::Int(e.code as i64)));
    fields.push((String::from_str("message"), JsonValue::Str(e.message.clone())));
    match &e.data {
        Some(d) => {
            fields.push((String::from_str("data"), d.deep_clone()));
        },
        None => {},
    }
    JsonValue::Obj(fields)
}

/// The wire object that [`response_to_value`] builds for `p`: members
/// `jsonrpc` and `id` always, then `result` and `error` only when present.
pub open spec fn encoded_response(p: JsonRpcResponse, v: JsonValue) -> bool {
    &&& v matches JsonValue::Obj(fs)
    &&& fs@.len() == 2 + (if p.result is Some {
        1int
    } else {
        0int
    }) + (if p.error is Some {
        1int
    } else {
        0int
    })
    &&& fs@[0].0@ == "jsonrpc"@
    &&& fs@[0].1 matches JsonValue::Str(s) && s@ == p.jsonrpc@
    &&& fs@[1].0@ == "id"@
    &&& match p.id {
        Some(x) => json_eq(x, fs@[1].1),
        None => fs@[1].1 is Null,
    }
    &&& match p.result {
        Some(x) => fs@[2].0@ == "result"@ && json_eq(x, fs@[2].1),
        None => true,
    }
    &&& match p.error {
        Some(e) => {
            let i = if p.result is Some {
                3int
            } else {
                2int
            };
            fs@[i].0@ == "error"@ && encoded_error(e, fs@[i].1)
        },
        None => true,
    }
}

/// Encode a response as its wire object.
pub fn response_to_value(p: &JsonRpcResponse) -> (r: JsonValue)
    ensures
        encoded_response(*p, r),
{
    let mut fields: Vec<(String, JsonValue)> = Vec::new();
    fields.push((String::from_str("jsonrpc"), JsonValue::Str(p.jsonrpc.clone())));
    fields.push((String::from_str("id"), encode_opt(&p.id)));
    match &p.result {
        Some(x) => {
            fields.push((String::from_str("result"), x.deep_clone()));
        },
        None => {},
    }
    match &p.error {
        Some(e) => {
            fields.push((String::from_str("error"), error_to_value(e)));
        },
        None => {},
    }
    JsonValue::Obj(fields)
}

/// Read an optional payload member back out of a wire object.
pub(crate) fn decode_opt_member(v: &JsonValue, key: &str) -> (r: Option<JsonValue>)
    ensures
        opt_member_of(*v, key@, r),
{
    match v.get(key) {
        None => None,
        Some(x) => {
            if x.is_null() {
                None
            } else {
                Some(x.deep_clone())
            }
        },
    }
}

/// Read a member that must be a string; `None` when it is missing or not a
/// string.
pub(crate) fn decode_string_member(v: &JsonValue, key: &str) -> (r: Option<String>)
    ensures
        match r {
            Some(s) => string_member(*v, key@, s@),
            None => !has_string_member(*v, key@),
        },
{
    match v.get(key) {
        None => None,
        Some(x) => match x.as_str() {
            Some(s) => Some(s.clone()),
            None => None,
        },
    }
}

/// Decode the `error` member of a response value.  `Ok(None)` when the
/// member is absent or `null`; `Err` when it is present but malformed.
fn decode_error_member(v: &JsonValue) -> (r: Result<Option<JsonRpcError>, MessageParseError>)
    ensures
        match r {
            Ok(oe) => match spec_get(*v, "error"@) {
                None => oe is None,
                Some(x) => if x is Null {
                    oe is None
                } else {
                    oe matches Some(e) && error_matches(x, e)
                },
            },
            Err(_) => (match spec_get(*v, "error"@) {
                None => false,
                Some(x) => !(x is Null) && !error_object_ok(x),
            }),
        },
{
    let x = match v.get("error") {
        None => {
            return Ok(None);
        },
        Some(x) => x,
    };
    if x.is_null() {
        return Ok(None);
    }
    let code64 = match x.get("code") {
        Some(c) => match c.as_int() {
            Some(n) => n,
            None => {
                return Err(MessageParseError);
            },
        },
        None => {
            return Err(MessageParseError);
        },
    };
    if code64 < i32::MIN as i64 || code64 > i32::MAX as i64 {
        return Err(MessageParseError);
    }
    let code: i32 = code64 as i32;
    let message = match decode_string_member(x, "message") {
        Some(m) => m,
        None => {
            return Err(MessageParseError);
        },
    };
    let data = decode_opt_member(x, "data");
    Ok(Some(JsonRpcError { code, message, data }))
}

/// Classify and decode a wire value.
///
/// A value without an `id` member is a notification; one with an `id` and a
/// `result` or `error` member is a response; any other value with an `id` is
/// a request.  Decoding fails exactly when the chosen kind's required
/// members are missing or of the wrong type.
pub fn parse_message(value: &JsonValue) -> (r: Result<Message, MessageParseError>)
    ensures
        match r {
            Ok(m) => match m {
                Message::Notification(n) => is_notification_value(*value)
                    && notification_value_ok(*value) && notification_matches(*value, n),
                Message::Response(p) => is_response_value(*value) && response_value_ok(*value)
                    && response_matches(*value, p),
                Message::Request(q) => is_request_value(*value) && request_value_ok(*value)
                    && request_matches(*value, q),
            },
            Err(_) => {
                ||| is_notification_value(*value) && !notification_value_ok(*value)
                ||| is_response_value(*value) && !response_value_ok(*value)
                ||| is_request_value(*value) && !request_value_ok(*value)
            },
        },
{
    let has_id = match value.get("id") {
        Some(_) => true,
        None => false,
    };
    if !has_id {
        let jsonrpc = match decode_string_member(value, "jsonrpc") {
            Some(s) => s,
            None => {
                return Err(MessageParseError);
            },
        };
        let method = match decode_string_member(value, "method") {
            Some(s) => s,
            None => {
                return Err(MessageParseError);
            },
        };
        let params = decode_opt_member(value, "params");
        return Ok(Message::Notification(JsonRpcNotification { jsonrpc, method, params }));
    }
    let has_result = match value.get("result") {
        Some(_) => true,
        None => false,
    };
    let has_error = match value.get("error") {
        Some(_) => true,
        None => false,
    };
    if has_result || has_error {
        let jsonrpc = match decode_string_member(value, "jsonrpc") {
            Some(s) => s,
            None => {
                return Err(MessageParseError);
            },
        };
        let id = decode_opt_member(value, "id");
        let result = decode_opt_member(value, "result");
        let error = match decode_error_member(value) {
            Ok(oe) => oe,
            Err(e) => {
                return Err(e);
            },
        };
        return Ok(Message::Response(JsonRpcResponse { jsonrpc, id, result, error }));
    }
    let jsonrpc = match decode_string_member(value, "jsonrpc") {
        Some(s) => s,
        None => {
            return Err(MessageParseError);
        },
    };
    let method = match decode_string_member(value, "method") {
        Some(s) => s,
        None => {
            return Err(MessageParseError);
        },
    };
    let id = decode_opt_member(value, "id");
    let params = decode_opt_member(value, "params");
    Ok(Message::Request(JsonRpcRequest { jsonrpc, id, method, params }))
}



/// Decode a wire value as a response envelope, without classifying it
/// first: the transport's reply loop already matched its `id`, and a bare
/// `{jsonrpc, id}` object decodes as a response with neither result nor
/// error.
pub fn response_from_value(v: &JsonValue) -> (r: Result<JsonRpcResponse, MessageParseError>)
    ensures
        match r {
            Ok(p) => response_value_ok(*v) && response_matches(*v, p),
            Err(_) => !response_value_ok(*v),
        },
{
    let jsonrpc = match decode_string_member(v, "jsonrpc") {
        Some(s) => s,
        None => {
            return Err(MessageParseError);
        },
    };
    let id = decode_opt_member(v, "id");
    let result = decode_opt_member(v, "result");
    let error = match decode_error_member(v) {
        Ok(oe) => oe,
        Err(e) => {
            return Err(e);
        },
    };
    Ok(JsonRpcResponse { jsonrpc, id, result, error })
}

/// What each member of an encoded request looks up to.
///
/// Together with the contract of [`parse_message`] this says that the wire
/// object of a request is classified as a request again and decodes.
pub proof fn lemma_encoded_request_members(req: JsonRpcRequest, v: JsonValue)
    requires
        encoded_request(req, v),
    ensures
        string_member(v, "jsonrpc"@, req.jsonrpc@),
        string_member(v, "method"@, req.method@),
        match req.id {
            Some(x) => spec_get(v, "id"@) matches Some(y) && json_eq(x, y),
            None => spec_get(v, "id"@) matches Some(y) && y is Null,
        },
        match req.params {
            Some(x) => spec_get(v, "params"@) matches Some(y) && json_eq(x, y),
            None => spec_get(v, "params"@) matches Some(y) && y is Null,
        },
        spec_get(v, "result"@) is None,
        spec_get(v, "error"@) is None,
        is_request_value(v),
        request_value_ok(v),
{
    reveal_with_fuel(obj_lookup, 6);
    reveal_strlit("jsonrpc");
    reveal_strlit("id");
    reveal_strlit("method");
    reveal_strlit("params");
    reveal_strlit("result");
    reveal_strlit("error");
    let fs = v->Obj_0;
    let t1 = fs@.drop_first();
    let t2 = t1.drop_first();
    let t3 = t2.drop_first();
    let t4 = t3.drop_first();
    assert(t1 =~= fs@.subrange(1, 4));
    assert(t2 =~= fs@.subrange(2, 4));
    assert(t3 =~= fs@.subrange(3, 4));
    assert(t4 =~= Seq::<(String, JsonValue)>::empty());
    assert(t1[0] == fs@[1] && t1[1] == fs@[2] && t1[2] == fs@[3]);
    assert(t2[0] == fs@[2] && t2[1] == fs@[3]);
    assert(t3[0] == fs@[3]);
    assert("jsonrpc"@.len() == 7);
    assert("id"@.len() == 2);
    assert("method"@.len() == 6);
    assert("params"@.len() == 6);
    assert("result"@.len() == 6);
    assert("error"@.len() == 5);
    assert("method"@ != "params"@) by {
        if "method"@ == "params"@ {
            assert("method"@[0] == "params"@[0]);
        }
    }
    assert("method"@ != "result"@) by {
        if "method"@ == "result"@ {
            assert("method"@[0] == "result"@[0]);
        }
    }
    assert("params"@ != "result"@) by {
        if "params"@ == "result"@ {
            assert("params"@[0] == "result"@[0]);
        }
    }
    assert(fs@[0].0@ != "id"@);
    assert(fs@.len() == 4);
    assert(obj_lookup(fs@, "id"@) == obj_lookup(t1, "id"@));
    assert(t1[0].0@ == "id"@);
    assert(obj_lookup(t1, "id"@) == Some(t1[0].1));
    assert(spec_get(v, "jsonrpc"@) == Some(fs@[0].1));
    assert(spec_get(v, "id"@) == Some(fs@[1].1));
    assert(spec_get(v, "method"@) == Some(fs@[2].1));
    assert(obj_lookup(fs@, "params"@) == obj_lookup(t1, "params"@));
    assert(obj_lookup(t1, "params"@) == obj_lookup(t2, "params"@));
    assert(obj_lookup(t2, "params"@) == obj_lookup(t3, "params"@));
    assert(obj_lookup(t3, "params"@) == Some(t3[0].1));
    assert(spec_get(v, "params"@) == Some(fs@[3].1));
    assert(obj_lookup(fs@, "result"@) == obj_lookup(t1, "result"@));
    assert(obj_lookup(t1, "result"@) == obj_lookup(t2, "result"@));
    assert(obj_lookup(t2, "result"@) == obj_lookup(t3, "result"@));
    assert(obj_lookup(t3, "result"@) == obj_lookup(t4, "result"@));
    assert(spec_get(v, "result"@) is None);
    assert(t2[0].0@ == "method"@);
    assert(t3[0].0@ == "params"@);
    assert(obj_lookup(fs@, "error"@) == obj_lookup(t1, "error"@));
    assert(obj_lookup(t1, "error"@) == obj_lookup(t2, "error"@));
    assert(obj_lookup(t2, "error"@) == obj_lookup(t3, "error"@));
    assert(obj_lookup(t3, "error"@) == obj_lookup(t4, "error"@));
    assert(spec_get(v, "error"@) is None);
}

/// A request that goes to the wire and back keeps its method and its id.
///
/// `v` is the wire object of `req` and `q` any request decoded from `v`, as
/// [`request_to_value`] and [`parse_message`] describe them.  A `null` id is
/// left aside: the wire writes an absent id as `null`, so decoding reads
/// `Some(null)` back as no id at all.
pub proof fn lemma_request_round_trip(req: JsonRpcRequest, v: JsonValue, q: JsonRpcRequest)
    requires
        encoded_request(req, v),
        request_matches(v, q),
        req.id matches Some(x) ==> !(x is Null),
        req.params matches Some(x) ==> !(x is Null),
    ensures
        q.method@ == req.method@,
        q.jsonrpc@ == req.jsonrpc@,
        match (req.id, q.id) {
            (Some(a), Some(b)) => json_eq(a, b),
            (None, None) => true,
            _ => false,
        },
        match (req.params, q.params) {
            (Some(a), Some(b)) => json_eq(a, b),
            (None, None) => true,
            _ => false,
        },
{
    lemma_encoded_request_members(req, v);
    match req.id {
        Some(a) => {
            let y = spec_get(v, "id"@)->0;
            lemma_json_eq_null(a, y);
            let b = q.id->0;
            crate::json::lemma_json_eq_trans(a, y, b);
        },
        None => {},
    }
    match req.params {
        Some(a) => {
            let y = spec_get(v, "params"@)->0;
            lemma_json_eq_null(a, y);
            let b = q.params->0;
            crate::json::lemma_json_eq_trans(a, y, b);
        },
        None => {},
    }
}

/// What each member of an encoded response looks up to.
pub proof fn lemma_encoded_response_members(p: JsonRpcResponse, v: JsonValue)
    requires
        encoded_response(p, v),
    ensures
        string_member(v, "jsonrpc"@, p.jsonrpc@),
        match p.id {
            Some(x) => spec_get(v, "id"@) matches Some(y) && json_eq(x, y),
            None => spec_get(v, "id"@) matches Some(y) && y is Null,
        },
        match p.result {
            Some(x) => spec_get(v, "result"@) matches Some(y) && json_eq(x, y),
            None => spec_get(v, "result"@) is None,
        },
        match p.error {
            Some(e) => spec_get(v, "error"@) matches Some(y) && encoded_error(e, y),
            None => spec_get(v, "error"@) is None,
        },
{
    reveal_with_fuel(obj_lookup, 6);
    reveal_strlit("jsonrpc");
    reveal_strlit("id");
    reveal_strlit("result");
    reveal_strlit("error");
    assert("jsonrpc"@.len() == 7);
    assert("id"@.len() == 2);
    assert("result"@.len() == 6);
    assert("error"@.len() == 5);
    let fs = v->Obj_0;
    let ri: int = if p.result is Some {
        1int
    } else {
        0int
    };
    let t1 = fs@.drop_first();
    let t2 = t1.drop_first();
    let t3 = t2.drop_first();
    let t4 = t3.drop_first();
    assert(t1 =~= fs@.skip(1));
    assert(t1[0] == fs@[1]);
    if fs@.len() > 2 {
        assert(t2[0] == fs@[2]);
    }
    if fs@.len() > 3 {
        assert(t3[0] == fs@[3]);
    }
    assert(obj_lookup(fs@, "jsonrpc"@) == Some(fs@[0].1));
    assert(obj_lookup(fs@, "id"@) == obj_lookup(t1, "id"@));
    assert(obj_lookup(t1, "id"@) == Some(fs@[1].1));
    assert(obj_lookup(fs@, "result"@) == obj_lookup(t1, "result"@));
    assert(obj_lookup(fs@, "error"@) == obj_lookup(t1, "error"@));
    if p.result is Some {
        assert(obj_lookup(t1, "result"@) == obj_lookup(t2, "result"@));
        assert(obj_lookup(t2, "result"@) == Some(fs@[2].1));
    } else {
        assert(obj_lookup(t1, "result"@) == obj_lookup(t2, "result"@));
        if p.error is Some {
            assert(t2 =~= fs@.skip(3 + ri - 1));
        }
        assert(obj_lookup(fs@, "result"@) is None) by {
            if fs@.len() == 2 {
                assert(t2 =~= Seq::<(String, JsonValue)>::empty());
            } else {
                assert(fs@.len() == 3);
                assert(t2[0] == fs@[2]);
                assert(fs@[2].0@ == "error"@);
                assert(t3 =~= Seq::<(String, JsonValue)>::empty());
            }
        }
    }
    if p.error is Some {
        let ei = 2 + ri;
        assert(fs@[ei].0@ == "error"@);
        if p.result is Some {
            assert(obj_lookup(t1, "error"@) == obj_lookup(t2, "error"@));
            assert(obj_lookup(t2, "error"@) == obj_lookup(t3, "error"@));
            assert(obj_lookup(t3, "error"@) == Some(fs@[3].1));
        } else {
            assert(obj_lookup(t1, "error"@) == obj_lookup(t2, "error"@));
            assert(obj_lookup(t2, "error"@) == Some(fs@[2].1));
        }
    } else {
        assert(obj_lookup(fs@, "error"@) is None) by {
            if p.result is Some {
                assert(t2[0] == fs@[2]);
                assert(fs@[2].0@ == "result"@);
                assert(t3 =~= Seq::<(String, JsonValue)>::empty());
            } else {
                assert(t2 =~= Seq::<(String, JsonValue)>::empty());
            }
        }
    }
}

} // verus!
