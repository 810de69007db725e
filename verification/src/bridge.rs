//! The host-to-view bridge.
//!
//! A bridge is a second, independent message-correlation engine per
//! interactive session, layered over its own duplex channel and never over
//! the server connection's transport.  It allocates monotonically
//! increasing local request ids, keeps the table of in-flight ids, and
//! routes every incoming message: a response resolves its in-flight id, a
//! request dispatches to the registered request handler or is answered
//! with `METHOD_NOT_FOUND`, and a notification dispatches to the
//! registered notification handler or is dropped.  Handlers themselves are
//! the caller's; the bridge decides, and the caller runs the handler and
//! replies through [`UiBridge::reply_ok`] and [`UiBridge::reply_err`].

use vstd::prelude::*;

use crate::error_codes;
use crate::json::{json_eq, spec_get, JsonValue};
use crate::jsonrpc::{
    error_matches, error_object_ok, lemma_encoded_response_members, response_to_value,
    string_member, JsonRpcError, JsonRpcResponse,
};
use crate::strutil::str_eq;

verus! {

/// What the bridge decided about one incoming message.
pub enum BridgeDispatch {
    /// A response resolved the in-flight request under `id`.
    Resolved { id: u64, result: Result<JsonValue, JsonRpcError> },
    /// A response whose id is unknown or stale; dropped.
    StaleResponse,
    /// An inbound request for the caller's registered handler; the caller
    /// replies through `reply_ok` or `reply_err` with this id.
    RunRequest { id: JsonValue, method: String, params: Option<JsonValue> },
    /// An inbound notification for the caller's registered handler.
    RunNotification { method: String, params: Option<JsonValue> },
    /// An inbound notification for an unregistered method; dropped.
    Ignored,
    /// An inbound request for an unregistered method; an error response
    /// was queued for the view.
    MethodNotFound,
}

/// Whether the method list holds `m`.
pub open spec fn spec_registered(ms: Seq<String>, m: Seq<char>) -> bool {
    exists|i: int| 0 <= i < ms.len() && (#[trigger] ms[i])@ == m
}

/// A wire value is treated as a response when it carries a `result` or
/// `error` member.
pub open spec fn spec_is_response_msg(v: JsonValue) -> bool {
    spec_get(v, "result"@) is Some || spec_get(v, "error"@) is Some
}

/// The in-flight id a response value addresses, when it carries a
/// non-negative integer id.
pub open spec fn spec_response_id(v: JsonValue) -> Option<int> {
    match spec_get(v, "id"@) {
        Some(JsonValue::Int(n)) => if n >= 0 {
            Some(n as int)
        } else {
            None
        },
        _ => None,
    }
}

/// Whether `ms` holds `m`.
fn methods_contain(ms: &Vec<String>, m: &str) -> (r: bool)
    ensures
        r == spec_registered(ms@, m@),
{
    let n = ms.len();
    let mut i: usize = 0;
    while i < n
        invariant
            0 <= i <= n,
            n == ms@.len(),
            forall|j: int| 0 <= j < i ==> (#[trigger] ms@[j])@ != m@,
        decreases n - i,
    {
        if str_eq(ms[i].as_str(), m) {
            return true;
        }
        i = i + 1;
    }
    false
}

/// Whether `ids` holds `id`, and where.
fn pending_index(ids: &Vec<u64>, id: u64) -> (r: Option<usize>)
    ensures
        match r {
            Some(i) => 0 <= i < ids@.len() && ids@[i as int] == id,
            None => !ids@.contains(id),
        },
{
    let n = ids.len();
    let mut i: usize = 0;
    while i < n
        invariant
            0 <= i <= n,
            n == ids@.len(),
            forall|j: int| 0 <= j < i ==> ids@[j] != id,
        decreases n - i,
    {
        if ids[i] == id {
            return Some(i);
        }
        i = i + 1;
    }
    None
}

/// The bridge of one interactive session.
pub struct UiBridge {
    /// Bridge id
    pub id: String,
    /// The session this bridge belongs to
    pub session_id: String,
    /// Messages queued for the view, oldest first
    pub outgoing: Vec<JsonValue>,
    /// The next local request id
    pub next_id: u64,
    /// The ids of in-flight requests
    pub pending: Vec<u64>,
    /// Methods with a registered request handler
    pub request_methods: Vec<String>,
    /// Methods with a registered notification handler
    pub notification_methods: Vec<String>,
}

impl UiBridge {
    /// In-flight ids are pairwise distinct and below the id counter, as
    /// the monotonically increasing allocator leaves them.
    pub open spec fn wf(&self) -> bool {
        &&& forall|i: int, j: int|
            0 <= i < j < self.pending@.len() ==> self.pending@[i] != self.pending@[j]
        &&& forall|i: int| 0 <= i < self.pending@.len() ==> (#[trigger] self.pending@[i]) < self.next_id
    }

    /// A fresh bridge for a session: a new 36-character id, the id
    /// counter at 1, and everything else empty.
    pub fn new(session_id: &str) -> (r: UiBridge)
        ensures
            r.wf(),
            r.id@.len() == 36,
            r.session_id@ == session_id@,
            r.outgoing@.len() == 0,
            r.next_id == 1,
            r.pending@.len() == 0,
            r.request_methods@.len() == 0,
            r.notification_methods@.len() == 0,
    {
        UiBridge {
            id: crate::idgen::fresh_uuid(),
            session_id: String::from_str(session_id),
            outgoing: Vec::new(),
            next_id: 1,
            pending: Vec::new(),
            request_methods: Vec::new(),
            notification_methods: Vec::new(),
        }
    }

    /// Open a request to the view: allocate the next local id, register it
    /// as in flight, and queue the request.  The returned id is what the
    /// caller waits on; its response arrives through
    /// [`UiBridge::process_message`].
    pub fn open_request(&mut self, method: &str, params: Option<JsonValue>) -> (r: u64)
        requires
            old(self).next_id < u64::MAX,
            old(self).wf(),
        ensures
            final(self).wf(),
            r == old(self).next_id,
            final(self).next_id == old(self).next_id + 1,
            final(self).pending@ == old(self).pending@.push(r),
            final(self).outgoing@.len() == old(self).outgoing@.len() + 1,
            ({
                let v = final(self).outgoing@[final(self).outgoing@.len() - 1];
                &&& string_member(v, "jsonrpc"@, "2.0"@)
                &&& spec_get(v, "id"@) == Some(JsonValue::Int(r as i64))
                &&& string_member(v, "method"@, method@)
                &&& match params {
                    Some(p) => spec_get(v, "params"@) matches Some(q) && json_eq(p, q),
                    None => spec_get(v, "params"@) matches Some(q) && q is Null,
                }
            }),
            forall|k: int|
                0 <= k < old(self).outgoing@.len() ==> #[trigger] final(self).outgoing@[k] == old(self).outgoing@[k],
            final(self).id == old(self).id,
            final(self).session_id == old(self).session_id,
            final(self).request_methods == old(self).request_methods,
            final(self).notification_methods == old(self).notification_methods,
    {
        let id = self.next_id;
        self.next_id = self.next_id + 1;
        self.pending.push(id);
        let ghost had_params = params is Some;
        let req = crate::jsonrpc::JsonRpcRequest::new(method, params).with_id(
            JsonValue::Int(id as i64),
        );
        let v = crate::jsonrpc::request_to_value(&req);
        proof {
            crate::jsonrpc::lemma_encoded_request_members(req, v);
            crate::jsonrpc::lemma_json_eq_null(JsonValue::Int(id as i64), spec_get(v, "id"@)->0);
        }
        proof {
            let y = spec_get(v, "id"@)->0;
            assert(json_eq(JsonValue::Int(id as i64), y));
            assert(y == JsonValue::Int(id as i64));
        }
        self.outgoing.push(v);
        id
    }

    /// Queue a notification for the view.
    pub fn send_notification(&mut self, method: &str, params: Option<JsonValue>)
        ensures
            final(self).outgoing@.len() == old(self).outgoing@.len() + 1,
            ({
                let v = final(self).outgoing@[final(self).outgoing@.len() - 1];
                &&& string_member(v, "jsonrpc"@, "2.0"@)
                &&& string_member(v, "method"@, method@)
                &&& spec_get(v, "id"@) is None
                &&& match params {
                    Some(p) => spec_get(v, "params"@) matches Some(q) && json_eq(p, q),
                    None => spec_get(v, "params"@) matches Some(q) && q is Null,
                }
            }),
            forall|k: int|
                0 <= k < old(self).outgoing@.len() ==> #[trigger] final(self).outgoing@[k] == old(self).outgoing@[k],
            final(self).id == old(self).id,
            final(self).session_id == old(self).session_id,
            final(self).next_id == old(self).next_id,
            final(self).pending == old(self).pending,
            final(self).request_methods == old(self).request_methods,
            final(self).notification_methods == old(self).notification_methods,
    {
        let n = crate::jsonrpc::JsonRpcNotification::new(method, params);
        let v = crate::jsonrpc::notification_to_value(&n);
        proof {
            lemma_encoded_notification_members(n, v);
        }
        self.outgoing.push(v);
    }

    /// Register a request handler for `method`; the bridge then dispatches
    /// inbound requests for it instead of failing them.
    pub fn on_request(&mut self, method: &str)
        ensures
            final(self).request_methods@.len() == old(self).request_methods@.len() + 1,
            (final(self).request_methods@[final(self).request_methods@.len() - 1])@ == method@,
            forall|k: int|
                0 <= k < old(self).request_methods@.len() ==> #[trigger] final(self).request_methods@[k] == old(self).request_methods@[k],
            spec_registered(final(self).request_methods@, method@),
            final(self).id == old(self).id,
            final(self).session_id == old(self).session_id,
            final(self).outgoing == old(self).outgoing,
            final(self).next_id == old(self).next_id,
            final(self).pending == old(self).pending,
            final(self).notification_methods == old(self).notification_methods,
    {
        self.request_methods.push(String::from_str(method));
        proof {
            assert((self.request_methods@[self.request_methods@.len() - 1])@ == method@);
        }
    }

    /// Register a notification handler for `method`.
    pub fn on_notification(&mut self, method: &str)
        ensures
            final(self).notification_methods@.len() == old(self).notification_methods@.len() + 1,
            (final(self).notification_methods@[final(self).notification_methods@.len() - 1])@
                == method@,
            forall|k: int|
                0 <= k < old(self).notification_methods@.len() ==> #[trigger] final(self).notification_methods@[k] == old(self).notification_methods@[k],
            spec_registered(final(self).notification_methods@, method@),
            final(self).id == old(self).id,
            final(self).session_id == old(self).session_id,
            final(self).outgoing == old(self).outgoing,
            final(self).next_id == old(self).next_id,
            final(self).pending == old(self).pending,
            final(self).request_methods == old(self).request_methods,
    {
        self.notification_methods.push(String::from_str(method));
        proof {
            assert((self.notification_methods@[self.notification_methods@.len() - 1])@
                == method@);
        }
    }

    /// The next message queued for the view, oldest first.
    pub fn take_outgoing(&mut self) -> (r: Option<JsonValue>)
        ensures
            old(self).outgoing@.len() == 0 ==> r is None && final(self).outgoing@ == old(self).outgoing@,
            old(self).outgoing@.len() > 0 ==> r == Some(old(self).outgoing@[0]) && final(self).outgoing@ == old(self).outgoing@.drop_first(),
            final(self).id == old(self).id,
            final(self).session_id == old(self).session_id,
            final(self).next_id == old(self).next_id,
            final(self).pending == old(self).pending,
            final(self).request_methods == old(self).request_methods,
            final(self).notification_methods == old(self).notification_methods,
    {
        if self.outgoing.len() == 0 {
            None
        } else {
            let v = self.outgoing.remove(0);
            proof {
                assert(self.outgoing@ =~= old(self).outgoing@.drop_first());
            }
            Some(v)
        }
    }

    /// Queue a success response to an inbound request.
    pub fn reply_ok(&mut self, id: JsonValue, result: JsonValue)
        ensures
            final(self).outgoing@.len() == old(self).outgoing@.len() + 1,
            ({
                let v = final(self).outgoing@[final(self).outgoing@.len() - 1];
                &&& string_member(v, "jsonrpc"@, "2.0"@)
                &&& spec_get(v, "id"@) matches Some(y) && json_eq(id, y)
                &&& spec_get(v, "result"@) matches Some(x) && json_eq(result, x)
                &&& spec_get(v, "error"@) is None
            }),
            forall|k: int|
                0 <= k < old(self).outgoing@.len() ==> #[trigger] final(self).outgoing@[k] == old(self).outgoing@[k],
            final(self).pending == old(self).pending,
            final(self).next_id == old(self).next_id,
            final(self).id == old(self).id,
            final(self).session_id == old(self).session_id,
            final(self).request_methods == old(self).request_methods,
            final(self).notification_methods == old(self).notification_methods,
    {
        let resp = JsonRpcResponse {
            jsonrpc: String::from_str("2.0"),
            id: Some(id),
            result: Some(result),
            error: None,
        };
        let v = response_to_value(&resp);
        proof {
            lemma_encoded_response_members(resp, v);
        }
        self.outgoing.push(v);
    }

    /// Queue an error response to an inbound request.
    pub fn reply_err(&mut self, id: JsonValue, code: i32, message: &str)
        ensures
            final(self).outgoing@.len() == old(self).outgoing@.len() + 1,
            ({
                let v = final(self).outgoing@[final(self).outgoing@.len() - 1];
                &&& string_member(v, "jsonrpc"@, "2.0"@)
                &&& spec_get(v, "id"@) matches Some(y) && json_eq(id, y)
                &&& spec_get(v, "result"@) is None
                &&& spec_get(v, "error"@) matches Some(e) && spec_get(e, "code"@) == Some(
                    JsonValue::Int(code as i64),
                ) && string_member(e, "message"@, message@)
            }),
            forall|k: int|
                0 <= k < old(self).outgoing@.len() ==> #[trigger] final(self).outgoing@[k] == old(self).outgoing@[k],
            final(self).pending == old(self).pending,
            final(self).next_id == old(self).next_id,
            final(self).id == old(self).id,
            final(self).session_id == old(self).session_id,
            final(self).request_methods == old(self).request_methods,
            final(self).notification_methods == old(self).notification_methods,
    {
        let resp = JsonRpcResponse {
            jsonrpc: String::from_str("2.0"),
            id: Some(id),
            result: None,
            error: Some(JsonRpcError::new(code, message)),
        };
        let v = response_to_value(&resp);
        proof {
            lemma_encoded_response_members(resp, v);
            let y = spec_get(v, "error"@)->0;
            reveal_strlit("code");
            reveal_strlit("message");
            reveal_strlit("data");
            assert("code"@.len() == 4);
            assert("message"@.len() == 7);
            assert("data"@.len() == 4);
            assert("code"@ != "data"@) by {
                if "code"@ == "data"@ {
                    assert("code"@[0] == "data"@[0]);
                }
            }
            let fs = y->Obj_0;
            crate::json::lemma_obj_lookup_at(fs@, "code"@, 0);
            crate::json::lemma_obj_lookup_at(fs@, "message"@, 1);
        }
        self.outgoing.push(v);
    }

    /// Route one message from the view.
    ///
    /// A message with a `result` or `error` member is a response: it
    /// resolves its in-flight id, or is dropped when the id is unknown or
    /// stale.  A message with an `id` and neither member is a request: it
    /// is handed to the registered handler, or answered with a
    /// `METHOD_NOT_FOUND` error response.  A message with no `id` is a
    /// notification: it is handed to the registered handler, or dropped.
    /// A non-response without a string `method` member fails.
    pub fn process_message(&mut self, message: &JsonValue) -> (r: Result<BridgeDispatch, String>)
        requires
            old(self).wf(),
        ensures
            final(self).wf(),
            final(self).id == old(self).id,
            final(self).session_id == old(self).session_id,
            final(self).next_id == old(self).next_id,
            final(self).request_methods == old(self).request_methods,
            final(self).notification_methods == old(self).notification_methods,
            match r {
                Ok(d) => match d {
                    BridgeDispatch::Resolved { id, result } => {
                        &&& spec_is_response_msg(*message)
                        &&& spec_response_id(*message) == Some(id as int)
                        &&& old(self).pending@.contains(id)
                        &&& !final(self).pending@.contains(id)
                        &&& final(self).outgoing == old(self).outgoing
                        &&& match spec_get(*message, "error"@) {
                            Some(x) => result matches Err(e) && (if error_object_ok(x) {
                                error_matches(x, e)
                            } else {
                                e.code == error_codes::INTERNAL_ERROR
                            }),
                            None => result matches Ok(q) && (spec_get(*message, "result"@)
                                matches Some(x) && json_eq(x, q)),
                        }
                    },
                    BridgeDispatch::StaleResponse => {
                        &&& spec_is_response_msg(*message)
                        &&& match spec_response_id(*message) {
                            Some(n) => !old(self).pending@.contains(n as u64),
                            None => true,
                        }
                        &&& final(self).pending == old(self).pending
                        &&& final(self).outgoing == old(self).outgoing
                    },
                    BridgeDispatch::RunRequest { id, method, params } => {
                        &&& !spec_is_response_msg(*message)
                        &&& spec_get(*message, "id"@) matches Some(x) && json_eq(x, id)
                        &&& string_member(*message, "method"@, method@)
                        &&& spec_registered(old(self).request_methods@, method@)
                        &&& match spec_get(*message, "params"@) {
                            Some(p) => params matches Some(q) && json_eq(p, q),
                            None => params is None,
                        }
                        &&& final(self).pending == old(self).pending
                        &&& final(self).outgoing == old(self).outgoing
                    },
                    BridgeDispatch::MethodNotFound => {
                        &&& !spec_is_response_msg(*message)
                        &&& spec_get(*message, "id"@) is Some
                        &&& (spec_get(*message, "method"@) matches Some(JsonValue::Str(m))
                            && !spec_registered(old(self).request_methods@, m@))
                        &&& final(self).pending == old(self).pending
                        &&& final(self).outgoing@.len() == old(self).outgoing@.len() + 1
                        &&& ({
                            let v = final(self).outgoing@[final(self).outgoing@.len() - 1];
                            &&& string_member(v, "jsonrpc"@, "2.0"@)
                            &&& (spec_get(*message, "id"@) matches Some(x) && (spec_get(v, "id"@)
                                matches Some(y) && json_eq(x, y)))
                            &&& spec_get(v, "result"@) is None
                            &&& spec_get(v, "error"@) matches Some(e) && spec_get(e, "code"@)
                                == Some(JsonValue::Int(error_codes::METHOD_NOT_FOUND as i64))
                        })
                    },
                    BridgeDispatch::RunNotification { method, params } => {
                        &&& !spec_is_response_msg(*message)
                        &&& spec_get(*message, "id"@) is None
                        &&& string_member(*message, "method"@, method@)
                        &&& spec_registered(old(self).notification_methods@, method@)
                        &&& match spec_get(*message, "params"@) {
                            Some(p) => params matches Some(q) && json_eq(p, q),
                            None => params is None,
                        }
                        &&& final(self).pending == old(self).pending
                        &&& final(self).outgoing == old(self).outgoing
                    },
                    BridgeDispatch::Ignored => {
                        &&& !spec_is_response_msg(*message)
                        &&& spec_get(*message, "id"@) is None
                        &&& (spec_get(*message, "method"@) matches Some(JsonValue::Str(m))
                            && !spec_registered(old(self).notification_methods@, m@))
                        &&& final(self).pending == old(self).pending
                        &&& final(self).outgoing == old(self).outgoing
                    },
                },
                Err(_) => {
                    &&& !spec_is_response_msg(*message)
                    &&& !(spec_get(*message, "method"@) matches Some(x) && x is Str)
                    &&& final(self).pending == old(self).pending
                    &&& final(self).outgoing == old(self).outgoing
                },
            },
    {
        let has_result = match message.get("result") {
            Some(_) => true,
            None => false,
        };
        let has_error = match message.get("error") {
            Some(_) => true,
            None => false,
        };
        if has_result || has_error {
            // A response: resolve the in-flight id it addresses.
            let id64: Option<u64> = match message.get("id") {
                Some(x) => match x.as_int() {
                    Some(n) => if n >= 0 {
                        Some(n as u64)
                    } else {
                        None
                    },
                    None => None,
                },
                None => None,
            };
            let id = match id64 {
                Some(id) => id,
                None => {
                    return Ok(BridgeDispatch::StaleResponse);
                },
            };
            let i = match pending_index(&self.pending, id) {
                Some(i) => i,
                None => {
                    return Ok(BridgeDispatch::StaleResponse);
                },
            };
            let ghost before = self.pending@;
            let _ = self.pending.remove(i);
            proof {
                assert forall|j: int|
                    0 <= j < before.len() && j != i implies before[j] != id by {
                    if j < i as int {
                        assert(before[j] != before[i as int]);
                    } else {
                        assert(before[i as int] != before[j]);
                    }
                }
                lemma_remove_all_unique(before, i as int, id);
                assert forall|a: int, b: int|
                    0 <= a < b < self.pending@.len() implies self.pending@[a]
                        != self.pending@[b] by {
                    let t = self.pending@;
                    if b < i as int {
                        assert(t[a] == before[a] && t[b] == before[b]);
                    } else if a < i as int {
                        assert(t[a] == before[a] && t[b] == before[b + 1]);
                    } else {
                        assert(t[a] == before[a + 1] && t[b] == before[b + 1]);
                    }
                }
                assert forall|j: int|
                    0 <= j < self.pending@.len() implies (#[trigger] self.pending@[j])
                        < self.next_id by {
                    if j < i as int {
                        assert(self.pending@[j] == before[j]);
                    } else {
                        assert(self.pending@[j] == before[j + 1]);
                    }
                }
            }
            let result: Result<JsonValue, JsonRpcError> = match message.get("error") {
                Some(x) => {
                    let code64 = match x.get("code") {
                        Some(c) => c.as_int(),
                        None => None,
                    };
                    let decoded: Option<JsonRpcError> = match code64 {
                        Some(n) => {
                            if n >= i32::MIN as i64 && n <= i32::MAX as i64 {
                                match crate::jsonrpc::decode_string_member(x, "message") {
                                    Some(msg) => {
                                        let data = crate::jsonrpc::decode_opt_member(x, "data");
                                        Some(
                                            JsonRpcError {
                                                code: n as i32,
                                                message: msg,
                                                data,
                                            },
                                        )
                                    },
                                    None => None,
                                }
                            } else {
                                None
                            }
                        },
                        None => None,
                    };
                    match decoded {
                        Some(e) => Err(e),
                        None => Err(
                            JsonRpcError::new(error_codes::INTERNAL_ERROR, "Unknown error"),
                        ),
                    }
                },
                None => {
                    match message.get("result") {
                        Some(x) => Ok(x.deep_clone()),
                        None => {
                            proof {
                                assert(false);
                            }
                            Ok(JsonValue::Null)
                        },
                    }
                },
            };
            return Ok(BridgeDispatch::Resolved { id, result });
        }
        // A request or a notification.
        let method: String = match message.get("method") {
            Some(x) => match x.as_str() {
                Some(m) => m.clone(),
                None => {
                    return Err(String::from_str("Missing method"));
                },
            },
            None => {
                return Err(String::from_str("Missing method"));
            },
        };
        let params = match message.get("params") {
            Some(p) => Some(p.deep_clone()),
            None => None,
        };
        match message.get("id") {
            Some(idv) => {
                if methods_contain(&self.request_methods, method.as_str()) {
                    Ok(
                        BridgeDispatch::RunRequest {
                            id: idv.deep_clone(),
                            method,
                            params,
                        },
                    )
                } else {
                    let mut msg = String::from_str("Method not found: ");
                    msg.append(method.as_str());
                    let id = idv.deep_clone();
                    proof {
                        crate::json::lemma_json_eq_symm(spec_get(*message, "id"@)->0, id);
                    }
                    let ghost idg = id;
                    self.reply_err(id, error_codes::METHOD_NOT_FOUND, msg.as_str());
                    proof {
                        let v = self.outgoing@[self.outgoing@.len() - 1];
                        let x = spec_get(*message, "id"@)->0;
                        let y = spec_get(v, "id"@)->0;
                        crate::json::lemma_json_eq_trans(x, idg, y);
                    }
                    Ok(BridgeDispatch::MethodNotFound)
                }
            },
            None => {
                if methods_contain(&self.notification_methods, method.as_str()) {
                    Ok(BridgeDispatch::RunNotification { method, params })
                } else {
                    Ok(BridgeDispatch::Ignored)
                }
            },
        }
    }
}

/// Removing one occurrence of `id` from a list that holds it exactly once
/// leaves a list without `id`.
proof fn lemma_remove_all_unique(ids: Seq<u64>, i: int, id: u64)
    requires
        0 <= i < ids.len(),
        ids[i] == id,
        forall|j: int| 0 <= j < ids.len() && j != i ==> ids[j] != id,
    ensures
        !ids.remove(i).contains(id),
{
    let t = ids.remove(i);
    assert forall|j: int| 0 <= j < t.len() implies t[j] != id by {
        if j < i {
            assert(t[j] == ids[j]);
        } else {
            assert(t[j] == ids[j + 1]);
        }
    }
    if t.contains(id) {
        let j = choose|j: int| 0 <= j < t.len() && t[j] == id;
        assert(t[j] != id);
    }
}

/// What each member of an encoded notification looks up to.
pub proof fn lemma_encoded_notification_members(
    n: crate::jsonrpc::JsonRpcNotification,
    v: JsonValue,
)
    requires
        crate::jsonrpc::encoded_notification(n, v),
    ensures
        string_member(v, "jsonrpc"@, n.jsonrpc@),
        string_member(v, "method"@, n.method@),
        spec_get(v, "id"@) is None,
        match n.params {
            Some(x) => spec_get(v, "params"@) matches Some(y) && json_eq(x, y),
            None => spec_get(v, "params"@) matches Some(y) && y is Null,
        },
{
    reveal_with_fuel(crate::json::obj_lookup, 5);
    reveal_strlit("jsonrpc");
    reveal_strlit("method");
    reveal_strlit("params");
    reveal_strlit("id");
    assert("jsonrpc"@.len() == 7);
    assert("method"@.len() == 6);
    assert("params"@.len() == 6);
    assert("id"@.len() == 2);
    assert("method"@ != "params"@) by {
        if "method"@ == "params"@ {
            assert("method"@[0] == "params"@[0]);
        }
    }
    let fs = v->Obj_0;
    let t1 = fs@.drop_first();
    let t2 = t1.drop_first();
    let t3 = t2.drop_first();
    assert(t1[0] == fs@[1]);
    assert(t2[0] == fs@[2]);
    assert(t3 =~= Seq::<(String, JsonValue)>::empty());
    assert(crate::json::obj_lookup(fs@, "jsonrpc"@) == Some(fs@[0].1));
    assert(crate::json::obj_lookup(fs@, "method"@) == crate::json::obj_lookup(t1, "method"@));
    assert(crate::json::obj_lookup(t1, "method"@) == Some(fs@[1].1));
    assert(crate::json::obj_lookup(fs@, "params"@) == crate::json::obj_lookup(t1, "params"@));
    assert(crate::json::obj_lookup(t1, "params"@) == crate::json::obj_lookup(t2, "params"@));
    assert(crate::json::obj_lookup(t2, "params"@) == Some(fs@[2].1));
    assert(crate::json::obj_lookup(fs@, "id"@) == crate::json::obj_lookup(t1, "id"@));
    assert(crate::json::obj_lookup(t1, "id"@) == crate::json::obj_lookup(t2, "id"@));
    assert(crate::json::obj_lookup(t2, "id"@) == crate::json::obj_lookup(t3, "id"@));
    assert(crate::json::obj_lookup(fs@, "id"@) is None);
}

/// One observation of a bridge request's wait.
pub enum BridgeWaitEvent {
    /// [`UiBridge::process_message`] resolved the in-flight id with this
    /// result.
    Response(Result<JsonValue, JsonRpcError>),
    /// The session's channel closed before a response arrived.
    Closed,
    /// Nothing arrived yet.
    Pending,
}

/// What the bridge's wait does after one observation.
pub enum BridgeWaitOutcome {
    /// Keep waiting: nothing settled this request.
    Continue,
    /// The response arrived.
    Done(Result<JsonValue, JsonRpcError>),
    /// Waiting is over without a response; carries the error the caller
    /// gets.
    Abandoned(JsonRpcError),
}

/// Decide what one observation means for a bridge request in flight.
///
/// The bridge waits under the same fixed deadline as the server transport
/// (`transport::REQUEST_TIMEOUT_MS` past the send).  The deadline is
/// checked first: at or past it the wait fails with the internal-error
/// code and `Request timeout`, never sooner.  A closed channel fails with
/// the internal-error code and `Channel closed`; a resolved response ends
/// the wait with that result; otherwise the wait goes on.
pub fn bridge_wait_step(deadline_ms: u64, now_ms: u64, event: BridgeWaitEvent) -> (r:
    BridgeWaitOutcome)
    ensures
        (r matches BridgeWaitOutcome::Abandoned(e) && e.code == error_codes::INTERNAL_ERROR
            && e.message@ == "Request timeout"@) <==> now_ms >= deadline_ms,
        now_ms < deadline_ms ==> match event {
            BridgeWaitEvent::Response(res) => r matches BridgeWaitOutcome::Done(q) && q == res,
            BridgeWaitEvent::Closed => r matches BridgeWaitOutcome::Abandoned(e) && e.code
                == error_codes::INTERNAL_ERROR && e.message@ == "Channel closed"@,
            BridgeWaitEvent::Pending => r is Continue,
        },
{
    proof {
        reveal_strlit("Request timeout");
        reveal_strlit("Channel closed");
        assert("Request timeout"@.len() == 15);
        assert("Channel closed"@.len() == 14);
    }
    if now_ms >= deadline_ms {
        return BridgeWaitOutcome::Abandoned(
            JsonRpcError::new(error_codes::INTERNAL_ERROR, "Request timeout"),
        );
    }
    match event {
        BridgeWaitEvent::Response(res) => BridgeWaitOutcome::Done(res),
        BridgeWaitEvent::Closed => BridgeWaitOutcome::Abandoned(
            JsonRpcError::new(error_codes::INTERNAL_ERROR, "Channel closed"),
        ),
        BridgeWaitEvent::Pending => BridgeWaitOutcome::Continue,
    }
}

/// A bridge request is abandoned as timed out no sooner than its
/// configured deadline: with the deadline taken at `start_ms`, a timeout
/// can only be produced by an observation at least the full timeout after
/// the send.
pub proof fn lemma_bridge_timeout_not_early(
    deadline_ms: u64,
    start_ms: u64,
    now_ms: u64,
    r: BridgeWaitOutcome,
)
    requires
        deadline_ms == start_ms + crate::transport::REQUEST_TIMEOUT_MS,
        (r matches BridgeWaitOutcome::Abandoned(e) && e.code == error_codes::INTERNAL_ERROR
            && e.message@ == "Request timeout"@) ==> now_ms >= deadline_ms,
        r matches BridgeWaitOutcome::Abandoned(e) && e.code == error_codes::INTERNAL_ERROR
            && e.message@ == "Request timeout"@,
    ensures
        now_ms >= start_ms + crate::transport::REQUEST_TIMEOUT_MS,
{
}

/// Keeps the bridge of each active session.
pub struct BridgeManager {
    /// Bridges, keyed by session id.
    pub bridges: Vec<(String, UiBridge)>,
}

impl BridgeManager {
    /// Session ids are unique.
    pub open spec fn wf(&self) -> bool {
        forall|i: int, j: int|
            0 <= i < j < self.bridges@.len() ==> (#[trigger] self.bridges@[i]).0@ != (
            #[trigger] self.bridges@[j]).0@
    }

    /// An empty manager.
    pub fn new() -> (r: BridgeManager)
        ensures
            r.bridges@.len() == 0,
            r.wf(),
    {
        BridgeManager { bridges: Vec::new() }
    }

    /// The index of the bridge for `session_id`, if one exists.
    fn find_index(&self, session_id: &str) -> (r: Option<usize>)
        ensures
            match r {
                Some(i) => 0 <= i < self.bridges@.len() && (self.bridges@[i as int].0@
                    == session_id@),
                None => forall|j: int|
                    0 <= j < self.bridges@.len() ==> (#[trigger] self.bridges@[j]).0@
                        != session_id@,
            },
    {
        let n = self.bridges.len();
        let mut i: usize = 0;
        while i < n
            invariant
                0 <= i <= n,
                n == self.bridges@.len(),
                forall|j: int| 0 <= j < i ==> (#[trigger] self.bridges@[j]).0@ != session_id@,
            decreases n - i,
        {
            if str_eq(self.bridges[i].0.as_str(), session_id) {
                return Some(i);
            }
            i = i + 1;
        }
        None
    }

    /// Create and store a fresh bridge for a session, replacing any bridge
    /// already kept under that session id.
    pub fn create_bridge(&mut self, session_id: &str)
        requires
            old(self).wf(),
        ensures
            final(self).wf(),
            exists|i: int|
                0 <= i < final(self).bridges@.len() && (#[trigger] final(self).bridges@[i]).0@
                    == session_id@ && final(self).bridges@[i].1.session_id@ == session_id@,
    {
        match self.find_index(session_id) {
            Some(i) => {
                let ghost pre = self.bridges@;
                let _ = self.bridges.remove(i);
                proof {
                    assert forall|j: int|
                        0 <= j < self.bridges@.len() implies (#[trigger] self.bridges@[j]).0@
                            != session_id@ by {
                        if j < i {
                            assert(self.bridges@[j] == pre[j]);
                        } else {
                            assert(self.bridges@[j] == pre[j + 1]);
                        }
                    }
                }
            },
            None => {},
        }
        let b = UiBridge::new(session_id);
        self.bridges.push((String::from_str(session_id), b));
        proof {
            let cs = self.bridges@;
            assert((cs[cs.len() - 1]).0@ == session_id@);
        }
    }

    /// The bridge for a session, if one exists.
    pub fn get_bridge(&self, session_id: &str) -> (r: Option<&UiBridge>)
        ensures
            match r {
                Some(b) => exists|i: int|
                    0 <= i < self.bridges@.len() && (#[trigger] self.bridges@[i]).0@ == session_id@
                        && self.bridges@[i].1 == *b,
                None => forall|j: int|
                    0 <= j < self.bridges@.len() ==> (#[trigger] self.bridges@[j]).0@
                        != session_id@,
            },
    {
        match self.find_index(session_id) {
            Some(i) => Some(&self.bridges[i].1),
            None => None,
        }
    }

    /// Drop the bridge of a session; it is torn down with the session.
    pub fn remove_bridge(&mut self, session_id: &str)
        requires
            old(self).wf(),
        ensures
            final(self).wf(),
            forall|j: int|
                0 <= j < final(self).bridges@.len() ==> (#[trigger] final(self).bridges@[j]).0@
                    != session_id@,
    {
        match self.find_index(session_id) {
            Some(i) => {
                let ghost pre = self.bridges@;
                let _ = self.bridges.remove(i);
                proof {
                    assert forall|j: int|
                        0 <= j < self.bridges@.len() implies (#[trigger] self.bridges@[j]).0@
                            != session_id@ by {
                        if j < i {
                            assert(self.bridges@[j] == pre[j]);
                        } else {
                            assert(self.bridges@[j] == pre[j + 1]);
                        }
                    }
                }
            },
            None => {},
        }
    }
}

impl Default for BridgeManager {
    /// An empty manager.
    fn default() -> (r: Self)
        ensures
            r.bridges@.len() == 0,
            r.wf(),
    {
        BridgeManager::new()
    }
}

} // verus!
