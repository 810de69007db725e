//! Transport layer: failure taxonomy, the in-memory channel pair, and the
//! reply-correlation rules every transport follows.
//!
//! A transport carries one JSON value per message.  `send_request` writes the
//! request and then consumes incoming messages until one echoes the request's
//! id, discarding unrelated traffic, bounded by a fixed deadline.  The
//! decision rules of that loop live here as [`request_wait_step`], a pure
//! function of the pending request, the clock and the next read event; the
//! loop around it performs the actual reads.  The in-memory pair wires a
//! same-process server to the host without any process boundary.

use vstd::prelude::*;

use crate::json::{json_eq, spec_get, JsonValue};
use crate::jsonrpc::{
    response_matches, response_value_ok, JsonRpcResponse, MessageParseError,
};

verus! {

/// How long a sent request waits for its response, in milliseconds.
pub const REQUEST_TIMEOUT_MS: u64 = 30000;

/// Transport failures.
#[derive(Clone, Debug)]
pub enum TransportError {
    /// An operating-system read or write failed.
    Io(String),
    /// A payload was not valid JSON.
    Json(String),
    /// No matching response arrived before the deadline.
    Timeout,
    /// The peer is gone.
    Disconnected,
    /// A structurally invalid message arrived.
    Protocol(String),
}

impl TransportError {
    /// A short description of this failure.
    pub fn describe(&self) -> (r: String)
        ensures
            match self {
                TransportError::Io(e) => r@ == "IO error: "@ + e@,
                TransportError::Json(e) => r@ == "JSON error: "@ + e@,
                TransportError::Timeout => r@ == "Operation timed out"@,
                TransportError::Disconnected => r@ == "Transport disconnected"@,
                TransportError::Protocol(e) => r@ == "Protocol error: "@ + e@,
            },
    {
        match self {
            TransportError::Io(e) => {
                let mut s = String::from_str("IO error: ");
                s.append(e.as_str());
                s
            },
            TransportError::Json(e) => {
                let mut s = String::from_str("JSON error: ");
                s.append(e.as_str());
                s
            },
            TransportError::Timeout => String::from_str("Operation timed out"),
            TransportError::Disconnected => String::from_str("Transport disconnected"),
            TransportError::Protocol(e) => {
                let mut s = String::from_str("Protocol error: ");
                s.append(e.as_str());
                s
            },
        }
    }
}

/// The deadline of a request issued at `start_ms`: the fixed timeout later,
/// clamped at the top of the clock's range.
pub fn request_deadline(start_ms: u64) -> (r: u64)
    ensures
        start_ms + REQUEST_TIMEOUT_MS <= u64::MAX ==> r == start_ms + REQUEST_TIMEOUT_MS,
        start_ms + REQUEST_TIMEOUT_MS > u64::MAX ==> r == u64::MAX,
        r >= start_ms,
{
    if start_ms > u64::MAX - REQUEST_TIMEOUT_MS {
        u64::MAX
    } else {
        start_ms + REQUEST_TIMEOUT_MS
    }
}

/// A request in flight: the id its response must echo, and the clock
/// reading at which waiting stops.
pub struct PendingRequest {
    /// The id of the sent request; a response echoes it, a request sent
    /// without an id is answered with a `null` id.
    pub id: Option<JsonValue>,
    /// When to stop waiting, in the clock of [`request_wait_step`].
    pub deadline_ms: u64,
}

/// One observation of the transport's read side.
pub enum ReadEvent {
    /// A message arrived.
    Line(JsonValue),
    /// Something arrived that was not valid JSON; carries the decoder's
    /// words.
    BadLine(String),
    /// The read side is exhausted: the peer closed the stream.
    Eof,
}

/// What the reply loop does after one observation.
pub enum WaitOutcome {
    /// Keep reading: the event did not settle this request.
    Continue,
    /// The matching response arrived.
    Done(JsonRpcResponse),
    /// Waiting is over without a response.
    Failed(TransportError),
}

/// Whether a wire value's `id` member echoes the pending id.  A pending
/// request without an id is matched by a `null` id, and a value without any
/// `id` member matches nothing.
pub open spec fn spec_id_matches(pending: Option<JsonValue>, v: JsonValue) -> bool {
    match spec_get(v, "id"@) {
        Some(echoed) => match pending {
            Some(want) => json_eq(want, echoed),
            None => echoed is Null,
        },
        None => false,
    }
}

/// Whether a wire value's `id` member echoes the pending id.
pub fn id_matches(pending: &Option<JsonValue>, v: &JsonValue) -> (r: bool)
    ensures
        r == spec_id_matches(*pending, *v),
{
    match v.get("id") {
        Some(echoed) => match pending {
            Some(want) => want.deep_eq(echoed),
            None => echoed.is_null(),
        },
        None => false,
    }
}

/// Decide what one read event means for a pending request.
///
/// The deadline is checked first: at or past it the request fails with
/// `Timeout`, never sooner.  End of stream fails with `Disconnected`, an
/// undecodable line with `Json`.  A message whose `id` echoes the pending id
/// resolves the wait — with the decoded response, or with `Json` when the
/// message does not decode as a response — and every other message is
/// discarded and the wait goes on.
pub fn request_wait_step(pending: &PendingRequest, now_ms: u64, event: ReadEvent) -> (r:
    WaitOutcome)
    ensures
        r matches WaitOutcome::Failed(e) && e is Timeout <==> now_ms >= pending.deadline_ms,
        now_ms < pending.deadline_ms ==> match event {
            ReadEvent::Line(v) => {
                if spec_id_matches(pending.id, v) {
                    match r {
                        WaitOutcome::Done(p) => response_value_ok(v) && response_matches(v, p),
                        WaitOutcome::Failed(e) => e is Json && !response_value_ok(v),
                        WaitOutcome::Continue => false,
                    }
                } else {
                    r is Continue
                }
            },
            ReadEvent::BadLine(m) => r matches WaitOutcome::Failed(e) && e matches
                TransportError::Json(w) && w@ == m@,
            ReadEvent::Eof => r matches WaitOutcome::Failed(e) && e is Disconnected,
        },
{
    if now_ms >= pending.deadline_ms {
        return WaitOutcome::Failed(TransportError::Timeout);
    }
    match event {
        ReadEvent::Line(v) => {
            if id_matches(&pending.id, &v) {
                match crate::jsonrpc::response_from_value(&v) {
                    Ok(p) => WaitOutcome::Done(p),
                    Err(_) => WaitOutcome::Failed(
                        TransportError::Json(String::from_str("malformed response")),
                    ),
                }
            } else {
                WaitOutcome::Continue
            }
        },
        ReadEvent::BadLine(m) => WaitOutcome::Failed(TransportError::Json(m)),
        ReadEvent::Eof => WaitOutcome::Failed(TransportError::Disconnected),
    }
}

/// A request times out no sooner than its configured deadline: when the
/// deadline was taken at `start_ms`, a `Timeout` can only be produced by an
/// observation at least the full timeout after the start.
pub proof fn lemma_timeout_not_early(
    pending: PendingRequest,
    start_ms: u64,
    now_ms: u64,
    r: WaitOutcome,
)
    requires
        pending.deadline_ms == start_ms + REQUEST_TIMEOUT_MS,
        r matches WaitOutcome::Failed(e) && e is Timeout ==> now_ms >= pending.deadline_ms,
        r matches WaitOutcome::Failed(e) && e is Timeout,
    ensures
        now_ms >= start_ms + REQUEST_TIMEOUT_MS,
{
}

/// The two ends of an in-memory transport pair.
#[derive(Clone, Copy, PartialEq, Eq, Structural, Debug)]
pub enum PairEnd {
    /// The host's end.
    Client,
    /// The embedded server's end.
    Server,
}

/// An in-memory transport pair: two queues created together, each end
/// sending into the queue the other end reads.  It wires a same-process
/// server without any process boundary; both ends live in one place, so the
/// pair is driven by whoever holds it, message by message.
pub struct MemoryTransportPair {
    /// Messages sent by the client, not yet read by the server.
    client_to_server: Vec<JsonValue>,
    /// Messages sent by the server, not yet read by the client.
    server_to_client: Vec<JsonValue>,
    /// Whether the pair is open.
    connected: bool,
}

impl MemoryTransportPair {
    /// What the server has yet to read.
    pub closed spec fn to_server(&self) -> Seq<JsonValue> {
        self.client_to_server@
    }

    /// What the client has yet to read.
    pub closed spec fn to_client(&self) -> Seq<JsonValue> {
        self.server_to_client@
    }

    /// Whether the pair is open.
    pub closed spec fn connected(&self) -> bool {
        self.connected
    }

    /// A fresh pair: open, with both queues empty.
    pub fn create_pair() -> (r: MemoryTransportPair)
        ensures
            r.to_server() == Seq::<JsonValue>::empty(),
            r.to_client() == Seq::<JsonValue>::empty(),
            r.connected(),
    {
        MemoryTransportPair { client_to_server: Vec::new(), server_to_client: Vec::new(), connected: true }
    }

    /// Whether the pair is open.
    pub fn is_connected(&self) -> (r: bool)
        ensures
            r == self.connected(),
    {
        self.connected
    }

    /// Close the pair; nothing can be sent or received afterwards.
    pub fn close(&mut self)
        ensures
            !final(self).connected(),
            final(self).to_server() == old(self).to_server(),
            final(self).to_client() == old(self).to_client(),
    {
        self.connected = false;
    }

    /// Send a message from one end to the other: it joins the back of the
    /// peer's queue.  Fails with `Disconnected` on a closed pair.
    pub fn send(&mut self, from: PairEnd, msg: JsonValue) -> (r: Result<(), TransportError>)
        ensures
            old(self).connected() ==> r is Ok && final(self).connected() && (match from {
                PairEnd::Client => final(self).to_server() == old(self).to_server().push(msg)
                    && final(self).to_client() == old(self).to_client(),
                PairEnd::Server => final(self).to_client() == old(self).to_client().push(msg)
                    && final(self).to_server() == old(self).to_server(),
            }),
            !old(self).connected() ==> (r matches Err(e) && e is Disconnected && (*final(self)
                == *old(self))),
    {
        if !self.connected {
            return Err(TransportError::Disconnected);
        }
        match from {
            PairEnd::Client => self.client_to_server.push(msg),
            PairEnd::Server => self.server_to_client.push(msg),
        }
        Ok(())
    }

    /// Receive the next message waiting at one end, if any: the front of
    /// that end's queue.  A closed pair, like an empty queue, yields
    /// nothing.
    pub fn receive(&mut self, at: PairEnd) -> (r: Option<JsonValue>)
        ensures
            !old(self).connected() ==> r is None && *final(self) == *old(self),
            old(self).connected() ==> final(self).connected() && (match at {
                PairEnd::Client => {
                    &&& final(self).to_server() == old(self).to_server()
                    &&& if old(self).to_client().len() == 0 {
                        r is None && final(self).to_client() == old(self).to_client()
                    } else {
                        r == Some(old(self).to_client()[0]) && final(self).to_client() == old(
                            self,
                        ).to_client().drop_first()
                    }
                },
                PairEnd::Server => {
                    &&& final(self).to_client() == old(self).to_client()
                    &&& if old(self).to_server().len() == 0 {
                        r is None && final(self).to_server() == old(self).to_server()
                    } else {
                        r == Some(old(self).to_server()[0]) && final(self).to_server() == old(
                            self,
                        ).to_server().drop_first()
                    }
                },
            }),
    {
        if !self.connected {
            return None;
        }
        match at {
            PairEnd::Client => {
                if self.server_to_client.len() == 0 {
                    None
                } else {
                    let v = self.server_to_client.remove(0);
                    proof {
                        assert(self.server_to_client@ =~= old(self).server_to_client@.drop_first());
                    }
                    Some(v)
                }
            },
            PairEnd::Server => {
                if self.client_to_server.len() == 0 {
                    None
                } else {
                    let v = self.client_to_server.remove(0);
                    proof {
                        assert(self.client_to_server@ =~= old(self).client_to_server@.drop_first());
                    }
                    Some(v)
                }
            },
        }
    }
}

} // verus!
