//! RPC request handling: request/response shapes, method routing, and the
//! streaming-event forwarder. The concrete method table (LLM, file and
//! credential operations) is a collaborator supplied from outside the core;
//! the core decides routing and owns the error shapes.

use vstd::prelude::*;
use vstd::string::StringExecFns;
use crate::text::str_eq;

verus! {

/// An RPC request decoded from an incoming envelope.
pub struct RpcRequest {
    pub id: serde_json::Value,
    pub method: String,
    pub params: serde_json::Value,
}

/// The single terminal outcome of an RPC request.
pub struct RpcResponse {
    pub id: serde_json::Value,
    pub result: Option<serde_json::Value>,
    pub error: Option<RpcError>,
}

/// A structured RPC failure, always paired with the request id.
#[derive(Debug, Clone)]
pub struct RpcError {
    pub code: i64,
    pub message: String,
}

/// Reserved code for a method the table does not know.
pub const METHOD_NOT_FOUND: i64 = -32601;

impl RpcResponse {
    /// A successful response carrying the original id.
    pub fn success(id: serde_json::Value, result: serde_json::Value) -> (r: RpcResponse)
        ensures
            r.id == id,
            r.result == Some(result),
            r.error is None,
    {
        RpcResponse { id, result: Some(result), error: None }
    }

    /// An error response carrying the original id.
    pub fn error(id: serde_json::Value, error: RpcError) -> (r: RpcResponse)
        ensures
            r.id == id,
            r.result is None,
            r.error == Some(error),
    {
        RpcResponse { id, result: None, error: Some(error) }
    }
}

/// Whether a method name streams events instead of returning one response.
pub open spec fn spec_is_streaming(m: Seq<char>) -> bool {
    m == "llm.chat_stream"@
}

/// Check if a method is a streaming method.
pub fn is_streaming_method(method: &str) -> (r: bool)
    ensures
        r == spec_is_streaming(method@),
{
    str_eq(method, "llm.chat_stream")
}

/// Where a method name is executed.
#[derive(Debug, Clone, Copy, PartialEq, Eq, Structural)]
pub enum MethodRoute {
    /// Answered by the core itself.
    SystemHealth,
    /// Server supervisor operations, handled by the core.
    JsStartServer,
    JsStopServer,
    JsCall,
    JsListServers,
    /// Looked up in the externally supplied method table; a name the table
    /// does not hold is answered with a method-not-found error.
    Collaborator,
}

/// The routing decision for a method name.
pub open spec fn spec_route(m: Seq<char>) -> MethodRoute {
    if m == "system.health"@ {
        MethodRoute::SystemHealth
    } else if m == "js.start_server"@ {
        MethodRoute::JsStartServer
    } else if m == "js.stop_server"@ {
        MethodRoute::JsStopServer
    } else if m == "js.call"@ {
        MethodRoute::JsCall
    } else if m == "js.list_servers"@ {
        MethodRoute::JsListServers
    } else {
        MethodRoute::Collaborator
    }
}

/// Route a method name.
pub fn route_method(method: &str) -> (r: MethodRoute)
    ensures
        r == spec_route(method@),
{
    if str_eq(method, "system.health") {
        MethodRoute::SystemHealth
    } else if str_eq(method, "js.start_server") {
        MethodRoute::JsStartServer
    } else if str_eq(method, "js.stop_server") {
        MethodRoute::JsStopServer
    } else if str_eq(method, "js.call") {
        MethodRoute::JsCall
    } else if str_eq(method, "js.list_servers") {
        MethodRoute::JsListServers
    } else {
        MethodRoute::Collaborator
    }
}

/// The error for a method name the table does not know.
pub fn method_not_found(method: &str) -> (e: RpcError)
    ensures
        e.code == METHOD_NOT_FOUND,
        e.message@ == "Unknown method: "@ + method@,
{
    let prefix: String = "Unknown method: ".to_owned();
    RpcError { code: METHOD_NOT_FOUND, message: prefix.concat(method) }
}

/// The error for a streaming method name the core does not know.
pub fn unknown_streaming_method(method: &str) -> (e: RpcError)
    ensures
        e.code == METHOD_NOT_FOUND,
        e.message@ == "Unknown streaming method: "@ + method@,
{
    let prefix: String = "Unknown streaming method: ".to_owned();
    RpcError { code: METHOD_NOT_FOUND, message: prefix.concat(method) }
}

/// Whether a stream event kind ends its stream.
pub open spec fn spec_is_terminal(t: Seq<char>) -> bool {
    t == "done"@ || t == "error"@
}

/// Check if a stream event kind is terminal.
pub fn is_terminal_event(event_type: &str) -> (r: bool)
    ensures
        r == spec_is_terminal(event_type@),
{
    str_eq(event_type, "done") || str_eq(event_type, "error")
}

/// Per-stream forwarding state: once a terminal event has been passed on,
/// nothing further is ever emitted for that stream id.
pub struct StreamForwarder {
    terminated: bool,
}

impl StreamForwarder {
    /// Whether the stream's one terminal event has been emitted.
    pub closed spec fn is_terminated(&self) -> bool {
        self.terminated
    }

    /// A forwarder for a fresh stream id.
    pub fn new() -> (r: StreamForwarder)
        ensures
            !r.is_terminated(),
    {
        StreamForwarder { terminated: false }
    }

    /// Decide whether to forward an event of the given kind. Events after
    /// the terminal one are dropped; the terminal event itself is emitted
    /// and closes the stream.
    pub fn accept(&mut self, event_type: &str) -> (emit: bool)
        ensures
            old(self).is_terminated() ==> !emit && *final(self) == *old(self),
            !old(self).is_terminated() ==> emit,
            !old(self).is_terminated()
                ==> final(self).is_terminated() == spec_is_terminal(event_type@),
    {
        if self.terminated {
            false
        } else {
            if is_terminal_event(event_type) {
                self.terminated = true;
            }
            true
        }
    }
}

/// The event kinds a forwarder emits from a stream of incoming kinds:
/// everything up to and including the first terminal kind.
pub open spec fn spec_emitted(events: Seq<Seq<char>>) -> Seq<Seq<char>>
    decreases events.len(),
{
    if events.len() == 0 {
        Seq::empty()
    } else if spec_is_terminal(events[0]) {
        seq![events[0]]
    } else {
        seq![events[0]] + spec_emitted(events.drop_first())
    }
}

/// Law: when the incoming stream holds a terminal event, what is emitted
/// ends with exactly one terminal event and carries no event after it.
pub proof fn lemma_one_terminal(events: Seq<Seq<char>>)
    requires
        exists|i: int| 0 <= i < events.len() && spec_is_terminal(events[i]),
    ensures
        spec_emitted(events).len() > 0,
        spec_is_terminal(spec_emitted(events).last()),
        forall|j: int|
            0 <= j < spec_emitted(events).len() - 1
                ==> !spec_is_terminal(spec_emitted(events)[j]),
    decreases events.len(),
{
    let i = choose|i: int| 0 <= i < events.len() && spec_is_terminal(events[i]);
    if !spec_is_terminal(events[0]) {
        assert(events.drop_first()[i - 1] == events[i]);
        lemma_one_terminal(events.drop_first());
        let e = spec_emitted(events);
        let tail = spec_emitted(events.drop_first());
        assert(e.last() == tail.last());
        assert forall|j: int| 0 <= j < e.len() - 1 implies !spec_is_terminal(e[j]) by {
            if j > 0 {
                assert(e[j] == tail[j - 1]);
            }
        }
    }
}

} // verus!
