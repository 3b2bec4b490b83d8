//! Decoded messages and their classification, and the exact bytes of every
//! outgoing envelope. Incoming frames carry a JSON object with a `type`
//! tag; outgoing envelopes are produced here byte-for-byte so that the
//! writer loop only ever frames and sends.

use vstd::prelude::*;
use vstd::string::StringSliceAdditionalSpecFns;
use vstd::utf8::encode_utf8;
use crate::codec::FrameError;
use crate::json::{parse_json, get_field, value_as_str, clone_value, null_value, spec_json_ok};
use crate::text::{lit, spec_quoted, spec_idec, push_lit, push_quoted,
    push_i64_dec, str_to_bytes, str_eq};
use crate::rpc::{spec_is_streaming, is_streaming_method, RpcError};

verus! {

/// A message decoded from one incoming frame.
pub struct IncomingEnvelope {
    /// The `type` tag: `ping`, `status`, `shutdown`, `rpc`, or something
    /// unrecognized.
    pub msg_type: String,
    /// Correlation id, present on rpc messages.
    pub id: Option<serde_json::Value>,
    /// Method name, present on rpc messages.
    pub method: Option<String>,
    /// Method parameters; `null` when absent.
    pub params: serde_json::Value,
}

/// A console line published by one sandbox, forwarded as a console envelope.
/// Entries are ephemeral: broadcast once, never stored.
#[derive(Debug, Clone)]
pub struct ConsoleLogMessage {
    pub server_id: String,
    pub level: String,
    pub message: String,
}

/// What the dispatcher does with one classified message.
#[derive(Debug, Clone, Copy, PartialEq, Eq, Structural)]
pub enum DispatchAction {
    /// `ping`: answer immediately with a pong status.
    ReplyPong,
    /// `status`: answer immediately with the readiness status.
    ReplyReady,
    /// `shutdown`: terminate the process; no reply.
    Terminate,
    /// `rpc`: run the method on its own task; `streaming` picks the
    /// one-response or event-stream path.
    Rpc { streaming: bool },
    /// Unrecognized type: log and ignore, the connection continues.
    Ignore,
}

/// The view of an optional method name.
pub open spec fn spec_method_view(m: Option<String>) -> Option<Seq<char>> {
    match m {
        Some(s) => Some(s@),
        None => None,
    }
}

/// The classification table: how each incoming `type` tag is acted on.
pub open spec fn spec_classify(t: Seq<char>, method: Option<Seq<char>>) -> DispatchAction {
    if t == "ping"@ {
        DispatchAction::ReplyPong
    } else if t == "status"@ {
        DispatchAction::ReplyReady
    } else if t == "shutdown"@ {
        DispatchAction::Terminate
    } else if t == "rpc"@ {
        DispatchAction::Rpc {
            streaming: method is Some && spec_is_streaming(method->0),
        }
    } else {
        DispatchAction::Ignore
    }
}

/// Classify one decoded message.
pub fn classify(env: &IncomingEnvelope) -> (r: DispatchAction)
    ensures
        r == spec_classify(env.msg_type@, spec_method_view(env.method)),
{
    if str_eq(env.msg_type.as_str(), "ping") {
        DispatchAction::ReplyPong
    } else if str_eq(env.msg_type.as_str(), "status") {
        DispatchAction::ReplyReady
    } else if str_eq(env.msg_type.as_str(), "shutdown") {
        DispatchAction::Terminate
    } else if str_eq(env.msg_type.as_str(), "rpc") {
        let streaming = match &env.method {
            Some(m) => is_streaming_method(m.as_str()),
            None => false,
        };
        DispatchAction::Rpc { streaming }
    } else {
        DispatchAction::Ignore
    }
}

/// Decode one frame payload into a message. Bytes that are not a JSON
/// object with a string `type` tag are a malformed envelope, which is
/// fatal to the connection.
pub fn parse_envelope(payload: &Vec<u8>) -> (r: Result<IncomingEnvelope, FrameError>)
    ensures
        r is Ok ==> spec_json_ok(payload@),
        !spec_json_ok(payload@) ==> r == Err::<IncomingEnvelope, FrameError>(FrameError::Malformed),
        r is Err ==> r == Err::<IncomingEnvelope, FrameError>(FrameError::Malformed),
{
    let v = match parse_json(payload) {
        Some(v) => v,
        None => {
            return Err(FrameError::Malformed);
        },
    };
    let msg_type: String = match get_field(&v, "type") {
        Some(t) => match value_as_str(t) {
            Some(s) => s.to_owned(),
            None => {
                return Err(FrameError::Malformed);
            },
        },
        None => {
            return Err(FrameError::Malformed);
        },
    };
    let id = match get_field(&v, "id") {
        Some(x) => Some(clone_value(x)),
        None => None,
    };
    let method = match get_field(&v, "method") {
        Some(x) => match value_as_str(x) {
            Some(s) => Some(s.to_owned()),
            None => None,
        },
        None => None,
    };
    let params = match get_field(&v, "params") {
        Some(x) => clone_value(x),
        None => null_value(),
    };
    Ok(IncomingEnvelope { msg_type, id, method, params })
}

/// The bytes of a status envelope.
pub open spec fn spec_status_json(status: Seq<u8>, message: Seq<u8>) -> Seq<u8> {
    lit("{\"type\":\"status\",\"status\":") + spec_quoted(status)
        + lit(",\"message\":") + spec_quoted(message) + lit("}")
}

/// The bytes of a successful rpc response envelope, given the serialized
/// id and result.
pub open spec fn spec_rpc_result_json(id: Seq<u8>, result: Seq<u8>) -> Seq<u8> {
    lit("{\"type\":\"rpc_response\",\"id\":") + id + lit(",\"result\":") + result + lit("}")
}

/// The bytes of a failed rpc response envelope, given the serialized id.
pub open spec fn spec_rpc_error_json(id: Seq<u8>, code: int, message: Seq<u8>) -> Seq<u8> {
    lit("{\"type\":\"rpc_response\",\"id\":") + id + lit(",\"error\":{\"code\":")
        + spec_idec(code) + lit(",\"message\":") + spec_quoted(message) + lit("}}")
}

/// The bytes of a stream event envelope, given the serialized id and event.
pub open spec fn spec_stream_json(id: Seq<u8>, event: Seq<u8>) -> Seq<u8> {
    lit("{\"type\":\"stream\",\"id\":") + id + lit(",\"event\":") + event + lit("}")
}

/// The bytes of a console envelope.
pub open spec fn spec_console_json(server_id: Seq<u8>, level: Seq<u8>, message: Seq<u8>) -> Seq<u8> {
    lit("{\"type\":\"console\",\"server_id\":") + spec_quoted(server_id)
        + lit(",\"level\":") + spec_quoted(level)
        + lit(",\"message\":") + spec_quoted(message) + lit("}")
}

/// Build a status envelope.
pub fn status_message(status: &Vec<u8>, message: &Vec<u8>) -> (r: Vec<u8>)
    ensures
        r@ == spec_status_json(status@, message@),
{
    let mut out: Vec<u8> = Vec::new();
    push_lit(&mut out, "{\"type\":\"status\",\"status\":");
    push_quoted(&mut out, status);
    push_lit(&mut out, ",\"message\":");
    push_quoted(&mut out, message);
    push_lit(&mut out, "}");
    out
}

/// The readiness status sent when the connection opens and on `status`.
pub fn ready_status() -> (r: Vec<u8>)
    ensures
        r@ == spec_status_json(lit("ready"), lit("Harbor bridge is running")),
{
    let status = str_to_bytes("ready");
    let message = str_to_bytes("Harbor bridge is running");
    status_message(&status, &message)
}

/// The liveness status answering a `ping`.
pub fn pong_status() -> (r: Vec<u8>)
    ensures
        r@ == spec_status_json(lit("pong"), lit("Bridge is alive")),
{
    let status = str_to_bytes("pong");
    let message = str_to_bytes("Bridge is alive");
    status_message(&status, &message)
}

/// Build a successful rpc response envelope around the serialized id and
/// result bytes.
pub fn rpc_result_message(id_json: &Vec<u8>, result_json: &Vec<u8>) -> (r: Vec<u8>)
    ensures
        r@ == spec_rpc_result_json(id_json@, result_json@),
{
    let mut out: Vec<u8> = Vec::new();
    push_lit(&mut out, "{\"type\":\"rpc_response\",\"id\":");
    let mut id_bytes = id_json.clone();
    out.append(&mut id_bytes);
    push_lit(&mut out, ",\"result\":");
    let mut result_bytes = result_json.clone();
    out.append(&mut result_bytes);
    push_lit(&mut out, "}");
    out
}

/// Build a failed rpc response envelope around the serialized id.
pub fn rpc_error_message(id_json: &Vec<u8>, error: &RpcError) -> (r: Vec<u8>)
    ensures
        r@ == spec_rpc_error_json(id_json@, error.code as int, encode_utf8(error.message@)),
{
    let mut out: Vec<u8> = Vec::new();
    push_lit(&mut out, "{\"type\":\"rpc_response\",\"id\":");
    let mut id_bytes = id_json.clone();
    out.append(&mut id_bytes);
    push_lit(&mut out, ",\"error\":{\"code\":");
    push_i64_dec(&mut out, error.code);
    push_lit(&mut out, ",\"message\":");
    let message = str_to_bytes(error.message.as_str());
    push_quoted(&mut out, &message);
    push_lit(&mut out, "}}");
    out
}

/// Build a stream event envelope around the serialized id and event bytes.
pub fn stream_message(id_json: &Vec<u8>, event_json: &Vec<u8>) -> (r: Vec<u8>)
    ensures
        r@ == spec_stream_json(id_json@, event_json@),
{
    let mut out: Vec<u8> = Vec::new();
    push_lit(&mut out, "{\"type\":\"stream\",\"id\":");
    let mut id_bytes = id_json.clone();
    out.append(&mut id_bytes);
    push_lit(&mut out, ",\"event\":");
    let mut event_bytes = event_json.clone();
    out.append(&mut event_bytes);
    push_lit(&mut out, "}");
    out
}

/// Build a console envelope from one captured log line.
pub fn console_message(log: &ConsoleLogMessage) -> (r: Vec<u8>)
    ensures
        r@ == spec_console_json(
            encode_utf8(log.server_id@),
            encode_utf8(log.level@),
            encode_utf8(log.message@),
        ),
{
    let mut out: Vec<u8> = Vec::new();
    push_lit(&mut out, "{\"type\":\"console\",\"server_id\":");
    let server_id = str_to_bytes(log.server_id.as_str());
    push_quoted(&mut out, &server_id);
    push_lit(&mut out, ",\"level\":");
    let level = str_to_bytes(log.level.as_str());
    push_quoted(&mut out, &level);
    push_lit(&mut out, ",\"message\":");
    let message = str_to_bytes(log.message.as_str());
    push_quoted(&mut out, &message);
    push_lit(&mut out, "}");
    out
}

} // verus!
