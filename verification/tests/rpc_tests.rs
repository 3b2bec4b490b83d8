use harbor_bridge::rpc::{
    is_streaming_method, is_terminal_event, method_not_found, route_method,
    unknown_streaming_method, MethodRoute, RpcError, RpcRequest, RpcResponse, StreamForwarder,
    METHOD_NOT_FOUND,
};
use serde_json::Value;

fn val(s: &str) -> Value {
    serde_json::from_str(s).unwrap()
}

#[test]
fn success_carries_id_and_result() {
    let r = RpcResponse::success(val("1"), val("{\"status\":\"ok\"}"));
    assert_eq!(r.id, val("1"));
    assert_eq!(r.result, Some(val("{\"status\":\"ok\"}")));
    assert!(r.error.is_none());
}

#[test]
fn error_carries_id_and_error() {
    let e = RpcError { code: -5, message: "bad".to_string() };
    let r = RpcResponse::error(val("\"a\""), e);
    assert_eq!(r.id, val("\"a\""));
    assert!(r.result.is_none());
    let err = r.error.unwrap();
    assert_eq!(err.code, -5);
    assert_eq!(err.message, "bad");
}

#[test]
fn request_routes_by_its_method() {
    let request = RpcRequest {
        id: val("3"),
        method: "system.health".to_string(),
        params: val("null"),
    };
    assert_eq!(route_method(&request.method), MethodRoute::SystemHealth);
    assert!(!is_streaming_method(&request.method));
    let response = RpcResponse::success(request.id, val("{\"status\":\"ok\"}"));
    assert_eq!(response.id, val("3"));
}

#[test]
fn streaming_methods_are_recognized() {
    assert!(is_streaming_method("llm.chat_stream"));
    assert!(!is_streaming_method("llm.chat"));
    assert!(!is_streaming_method(""));
}

#[test]
fn routing_table() {
    assert_eq!(route_method("system.health"), MethodRoute::SystemHealth);
    assert_eq!(route_method("js.start_server"), MethodRoute::JsStartServer);
    assert_eq!(route_method("js.stop_server"), MethodRoute::JsStopServer);
    assert_eq!(route_method("js.call"), MethodRoute::JsCall);
    assert_eq!(route_method("js.list_servers"), MethodRoute::JsListServers);
    assert_eq!(route_method("llm.chat"), MethodRoute::Collaborator);
    assert_eq!(route_method("fs.read"), MethodRoute::Collaborator);
    assert_eq!(route_method("no.such"), MethodRoute::Collaborator);
}

#[test]
fn method_not_found_error_shape() {
    let e = method_not_found("bogus.method");
    assert_eq!(e.code, METHOD_NOT_FOUND);
    assert_eq!(e.code, -32601);
    assert_eq!(e.message, "Unknown method: bogus.method");
}

#[test]
fn unknown_streaming_method_error_shape() {
    let e = unknown_streaming_method("bogus.stream");
    assert_eq!(e.code, -32601);
    assert_eq!(e.message, "Unknown streaming method: bogus.stream");
}

#[test]
fn terminal_event_kinds() {
    assert!(is_terminal_event("done"));
    assert!(is_terminal_event("error"));
    assert!(!is_terminal_event("chunk"));
}

#[test]
fn forwarder_emits_one_terminal_and_nothing_after() {
    let mut fw = StreamForwarder::new();
    let events = ["chunk", "chunk", "done", "chunk", "done", "error"];
    let mut emitted: Vec<&str> = Vec::new();
    for e in events {
        if fw.accept(e) {
            emitted.push(e);
        }
    }
    assert_eq!(emitted, vec!["chunk", "chunk", "done"]);
    let terminal_count = emitted.iter().filter(|e| is_terminal_event(e)).count();
    assert_eq!(terminal_count, 1);
}

#[test]
fn forwarder_error_is_terminal_too() {
    let mut fw = StreamForwarder::new();
    assert!(fw.accept("error"));
    assert!(!fw.accept("chunk"));
    assert!(!fw.accept("done"));
}
