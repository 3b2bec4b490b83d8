use harbor_bridge::sandbox::{Capabilities, JsServer, JsServerConfig, StartError};
use harbor_bridge::supervisor::{
    new_server_handle, serve_request, worker_step, ServerRegistry, ServerRequest, WorkerAction,
    WorkerEvent, WorkerState, MAILBOX_CAPACITY,
};
use serde_json::Value;

fn val(s: &str) -> Value {
    serde_json::from_str(s).unwrap()
}

fn echo_server(id: &str) -> JsServer {
    let config = JsServerConfig {
        id: id.to_string(),
        code: "(async function(){ while (true) { const req = await MCP.readLine(); MCP.writeLine(req); } })();"
            .to_string(),
        env: Vec::new(),
        capabilities: Capabilities { allowed_hosts: Vec::new() },
    };
    JsServer::start(&config).unwrap()
}

#[test]
fn registry_inserts_and_rejects_duplicates() {
    let mut registry = ServerRegistry::new();
    let (handle_a, _rx_a, _srx_a) = new_server_handle();
    assert!(registry.insert("a".to_string(), handle_a).is_ok());
    assert!(registry.contains_id("a"));
    assert!(!registry.contains_id("b"));

    let (dup, _rx_d, _srx_d) = new_server_handle();
    assert!(matches!(
        registry.insert("a".to_string(), dup),
        Err(StartError::DuplicateId)
    ));
    assert_eq!(registry.list(), vec!["a".to_string()]);
}

#[test]
fn registry_removes_and_lists_snapshots() {
    let mut registry = ServerRegistry::new();
    let (ha, _ra, _sa) = new_server_handle();
    let (hb, _rb, _sb) = new_server_handle();
    registry.insert("a".to_string(), ha).unwrap();
    registry.insert("b".to_string(), hb).unwrap();
    assert_eq!(registry.list(), vec!["a".to_string(), "b".to_string()]);

    assert!(registry.remove("a").is_some());
    assert!(registry.remove("a").is_none());
    assert_eq!(registry.list(), vec!["b".to_string()]);
    assert!(registry.get("b").is_some());
    assert!(registry.get("a").is_none());
}

#[test]
fn stop_is_idempotent() {
    let (mut handle, _rx, mut shutdown_rx) = new_server_handle();
    handle.stop();
    handle.stop();
    handle.stop();
    assert!(shutdown_rx.try_recv().is_ok());
}

#[test]
fn worker_serves_requests_even_while_draining() {
    let mut state = WorkerState { observed_shutdown: false };
    let a = worker_step(&mut state, WorkerEvent::Shutdown);
    assert!(matches!(a, WorkerAction::Drain));
    assert!(state.observed_shutdown);

    let (tx, _rx) = tokio::sync::oneshot::channel();
    let req = ServerRequest { payload: val("{}"), response_tx: tx };
    let a = worker_step(&mut state, WorkerEvent::Request(req));
    assert!(matches!(a, WorkerAction::Serve(_)));

    let a = worker_step(&mut state, WorkerEvent::Closed);
    assert!(matches!(a, WorkerAction::Exit));
}

#[test]
fn serve_request_resolves_the_reply_channel_once() {
    let mut server = echo_server("served");
    let (tx, mut rx) = tokio::sync::oneshot::channel();
    let request = ServerRequest { payload: val("{\"q\":9}"), response_tx: tx };
    serve_request(&mut server, request);
    let outcome = rx.try_recv().unwrap();
    assert_eq!(outcome.unwrap(), val("{\"q\":9}"));
}

#[test]
fn in_flight_requests_before_stop_still_complete() {
    let mut server = echo_server("draining");
    let (mut handle, mut rx, _shutdown_rx) = new_server_handle();

    let (reply_tx, mut reply_rx) = tokio::sync::oneshot::channel();
    handle
        .request_sender()
        .try_send(ServerRequest { payload: val("{\"n\":1}"), response_tx: reply_tx })
        .unwrap();

    handle.stop();

    // The worker drains what was already in the mailbox before exiting.
    let mut state = WorkerState { observed_shutdown: true };
    while let Ok(request) = rx.try_recv() {
        match worker_step(&mut state, WorkerEvent::Request(request)) {
            WorkerAction::Serve(request) => serve_request(&mut server, request),
            _ => unreachable!(),
        }
    }
    assert_eq!(reply_rx.try_recv().unwrap().unwrap(), val("{\"n\":1}"));
}

#[test]
fn mailbox_capacity_is_bounded() {
    assert_eq!(MAILBOX_CAPACITY, 32);
    let (handle, _rx, _srx) = new_server_handle();
    let sender = handle.request_sender();
    for _ in 0..MAILBOX_CAPACITY {
        let (tx, _) = tokio::sync::oneshot::channel();
        sender.try_send(ServerRequest { payload: val("{}"), response_tx: tx }).unwrap();
    }
    let (tx, _) = tokio::sync::oneshot::channel();
    assert!(sender.try_send(ServerRequest { payload: val("{}"), response_tx: tx }).is_err());
}
