use harbor_bridge::sandbox::{
    Capabilities, JsServer, JsServerConfig, SandboxError, StartError,
};
use serde_json::Value;
use std::time::Instant;

fn val(s: &str) -> Value {
    serde_json::from_str(s).unwrap()
}

fn config(id: &str, code: &str, hosts: &[&str], env: &[(&str, &str)]) -> JsServerConfig {
    JsServerConfig {
        id: id.to_string(),
        code: code.to_string(),
        env: env.iter().map(|(k, v)| (k.to_string(), v.to_string())).collect(),
        capabilities: Capabilities {
            allowed_hosts: hosts.iter().map(|h| h.to_string()).collect(),
        },
    }
}

const ECHO_SERVER: &str = "(async function(){ while (true) { const req = await MCP.readLine(); MCP.writeLine(req); } })();";

const SILENT_SERVER: &str = "(async function(){ while (true) { await MCP.readLine(); } })();";

#[test]
fn echo_server_round_trips_a_call() {
    let mut server = JsServer::start(&config("echo", ECHO_SERVER, &[], &[])).unwrap();
    let out = server.call(&val("{\"x\":1}")).unwrap();
    assert_eq!(out, val("{\"x\":1}"));
}

#[test]
fn sequential_calls_each_get_their_own_payload() {
    let mut server = JsServer::start(&config("echo2", ECHO_SERVER, &[], &[])).unwrap();
    let a = server.call(&val("{\"n\":1}")).unwrap();
    let b = server.call(&val("{\"n\":2}")).unwrap();
    assert_eq!(a, val("{\"n\":1}"));
    assert_eq!(b, val("{\"n\":2}"));
}

#[test]
fn silent_server_times_out_within_budget() {
    let mut server = JsServer::start(&config("silent", SILENT_SERVER, &[], &[])).unwrap();
    let started = Instant::now();
    let out = server.call(&val("{}"));
    assert_eq!(out, Err(SandboxError::Timeout));
    assert!(started.elapsed().as_secs() < 2);
}

#[test]
fn timed_out_server_stays_available() {
    let code = "let first = true; (async function(){ while (true) { const req = await MCP.readLine(); if (first) { first = false; } else { MCP.writeLine(req); } } })();";
    let mut server = JsServer::start(&config("flaky", code, &[], &[])).unwrap();
    assert_eq!(server.call(&val("{\"a\":1}")), Err(SandboxError::Timeout));
    assert_eq!(server.call(&val("{\"b\":2}")).unwrap(), val("{\"b\":2}"));
}

#[test]
fn non_json_response_is_malformed() {
    let code = "(async function(){ while (true) { await MCP.readLine(); MCP.writeLine(\"not json at all\"); } })();";
    let mut server = JsServer::start(&config("bad", code, &[], &[])).unwrap();
    assert_eq!(server.call(&val("{}")), Err(SandboxError::MalformedResponse));
}

#[test]
fn most_recent_of_several_responses_wins() {
    let code = "(async function(){ while (true) { await MCP.readLine(); MCP.writeLine(\"{\\\"seq\\\":1}\"); MCP.writeLine(\"{\\\"seq\\\":2}\"); } })();";
    let mut server = JsServer::start(&config("twice", code, &[], &[])).unwrap();
    assert_eq!(server.call(&val("{}")).unwrap(), val("{\"seq\":2}"));
}

#[test]
fn bad_source_fails_startup() {
    let r = JsServer::start(&config("broken", "this is not javascript(", &[], &[]));
    assert!(matches!(r, Err(StartError::Setup(_))));
}

#[test]
fn only_configured_env_keys_are_exposed() {
    let code = "(async function(){ while (true) { await MCP.readLine(); MCP.writeLine(JSON.stringify({ foo: globalThis.process.env.FOO || null, keys: Object.keys(globalThis.process.env).length })); } })();";
    let mut server =
        JsServer::start(&config("envy", code, &[], &[("FOO", "bar")])).unwrap();
    assert_eq!(server.call(&val("{}")).unwrap(), val("{\"foo\":\"bar\",\"keys\":1}"));
}

#[test]
fn env_values_with_quotes_survive_injection() {
    let code = "(async function(){ while (true) { await MCP.readLine(); MCP.writeLine(JSON.stringify({ v: globalThis.process.env.K })); } })();";
    let mut server =
        JsServer::start(&config("quoty", code, &[], &[("K", "a\"b\\c\nd")])).unwrap();
    assert_eq!(server.call(&val("{}")).unwrap(), val("{\"v\":\"a\\\"b\\\\c\\nd\"}"));
}

#[test]
fn empty_allow_list_leaves_no_fetch_primitive() {
    let probe = "(async function(){ while (true) { await MCP.readLine(); MCP.writeLine(JSON.stringify({ fetch: typeof globalThis.fetch })); } })();";
    let mut server = JsServer::start(&config("nofetch", probe, &[], &[])).unwrap();
    assert_eq!(server.call(&val("{}")).unwrap(), val("{\"fetch\":\"undefined\"}"));
}

#[test]
fn allow_list_installs_fetch_primitive() {
    let probe = "(async function(){ while (true) { await MCP.readLine(); MCP.writeLine(JSON.stringify({ fetch: typeof globalThis.fetch })); } })();";
    let mut server =
        JsServer::start(&config("fetchy", probe, &["example.com"], &[])).unwrap();
    assert_eq!(server.call(&val("{}")).unwrap(), val("{\"fetch\":\"function\"}"));
}

#[test]
fn dynamic_evaluation_is_removed() {
    let probe = "(async function(){ while (true) { await MCP.readLine(); MCP.writeLine(JSON.stringify({ e: typeof globalThis.eval })); } })();";
    let mut server = JsServer::start(&config("noeval", probe, &[], &[])).unwrap();
    assert_eq!(server.call(&val("{}")).unwrap(), val("{\"e\":\"undefined\"}"));
}

#[test]
fn console_lines_are_captured_and_tagged() {
    let code = "console.log(\"hello\", 1); console.warn(\"careful\");";
    let mut server = JsServer::start(&config("chatty", code, &[], &[])).unwrap();
    let entries = server.drain_console().unwrap();
    assert_eq!(entries.len(), 2);
    assert_eq!(entries[0].server_id, "chatty");
    assert_eq!(entries[0].level, "log");
    assert_eq!(entries[0].message, "hello 1");
    assert_eq!(entries[1].level, "warn");
    assert_eq!(entries[1].message, "careful");
    assert!(server.drain_console().unwrap().is_empty());
}

#[test]
fn fetch_enqueues_and_host_completes() {
    let code = "(async function(){ const resp = await fetch(\"https://example.com/a\"); globalThis.__got = await resp.text(); })(); (async function(){ while (true) { await MCP.readLine(); MCP.writeLine(JSON.stringify({ got: globalThis.__got || null })); } })();";
    let mut server =
        JsServer::start(&config("fetcher", code, &["example.com"], &[])).unwrap();
    let requests = server.drain_fetch_requests().unwrap();
    assert_eq!(requests.len(), 1);
    let req: Value = serde_json::from_str(&requests[0]).unwrap();
    assert_eq!(req["url"], Value::String("https://example.com/a".to_string()));
    assert_eq!(req["id"], val("1"));

    let response = b"{\"status\":200,\"headers\":{},\"body\":\"hi there\"}".to_vec();
    server.complete_fetch(1, &response).unwrap();
    // The first call settles the fetch continuation's microtasks; by the
    // second, the script has stored the body.
    server.call(&val("{}")).unwrap();
    assert_eq!(server.call(&val("{}")).unwrap(), val("{\"got\":\"hi there\"}"));
}

#[test]
fn allows_host_checks_the_allow_list() {
    let caps = Capabilities {
        allowed_hosts: vec!["example.com".to_string(), "api.test".to_string()],
    };
    assert!(caps.allows_host("example.com"));
    assert!(caps.allows_host("api.test"));
    assert!(!caps.allows_host("evil.example"));
    assert!(caps.network_enabled());

    let none = Capabilities { allowed_hosts: Vec::new() };
    assert!(!none.network_enabled());
    assert!(!none.allows_host("example.com"));
}
