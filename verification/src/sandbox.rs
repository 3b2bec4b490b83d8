//! The script sandbox engine: one isolated interpreter per server, a
//! capability-gated global surface built at setup time, and a bounded
//! pump loop that answers call/response cycles against a synchronous,
//! non-preemptible interpreter.
//!
//! The interpreter itself is `rquickjs`; every call into it goes through a
//! trusted wrapper at the bottom of this file. Everything the engine
//! decides — which globals are installed, what source is evaluated, how a
//! recorded response is chosen and checked, when a call times out — is
//! verified code above those wrappers.

use vstd::prelude::*;
use vstd::string::StringSliceAdditionalSpecFns;
use vstd::utf8::encode_utf8;
use crate::json::{parse_json, value_to_bytes, spec_json_ok};
use crate::text::{lit, spec_quoted, spec_udec, push_lit, push_quoted, push_u64_dec, str_to_bytes};

verus! {

/// What a sandbox may reach: an allow-list of network hosts. An empty list
/// disables the network capability entirely — no fetch primitive is
/// installed at all. Immutable for the server's lifetime.
pub struct Capabilities {
    pub allowed_hosts: Vec<String>,
}

impl Capabilities {
    /// The allowed hosts as character sequences.
    pub open spec fn spec_hosts(&self) -> Seq<Seq<char>> {
        self.allowed_hosts@.map_values(|h: String| h@)
    }

    /// Whether the network capability is granted at all.
    pub fn network_enabled(&self) -> (r: bool)
        ensures
            r == (self.allowed_hosts@.len() > 0),
    {
        self.allowed_hosts.len() > 0
    }

    /// Whether `host` is on the allow-list. The host performing a real
    /// network call must pass this check; the sandbox's own enqueue step
    /// is not a trust boundary.
    pub fn allows_host(&self, host: &str) -> (r: bool)
        ensures
            r == self.spec_hosts().contains(host@),
    {
        let mut i: usize = 0;
        while i < self.allowed_hosts.len()
            invariant
                i <= self.allowed_hosts@.len(),
                forall|k: int| 0 <= k < i ==> self.allowed_hosts@[k]@ != host@,
            decreases self.allowed_hosts@.len() - i,
        {
            if crate::text::str_eq(self.allowed_hosts[i].as_str(), host) {
                assert(self.spec_hosts()[i as int] == host@);
                return true;
            }
            i = i + 1;
        }
        proof {
            assert forall|k: int| 0 <= k < self.spec_hosts().len()
                implies self.spec_hosts()[k] != host@ by {
                assert(self.spec_hosts()[k] == self.allowed_hosts@[k]@);
            }
        }
        false
    }
}

/// Configuration for starting a server. Immutable once the server starts.
pub struct JsServerConfig {
    /// Caller-supplied id, unique among registered servers.
    pub id: String,
    /// The server's source, evaluated exactly once at startup.
    pub code: String,
    /// Environment entries exposed inside the sandbox; nothing else of the
    /// host environment is reachable.
    pub env: Vec<(String, String)>,
    /// The sandbox's capability set.
    pub capabilities: Capabilities,
}

/// Why a server failed to start.
#[derive(Debug, Clone)]
pub enum StartError {
    /// A server with this id is already registered.
    DuplicateId,
    /// Interpreter construction, sandbox setup, or the one-time evaluation
    /// of the server's source failed.
    Setup(String),
}

/// Why one call failed. The worker stays available after any of these.
#[derive(Debug, Clone, PartialEq, Eq)]
pub enum SandboxError {
    /// The pump budget ran out before the script recorded a response.
    Timeout,
    /// The script's recorded response was not valid JSON.
    MalformedResponse,
    /// The interpreter reported a failure while running the script.
    Engine(String),
}

/// Pump slices given to the interpreter per call before it times out.
pub const PUMP_BUDGET: u32 = 1000;

/// Microtask-queue jobs run per pump slice, a bound against job loops.
pub const JOBS_PER_PUMP: u32 = 1000;

/// The entries of the sandboxed environment object, rendered as the
/// members of a JSON object.
pub open spec fn spec_env_entries(env: Seq<(String, String)>) -> Seq<u8>
    decreases env.len(),
{
    if env.len() == 0 {
        Seq::empty()
    } else if env.len() == 1 {
        spec_env_entry(env[0].0@, env[0].1@)
    } else {
        spec_env_entries(env.drop_last()) + lit(",") + spec_env_entry(env.last().0@, env.last().1@)
    }
}

/// One environment entry as a JSON object member.
pub open spec fn spec_env_entry(key: Seq<char>, value: Seq<char>) -> Seq<u8> {
    spec_quoted(encode_utf8(key)) + lit(":") + spec_quoted(encode_utf8(value))
}

/// The source that installs the sandboxed `process` object: exactly the
/// configured entries, nothing of the host environment.
pub open spec fn spec_env_source(env: Seq<(String, String)>) -> Seq<u8> {
    lit("globalThis.process = {\"env\":{") + spec_env_entries(env)
        + lit("},\"platform\":\"harbor-bridge\"};")
}

/// Render the source installing the environment object.
pub fn env_source(env: &Vec<(String, String)>) -> (r: Vec<u8>)
    ensures
        r@ == spec_env_source(env@),
{
    let mut out: Vec<u8> = Vec::new();
    push_lit(&mut out, "globalThis.process = {\"env\":{");
    let mut i: usize = 0;
    while i < env.len()
        invariant
            i <= env@.len(),
            out@ == lit("globalThis.process = {\"env\":{") + spec_env_entries(env@.subrange(0, i as int)),
        decreases env@.len() - i,
    {
        if i > 0 {
            push_lit(&mut out, ",");
        }
        let key = str_to_bytes(env[i].0.as_str());
        push_quoted(&mut out, &key);
        push_lit(&mut out, ":");
        let value = str_to_bytes(env[i].1.as_str());
        push_quoted(&mut out, &value);
        i = i + 1;
        proof {
            let pre = env@.subrange(0, i - 1);
            let cur = env@.subrange(0, i as int);
            assert(cur.drop_last() =~= pre);
            assert(cur.last() == env@[i - 1]);
            assert(out@ =~= lit("globalThis.process = {\"env\":{") + spec_env_entries(cur));
        }
    }
    proof {
        assert(env@.subrange(0, env@.len() as int) =~= env@);
    }
    push_lit(&mut out, "},\"platform\":\"harbor-bridge\"};");
    out
}

/// The source that delivers one request: it satisfies a pending read if
/// one is suspended, and queues the request otherwise.
pub open spec fn spec_deliver_source(request_json: Seq<u8>) -> Seq<u8> {
    lit("{ const req = ") + spec_quoted(request_json) + lit(
        "; if (globalThis.__mcp_pendingRead) { const r = globalThis.__mcp_pendingRead; globalThis.__mcp_pendingRead = null; r(req); } else { globalThis.__mcp_requests.push(req); } }",
    )
}

/// Render the source delivering one request.
pub fn deliver_source(request_json: &Vec<u8>) -> (r: Vec<u8>)
    ensures
        r@ == spec_deliver_source(request_json@),
{
    let mut out: Vec<u8> = Vec::new();
    push_lit(&mut out, "{ const req = ");
    push_quoted(&mut out, request_json);
    push_lit(&mut out,
        "; if (globalThis.__mcp_pendingRead) { const r = globalThis.__mcp_pendingRead; globalThis.__mcp_pendingRead = null; r(req); } else { globalThis.__mcp_requests.push(req); } }",
    );
    out
}

/// The source that completes one suspended fetch with the host's response.
pub open spec fn spec_fetch_complete_source(id: nat, response_json: Seq<u8>) -> Seq<u8> {
    lit("globalThis.__fetch_complete(") + spec_udec(id) + lit(",") + response_json + lit(");")
}

/// Render the source completing one suspended fetch.
pub fn fetch_complete_source(id: u64, response_json: &Vec<u8>) -> (r: Vec<u8>)
    ensures
        r@ == spec_fetch_complete_source(id as nat, response_json@),
{
    let mut out: Vec<u8> = Vec::new();
    push_lit(&mut out, "globalThis.__fetch_complete(");
    push_u64_dec(&mut out, id);
    push_lit(&mut out, ",");
    let mut resp = response_json.clone();
    out.append(&mut resp);
    push_lit(&mut out, ");");
    out
}

/// Pair captured console levels and texts into tagged log entries. The
/// installed console object pushes one level and one text per logging
/// call, so the two lists run in step; entries beyond the shorter list
/// are dropped rather than misattributed.
pub fn pair_console_lines(server_id: &String, levels: &Vec<String>, texts: &Vec<String>) -> (r:
    Vec<crate::envelope::ConsoleLogMessage>)
    ensures
        r@.len() == vstd::math::min(levels@.len() as int, texts@.len() as int),
        forall|k: int| 0 <= k < r@.len() ==> {
            &&& (#[trigger] r@[k]).server_id@ == server_id@
            &&& r@[k].level@ == levels@[k]@
            &&& r@[k].message@ == texts@[k]@
        },
{
    let n = if levels.len() < texts.len() {
        levels.len()
    } else {
        texts.len()
    };
    let mut entries: Vec<crate::envelope::ConsoleLogMessage> = Vec::new();
    let mut i: usize = 0;
    while i < n
        invariant
            i <= n,
            n <= levels@.len() && n <= texts@.len(),
            n == vstd::math::min(levels@.len() as int, texts@.len() as int),
            entries@.len() == i,
            forall|k: int| 0 <= k < i ==> {
                &&& (#[trigger] entries@[k]).server_id@ == server_id@
                &&& entries@[k].level@ == levels@[k]@
                &&& entries@[k].message@ == texts@[k]@
            },
        decreases n - i,
    {
        entries.push(crate::envelope::ConsoleLogMessage {
            server_id: server_id.clone(),
            level: levels[i].clone(),
            message: texts[i].clone(),
        });
        i = i + 1;
    }
    entries
}

/// Judge what one pump slice recorded. `None` means nothing was recorded
/// and pumping continues. When responses were recorded, the most recent
/// one wins — earlier ones are deliberately discarded, matching the
/// documented last-wins behavior — and it is parsed as JSON.
pub fn conclude_pump(responses: &Vec<String>) -> (r: Option<
    Result<serde_json::Value, SandboxError>,
>)
    ensures
        r is None <==> responses@.len() == 0,
        responses@.len() > 0 ==> match r->0 {
            Ok(_) => spec_json_ok(encode_utf8(responses@.last()@)),
            Err(e) => e == SandboxError::MalformedResponse
                && !spec_json_ok(encode_utf8(responses@.last()@)),
        },
{
    if responses.len() == 0 {
        return None;
    }
    let last = &responses[responses.len() - 1];
    let bytes = str_to_bytes(last.as_str());
    match parse_json(&bytes) {
        Some(v) => Some(Ok(v)),
        None => Some(Err(SandboxError::MalformedResponse)),
    }
}

/// One running server: an isolated interpreter whose global surface was
/// built from the capability set, answering calls strictly one at a time.
pub struct JsServer {
    runtime: rquickjs::Runtime,
    context: rquickjs::Context,
    fetch_installed: bool,
    server_id: String,
}

impl JsServer {
    /// Whether the network-fetch primitive was installed at setup.
    pub closed spec fn spec_fetch_installed(&self) -> bool {
        self.fetch_installed
    }

    /// The id this server was started under.
    pub closed spec fn spec_id(&self) -> Seq<char> {
        self.server_id@
    }

    /// Start a server: build a fresh interpreter, install the gated
    /// globals, and evaluate the server's source exactly once. Any
    /// failure is fatal to startup and nothing is registered.
    ///
    /// The fetch primitive is installed exactly when the capability set
    /// allows at least one host.
    pub fn start(config: &JsServerConfig) -> (r: Result<JsServer, StartError>)
        ensures
            match r {
                Ok(server) => {
                    &&& server.spec_fetch_installed() == (
                        config.capabilities.allowed_hosts@.len() > 0)
                    &&& server.spec_id() == config.id@
                },
                Err(e) => e is Setup,
            },
    {
        let runtime = match new_runtime() {
            Ok(rt) => rt,
            Err(e) => {
                return Err(StartError::Setup(e));
            },
        };
        let context = match new_context(&runtime) {
            Ok(c) => c,
            Err(e) => {
                return Err(StartError::Setup(e));
            },
        };
        let fetch_installed = config.capabilities.network_enabled();
        let server = JsServer {
            runtime,
            context,
            fetch_installed,
            server_id: config.id.clone(),
        };
        if let Err(e) = eval_unit(&server.context, str_to_bytes(STATE_SOURCE)) {
            return Err(StartError::Setup(e));
        }
        if let Err(e) = eval_unit(&server.context, env_source(&config.env)) {
            return Err(StartError::Setup(e));
        }
        if let Err(e) = eval_unit(&server.context, str_to_bytes(CONSOLE_SOURCE)) {
            return Err(StartError::Setup(e));
        }
        if let Err(e) = eval_unit(&server.context, str_to_bytes(MCP_SOURCE)) {
            return Err(StartError::Setup(e));
        }
        if let Err(e) = eval_unit(&server.context, str_to_bytes(LOCKDOWN_SOURCE)) {
            return Err(StartError::Setup(e));
        }
        if fetch_installed {
            if let Err(e) = eval_unit(&server.context, str_to_bytes(FETCH_SOURCE)) {
                return Err(StartError::Setup(e));
            }
        }
        if let Err(e) = eval_unit(&server.context, str_to_bytes(config.code.as_str())) {
            return Err(StartError::Setup(e));
        }
        Ok(server)
    }

    /// Answer one call: deliver the request, pump the interpreter until a
    /// response is recorded or the budget runs out, and parse what was
    /// recorded. The budget is a hard bound — a script that never calls
    /// the response primitive yields `Timeout`, never an unbounded wait.
    pub fn call(&mut self, request: &serde_json::Value) -> (r: Result<
        serde_json::Value,
        SandboxError,
    >)
        ensures
            final(self).spec_fetch_installed() == old(self).spec_fetch_installed(),
            final(self).spec_id() == old(self).spec_id(),
    {
        let request_json = match value_to_bytes(request) {
            Some(b) => b,
            None => {
                return Err(SandboxError::Engine("request not serializable".to_owned()));
            },
        };
        if let Err(e) = eval_unit(&self.context, deliver_source(&request_json)) {
            return Err(SandboxError::Engine(e));
        }
        let mut pumps: u32 = 0;
        while pumps < PUMP_BUDGET
            invariant
                pumps <= PUMP_BUDGET,
            decreases PUMP_BUDGET - pumps,
        {
            self.pump_jobs();
            let responses = match eval_strings(&self.context, str_to_bytes(DRAIN_RESPONSES_SOURCE)) {
                Ok(r) => r,
                Err(e) => {
                    return Err(SandboxError::Engine(e));
                },
            };
            match conclude_pump(&responses) {
                Some(outcome) => {
                    return outcome;
                },
                None => {},
            }
            pumps = pumps + 1;
        }
        Err(SandboxError::Timeout)
    }

    /// Run queued microtask jobs, up to a fixed bound per slice.
    fn pump_jobs(&self)
    {
        let mut jobs: u32 = 0;
        while jobs < JOBS_PER_PUMP
            invariant
                jobs <= JOBS_PER_PUMP,
            decreases JOBS_PER_PUMP - jobs,
        {
            if !run_pending_job(&self.context) {
                return;
            }
            jobs = jobs + 1;
        }
    }

    /// Collect the console lines captured since the last drain, tagged
    /// with this server's id. Levels and texts are recorded pairwise by
    /// the installed console object; entries are paired off here.
    pub fn drain_console(&mut self) -> (r: Result<Vec<crate::envelope::ConsoleLogMessage>, String>)
        ensures
            match r {
                Ok(entries) => forall|k: int| 0 <= k < entries@.len()
                    ==> (#[trigger] entries@[k]).server_id@ == old(self).spec_id(),
                Err(_) => true,
            },
            final(self).spec_fetch_installed() == old(self).spec_fetch_installed(),
            final(self).spec_id() == old(self).spec_id(),
    {
        let levels = match eval_strings(&self.context, str_to_bytes(DRAIN_LEVELS_SOURCE)) {
            Ok(r) => r,
            Err(e) => {
                return Err(e);
            },
        };
        let texts = match eval_strings(&self.context, str_to_bytes(DRAIN_TEXTS_SOURCE)) {
            Ok(r) => r,
            Err(e) => {
                return Err(e);
            },
        };
        Ok(pair_console_lines(&self.server_id, &levels, &texts))
    }

    /// Collect the structured fetch requests the script has enqueued. The
    /// host alone performs network calls, after re-checking the requested
    /// host against the capability set.
    pub fn drain_fetch_requests(&mut self) -> (r: Result<Vec<String>, String>)
        ensures
            final(self).spec_fetch_installed() == old(self).spec_fetch_installed(),
            final(self).spec_id() == old(self).spec_id(),
    {
        eval_strings(&self.context, str_to_bytes(DRAIN_FETCH_SOURCE))
    }

    /// Hand the host's response for one fetch id back to the script,
    /// resuming its suspension.
    pub fn complete_fetch(&mut self, id: u64, response_json: &Vec<u8>) -> (r: Result<(), String>)
        ensures
            final(self).spec_fetch_installed() == old(self).spec_fetch_installed(),
            final(self).spec_id() == old(self).spec_id(),
    {
        eval_unit(&self.context, fetch_complete_source(id, response_json))
    }
}

/// Internal state shared between the installed globals and the host.
const STATE_SOURCE: &'static str = "globalThis.__mcp_responses = []; globalThis.__mcp_requests = []; globalThis.__console_levels = []; globalThis.__console_texts = [];";

/// A console whose output is captured for the log bus instead of touching
/// any shared output stream.
const CONSOLE_SOURCE: &'static str = "globalThis.console = (function(){ const mk = function(level){ return function(){ const parts = []; for (let i = 0; i < arguments.length; i++) { const a = arguments[i]; parts.push(typeof a === \"string\" ? a : JSON.stringify(a)); } globalThis.__console_levels.push(level); globalThis.__console_texts.push(parts.join(\" \")); }; }; return { log: mk(\"log\"), warn: mk(\"warn\"), error: mk(\"error\"), info: mk(\"info\"), debug: mk(\"debug\") }; })();";

/// The request/response primitive: reads consume queued requests or
/// suspend; writes record the most recent response.
const MCP_SOURCE: &'static str = "globalThis.MCP = { readLine: function() { if (globalThis.__mcp_requests.length > 0) { return Promise.resolve(globalThis.__mcp_requests.shift()); } return new Promise(function(resolve){ globalThis.__mcp_pendingRead = resolve; }); }, writeLine: function(json) { globalThis.__mcp_responses.push(typeof json === \"string\" ? json : JSON.stringify(json)); } };";

/// Remove dynamic code evaluation from the global surface after setup.
const LOCKDOWN_SOURCE: &'static str = "delete globalThis.eval;";

/// The network primitive: it performs no I/O itself, only enqueues a
/// tagged request and suspends until the host completes it.
const FETCH_SOURCE: &'static str = "globalThis.__fetch_requests = []; globalThis.__fetch_pending = {}; globalThis.__fetch_id = 0; globalThis.fetch = function(url, options) { const id = ++globalThis.__fetch_id; globalThis.__fetch_requests.push(JSON.stringify({ id: id, url: String(url), options: options || {} })); return new Promise(function(resolve, reject){ globalThis.__fetch_pending[id] = { resolve: resolve, reject: reject }; }); }; globalThis.__fetch_complete = function(id, resp) { const p = globalThis.__fetch_pending[id]; if (!p) { return; } delete globalThis.__fetch_pending[id]; if (resp.error) { p.reject(new Error(resp.error)); } else { p.resolve({ ok: resp.status >= 200 && resp.status < 300, status: resp.status, statusText: resp.statusText || \"\", headers: resp.headers || {}, text: function(){ return Promise.resolve(resp.body); }, json: function(){ return Promise.resolve(JSON.parse(resp.body)); } }); } };";

/// Take every recorded response out of the shared state.
const DRAIN_RESPONSES_SOURCE: &'static str = "globalThis.__mcp_responses.splice(0)";

/// Take the captured console levels out of the shared state.
const DRAIN_LEVELS_SOURCE: &'static str = "globalThis.__console_levels.splice(0)";

/// Take the captured console texts out of the shared state.
const DRAIN_TEXTS_SOURCE: &'static str = "globalThis.__console_texts.splice(0)";

/// Take the enqueued fetch requests out of the shared state.
const DRAIN_FETCH_SOURCE: &'static str = "globalThis.__fetch_requests.splice(0)";

#[verifier::external_type_specification]
#[verifier::external_body]
pub struct ExRuntime(rquickjs::Runtime);

#[verifier::external_type_specification]
#[verifier::external_body]
pub struct ExContext(rquickjs::Context);

/// Relies on `rquickjs::Runtime::new`: a fresh interpreter runtime sharing
/// no state with any other.
#[verifier::external_body]
fn new_runtime() -> (r: Result<rquickjs::Runtime, String>)
{
    rquickjs::Runtime::new().map_err(|e| e.to_string())
}

/// Relies on `rquickjs::Context::full`: a fresh global context inside the
/// given runtime.
#[verifier::external_body]
fn new_context(runtime: &rquickjs::Runtime) -> (r: Result<rquickjs::Context, String>)
{
    rquickjs::Context::full(runtime).map_err(|e| e.to_string())
}

/// Relies on `rquickjs::Context::with` and `Ctx::eval`: evaluates the
/// source in the context for its effects, reporting any thrown error.
#[verifier::external_body]
fn eval_unit(context: &rquickjs::Context, source: Vec<u8>) -> (r: Result<(), String>)
{
    context.with(|ctx| ctx.eval::<(), _>(source)).map_err(|e| e.to_string())
}

/// Relies on `rquickjs::Context::with` and `Ctx::eval`: evaluates the
/// source and converts its completion value, an array of strings.
#[verifier::external_body]
fn eval_strings(context: &rquickjs::Context, source: Vec<u8>) -> (r: Result<Vec<String>, String>)
{
    context.with(|ctx| ctx.eval::<Vec<String>, _>(source)).map_err(|e| e.to_string())
}

/// Relies on `rquickjs::Context::with` and `Ctx::execute_pending_job`:
/// runs one queued microtask job, reporting whether one was pending.
#[verifier::external_body]
fn run_pending_job(context: &rquickjs::Context) -> (r: bool)
{
    context.with(|ctx| ctx.execute_pending_job())
}

} // verus!
