//! The server supervisor: async-safe handles over bounded mailboxes, the
//! registry of running servers, and the execution worker's decision logic.
//!
//! The channels themselves are tokio's, declared opaque below; the
//! decisions — duplicate-id rejection, idempotent shutdown, serving
//! in-flight requests during drain, resolving every pending call exactly
//! once — are verified here. The worker's event loop (awaiting the
//! mailbox or the shutdown signal) runs outside this crate and feeds each
//! event through `worker_step`.

use vstd::prelude::*;
use crate::sandbox::{JsServer, SandboxError, StartError};

verus! {

/// In-flight requests one server mailbox holds before callers suspend:
/// the system's backpressure bound.
pub const MAILBOX_CAPACITY: usize = 32;

/// One pending call: the payload and the single-use reply channel,
/// consumed exactly once by the worker.
pub struct ServerRequest {
    pub payload: serde_json::Value,
    pub response_tx: tokio::sync::oneshot::Sender<Result<serde_json::Value, SandboxError>>,
}

/// A caller's handle to a running server: a sender into its mailbox and a
/// one-shot shutdown signal. The worker's state lives in the worker.
pub struct ServerHandle {
    request_tx: tokio::sync::mpsc::Sender<ServerRequest>,
    shutdown_tx: Option<tokio::sync::oneshot::Sender<()>>,
}

impl ServerHandle {
    /// Whether shutdown has been signalled through this handle.
    pub closed spec fn spec_stopped(&self) -> bool {
        self.shutdown_tx is None
    }

    /// The handle after a stop: the signal is spent, the mailbox sender
    /// untouched.
    pub closed spec fn spec_after_stop(h: ServerHandle) -> ServerHandle {
        ServerHandle { shutdown_tx: None, ..h }
    }

    /// The handle's mailbox sender.
    pub closed spec fn spec_request_tx(&self) -> tokio::sync::mpsc::Sender<ServerRequest> {
        self.request_tx
    }

    /// The sender used to submit calls; submitting suspends the caller
    /// while the mailbox is full.
    pub fn request_sender(&self) -> (r: &tokio::sync::mpsc::Sender<ServerRequest>)
        ensures
            r == self.spec_request_tx(),
    {
        &self.request_tx
    }

    /// Signal shutdown. Idempotent: the first call spends the signal and
    /// later calls change nothing. Calls already in the mailbox are still
    /// drained and answered by the worker.
    pub fn stop(&mut self)
        ensures
            *final(self) == ServerHandle::spec_after_stop(*old(self)),
            final(self).spec_stopped(),
    {
        match self.shutdown_tx.take() {
            Some(tx) => send_shutdown(tx),
            None => (),
        }
    }
}

/// Law: stopping an already-stopped handle leaves it exactly as it was.
pub proof fn lemma_stop_idempotent(h: ServerHandle)
    ensures
        ServerHandle::spec_after_stop(ServerHandle::spec_after_stop(h))
            == ServerHandle::spec_after_stop(h),
{
}

/// A fresh handle with its worker-side endpoints: the mailbox receiver
/// and the shutdown receiver, to be moved into the worker's event loop.
pub fn new_server_handle() -> (r: (
    ServerHandle,
    tokio::sync::mpsc::Receiver<ServerRequest>,
    tokio::sync::oneshot::Receiver<()>,
))
    ensures
        !r.0.spec_stopped(),
{
    let (request_tx, request_rx) = request_channel(MAILBOX_CAPACITY);
    let (shutdown_tx, shutdown_rx) = shutdown_channel();
    (
        ServerHandle { request_tx, shutdown_tx: Some(shutdown_tx) },
        request_rx,
        shutdown_rx,
    )
}

/// The registry of running servers. Ids are unique among registered
/// servers; insert and remove are exclusive mutations, listing is a
/// snapshot.
pub struct ServerRegistry {
    entries: Vec<(String, ServerHandle)>,
}

impl ServerRegistry {
    /// The registered ids, in registration order.
    pub closed spec fn spec_ids(&self) -> Seq<Seq<char>> {
        self.entries@.map_values(|e: (String, ServerHandle)| e.0@)
    }

    /// Ids never repeat.
    pub closed spec fn wf(&self) -> bool {
        forall|i: int, j: int|
            0 <= i < j < self.entries@.len() ==> self.entries@[i].0@ != self.entries@[j].0@
    }

    /// An empty registry.
    pub fn new() -> (r: ServerRegistry)
        ensures
            r.wf(),
            r.spec_ids().len() == 0,
    {
        ServerRegistry { entries: Vec::new() }
    }

    /// The position of `id`, when registered.
    fn find(&self, id: &str) -> (r: Option<usize>)
        ensures
            match r {
                Some(i) => i < self.entries@.len() && self.entries@[i as int].0@ == id@,
                None => !self.spec_ids().contains(id@),
            },
    {
        let mut i: usize = 0;
        while i < self.entries.len()
            invariant
                i <= self.entries@.len(),
                forall|k: int| 0 <= k < i ==> self.entries@[k].0@ != id@,
            decreases self.entries@.len() - i,
        {
            if crate::text::str_eq(self.entries[i].0.as_str(), id) {
                return Some(i);
            }
            i = i + 1;
        }
        proof {
            assert forall|k: int| 0 <= k < self.spec_ids().len()
                implies self.spec_ids()[k] != id@ by {
                assert(self.spec_ids()[k] == self.entries@[k].0@);
            }
        }
        None
    }

    /// Whether a server with this id is registered.
    pub fn contains_id(&self, id: &str) -> (r: bool)
        ensures
            r == self.spec_ids().contains(id@),
    {
        match self.find(id) {
            Some(i) => {
                proof {
                    assert(self.spec_ids()[i as int] == id@);
                }
                true
            },
            None => false,
        }
    }

    /// Register a started server under its id. A duplicate id is rejected
    /// and the registry is unchanged.
    pub fn insert(&mut self, id: String, handle: ServerHandle) -> (r: Result<(), StartError>)
        requires
            old(self).wf(),
        ensures
            final(self).wf(),
            match r {
                Ok(()) => {
                    &&& !old(self).spec_ids().contains(id@)
                    &&& final(self).spec_ids() == old(self).spec_ids().push(id@)
                },
                Err(e) => {
                    &&& e is DuplicateId
                    &&& old(self).spec_ids().contains(id@)
                    &&& *final(self) == *old(self)
                },
            },
    {
        if self.contains_id(id.as_str()) {
            return Err(StartError::DuplicateId);
        }
        self.entries.push((id, handle));
        proof {
            assert(final(self).spec_ids() =~= old(self).spec_ids().push(id@));
            assert forall|i: int, j: int|
                0 <= i < j < final(self).entries@.len()
                implies final(self).entries@[i].0@ != final(self).entries@[j].0@ by {
                if j == final(self).entries@.len() - 1 {
                    assert(old(self).spec_ids()[i] == old(self).entries@[i].0@);
                }
            }
        }
        Ok(())
    }

    /// Remove and return the handle registered under `id`.
    pub fn remove(&mut self, id: &str) -> (r: Option<ServerHandle>)
        requires
            old(self).wf(),
        ensures
            final(self).wf(),
            !final(self).spec_ids().contains(id@),
            match r {
                Some(_) => {
                    &&& old(self).spec_ids().contains(id@)
                    &&& exists|i: int|
                        0 <= i < old(self).spec_ids().len()
                            && old(self).spec_ids()[i] == id@
                            && final(self).spec_ids() == old(self).spec_ids().remove(i)
                },
                None => {
                    &&& !old(self).spec_ids().contains(id@)
                    &&& *final(self) == *old(self)
                },
            },
    {
        match self.find(id) {
            Some(i) => {
                let (_, handle) = self.entries.remove(i);
                proof {
                    let entries = old(self).entries@;
                    assert(final(self).entries@ =~= entries.remove(i as int));
                    assert(old(self).spec_ids()[i as int] == id@);
                    assert forall|k: int|
                        0 <= k < final(self).entries@.len()
                        implies final(self).entries@[k].0@ != id@ by {
                        if k < i {
                            assert(final(self).entries@[k] == entries[k]);
                        } else {
                            assert(final(self).entries@[k] == entries[k + 1]);
                        }
                    }
                    assert forall|k: int| 0 <= k < final(self).spec_ids().len()
                        implies final(self).spec_ids()[k] != id@ by {
                        assert(final(self).spec_ids()[k] == final(self).entries@[k].0@);
                    }
                }
                Some(handle)
            },
            None => {
                proof {
                    assert forall|k: int| 0 <= k < final(self).spec_ids().len()
                        implies final(self).spec_ids()[k] != id@ by {
                        assert(final(self).spec_ids()[k] == final(self).entries@[k].0@);
                    }
                }
                None
            },
        }
    }

    /// Borrow the handle registered under `id`.
    pub fn get(&self, id: &str) -> (r: Option<&ServerHandle>)
        ensures
            r is Some <==> self.spec_ids().contains(id@),
    {
        match self.find(id) {
            Some(i) => {
                proof {
                    assert(self.spec_ids()[i as int] == id@);
                }
                Some(&self.entries[i].1)
            },
            None => None,
        }
    }

    /// A snapshot of the registered ids.
    pub fn list(&self) -> (r: Vec<String>)
        ensures
            r@.map_values(|s: String| s@) == self.spec_ids(),
    {
        let mut ids: Vec<String> = Vec::new();
        let mut i: usize = 0;
        while i < self.entries.len()
            invariant
                i <= self.entries@.len(),
                ids@.len() == i,
                forall|k: int| 0 <= k < i ==> (#[trigger] ids@[k])@ == self.entries@[k].0@,
            decreases self.entries@.len() - i,
        {
            ids.push(self.entries[i].0.clone());
            i = i + 1;
        }
        proof {
            assert forall|k: int| 0 <= k < ids@.len()
                implies ids@.map_values(|s: String| s@)[k] == self.spec_ids()[k] by {
                assert(ids@[k]@ == self.entries@[k].0@);
            }
            assert(ids@.map_values(|s: String| s@) =~= self.spec_ids());
        }
        ids
    }
}

/// What the worker's event loop observed.
pub enum WorkerEvent {
    /// A call arrived in the mailbox.
    Request(ServerRequest),
    /// The shutdown signal fired.
    Shutdown,
    /// The mailbox is closed and empty: nothing further can arrive.
    Closed,
}

/// What the worker does next.
pub enum WorkerAction {
    /// Run this call through the sandbox and resolve its reply channel.
    Serve(ServerRequest),
    /// Stop waiting: take only what is already queued, then exit.
    Drain,
    /// Leave the loop; the registry entry is then removed.
    Exit,
}

/// The worker's own state: whether it has observed shutdown.
pub struct WorkerState {
    pub observed_shutdown: bool,
}

/// One decision of the worker loop. Requests are served even after
/// shutdown was observed — work already submitted is never abandoned —
/// while shutdown switches the worker to draining and a closed mailbox
/// ends it.
pub fn worker_step(state: &mut WorkerState, event: WorkerEvent) -> (a: WorkerAction)
    ensures
        match event {
            WorkerEvent::Request(r) => a == WorkerAction::Serve(r)
                && *final(state) == *old(state),
            WorkerEvent::Shutdown => a == WorkerAction::Drain
                && final(state).observed_shutdown,
            WorkerEvent::Closed => a == WorkerAction::Exit
                && *final(state) == *old(state),
        },
{
    match event {
        WorkerEvent::Request(r) => WorkerAction::Serve(r),
        WorkerEvent::Shutdown => {
            self_observe(state);
            WorkerAction::Drain
        },
        WorkerEvent::Closed => WorkerAction::Exit,
    }
}

/// Record that shutdown has been observed.
fn self_observe(state: &mut WorkerState)
    ensures
        final(state).observed_shutdown,
{
    state.observed_shutdown = true;
}

/// Serve one pending call: run it through the server's interpreter and
/// resolve the reply channel with the outcome. The reply channel is moved
/// into the send, so the call is resolved exactly once.
pub fn serve_request(server: &mut JsServer, request: ServerRequest)
    ensures
        final(server).spec_fetch_installed() == old(server).spec_fetch_installed(),
        final(server).spec_id() == old(server).spec_id(),
{
    let outcome = server.call(&request.payload);
    send_response(request.response_tx, outcome);
}

#[verifier::external_type_specification]
#[verifier::external_body]
#[verifier::reject_recursive_types(T)]
pub struct ExMpscSender<T>(tokio::sync::mpsc::Sender<T>);

#[verifier::external_type_specification]
#[verifier::external_body]
#[verifier::reject_recursive_types(T)]
pub struct ExMpscReceiver<T>(tokio::sync::mpsc::Receiver<T>);

#[verifier::external_type_specification]
#[verifier::external_body]
#[verifier::reject_recursive_types(T)]
pub struct ExOneshotSender<T>(tokio::sync::oneshot::Sender<T>);

#[verifier::external_type_specification]
#[verifier::external_body]
#[verifier::reject_recursive_types(T)]
pub struct ExOneshotReceiver<T>(tokio::sync::oneshot::Receiver<T>);

#[verifier::external_type_specification]
#[verifier::external_body]
pub struct ExOneshotRecvError(tokio::sync::oneshot::error::RecvError);

/// Relies on `tokio::sync::mpsc::channel`: a bounded mailbox of the given
/// capacity; senders suspend while it is full. The function panics on a
/// zero capacity, so that is excluded here.
#[verifier::external_body]
fn request_channel(capacity: usize) -> (r: (
    tokio::sync::mpsc::Sender<ServerRequest>,
    tokio::sync::mpsc::Receiver<ServerRequest>,
))
    requires
        capacity >= 1,
{
    tokio::sync::mpsc::channel(capacity)
}

/// Relies on `tokio::sync::oneshot::channel`: a single-use signal pair.
#[verifier::external_body]
fn shutdown_channel() -> (r: (
    tokio::sync::oneshot::Sender<()>,
    tokio::sync::oneshot::Receiver<()>,
))
{
    tokio::sync::oneshot::channel()
}

/// Relies on `tokio::sync::oneshot::Sender::send`: fires the signal,
/// consuming the sender; a gone receiver is ignored.
#[verifier::external_body]
fn send_shutdown(tx: tokio::sync::oneshot::Sender<()>)
{
    let _ = tx.send(());
}

/// Relies on `tokio::sync::oneshot::Sender::send`: resolves the reply
/// channel with the outcome, consuming the sender; a caller that gave up
/// waiting is ignored.
#[verifier::external_body]
fn send_response(
    tx: tokio::sync::oneshot::Sender<Result<serde_json::Value, SandboxError>>,
    outcome: Result<serde_json::Value, SandboxError>,
)
{
    let _ = tx.send(outcome);
}

} // verus!
