//! The server facade a frame loop polls, and the verified steps of its
//! background workers.
//!
//! The facade owns the task runtime, the connection registry and the
//! foreground ends of the shared queues. The unverified shell binds the DTLS
//! listener, runs the accepter and the per-connection sender and receiver
//! loops, and attaches their join handles; every decision those loops take is
//! a verified call here. Queues are unbounded, matching the design this
//! transport follows; no facade operation blocks.

use vstd::prelude::*;

use tokio::runtime::Runtime;
use tokio::sync::mpsc::{UnboundedReceiver, UnboundedSender};
use tokio::task::JoinHandle;

use crate::chan;
use crate::chan::TryRecvOutcome;
use crate::error::{DtlsError, WorkerResult};
use crate::server::cert_option::ServerCertOption;
use crate::server::registry::{
    conn_closes, AdmitOutcome, ConnRegistry, RegistryView,
};
use crate::worker::{RecvOutcome, SendOutcome};

verus! {

/// Identifier of an admitted peer. Assigned monotonically starting at 1;
/// index 0 is reserved so the host may use it for "server self" without
/// collision. Never reused within one server's lifetime.
#[derive(Clone, Copy, Debug, PartialEq, Eq, Structural)]
pub struct ConnIndex(u64);

impl View for ConnIndex {
    type V = u64;

    closed spec fn view(&self) -> u64 {
        self.0
    }
}

impl ConnIndex {
    pub fn new(index: u64) -> (r: ConnIndex)
        ensures
            r@ == index,
    {
        ConnIndex(index)
    }

    pub fn index(&self) -> (r: u64)
        ensures
            r == self@,
    {
        self.0
    }
}

/// One message on this channel tells a server worker to exit cooperatively.
pub struct DtlsServerClose;

/// Where the server listens and with which certificate policy. The unverified
/// shell consumes it when binding the listener.
#[derive(Clone, Debug)]
pub struct DtlsServerConfig {
    pub listen_addr: String,
    pub listen_port: u16,
    pub cert_option: ServerCertOption,
}

/// Soft timeout surfaced through `timeout_check`; it never terminates a
/// worker.
pub enum DtlsServerTimeout {
    /// A datagram's send deadline elapsed; carries back the exact bytes
    /// submitted so the caller may resubmit them.
    Send { conn_index: ConnIndex, bytes: Vec<u8> },
    /// Nothing arrived on this connection within the inactivity timeout.
    Recv(ConnIndex),
}

/// Terminal worker results of one connection, reaped by one `health_check`
/// call. A field is `Some` exactly when that worker was present and had
/// finished; `closed` reports that the record was removed.
pub struct DtlsConnHealth {
    pub conn_index: ConnIndex,
    pub sender: Option<WorkerResult>,
    pub recver: Option<WorkerResult>,
    pub closed: bool,
}

/// Everything one `health_check` call reaped: the accepter's terminal result,
/// if it finished, and one record per connection with a finished worker.
pub struct DtlsServerHealth {
    pub listener: Option<WorkerResult>,
    pub conns: Vec<DtlsConnHealth>,
}

/// Spec-level image of the server: the registry, which slots are occupied,
/// and the tunables.
pub ghost struct ServerView {
    pub registry: RegistryView,
    pub listener_attached: bool,
    pub has_acpt_handle: bool,
    pub has_acpt_rx: bool,
    pub has_close_acpt_tx: bool,
    pub send_timeout_secs: u64,
    pub recv_buf_size: usize,
    pub recv_timeout_secs: Option<u64>,
    pub has_recv_tx: bool,
    pub has_recv_rx: bool,
    pub has_timeout_tx: bool,
    pub has_timeout_rx: bool,
}

impl ServerView {
    /// The server is closed when no peer is registered and every optional
    /// slot is empty.
    pub open spec fn is_closed(self) -> bool {
        &&& self.registry.entries.len() == 0
        &&& !self.listener_attached
        &&& !self.has_acpt_handle
        &&& !self.has_acpt_rx
        &&& !self.has_close_acpt_tx
        &&& !self.has_recv_tx
        &&& !self.has_recv_rx
        &&& !self.has_timeout_tx
        &&& !self.has_timeout_rx
    }

    /// Validity carried by every facade operation.
    pub open spec fn inv(self) -> bool {
        self.registry.wf()
    }

    /// State after `start` installed the listener and the shared queues.
    pub open spec fn started(self) -> ServerView {
        ServerView {
            listener_attached: true,
            has_acpt_rx: true,
            has_close_acpt_tx: true,
            has_recv_tx: true,
            has_recv_rx: true,
            has_timeout_tx: true,
            has_timeout_rx: true,
            ..self
        }
    }

    /// State after `close` signalled the accepter and tore down the shared
    /// queues. The accepter handle and the listener stay until `health_check`
    /// reaps them; the registry is untouched (`disconnect_all` handles it).
    pub open spec fn spec_close(self) -> ServerView {
        ServerView {
            has_close_acpt_tx: false,
            has_acpt_rx: false,
            has_recv_tx: false,
            has_recv_rx: false,
            has_timeout_tx: false,
            has_timeout_rx: false,
            ..self
        }
    }

    /// State after a `health_check` that reaped the accepter, when it had
    /// finished: the handle is consumed and the listener slot cleared.
    pub open spec fn acpt_reaped(self, reap: bool) -> ServerView {
        if reap {
            ServerView { has_acpt_handle: false, listener_attached: false, ..self }
        } else {
            self
        }
    }

    pub open spec fn with_registry(self, r: RegistryView) -> ServerView {
        ServerView { registry: r, ..self }
    }
}

/// The worker-side ends `start` creates for the accepter. The unverified
/// shell moves them into the accepter loop it spawns.
pub struct AccepterWiring {
    /// Where the accepter announces admitted indices, in admission order.
    pub acpt_tx: UnboundedSender<ConnIndex>,
    /// Tells the accepter to exit.
    pub close_acpt_rx: UnboundedReceiver<DtlsServerClose>,
}

/// The worker-side ends `start_conn` creates for one connection's sender and
/// receiver loops.
pub struct ConnWiring {
    pub conn_index: ConnIndex,
    /// Feeds the sender loop with outbound datagrams.
    pub send_rx: UnboundedReceiver<Vec<u8>>,
    /// Tells the sender loop to exit.
    pub close_send_rx: UnboundedReceiver<DtlsServerClose>,
    /// Tells the receiver loop to exit.
    pub close_recv_rx: UnboundedReceiver<DtlsServerClose>,
    /// Where the receiver loop delivers inbound datagrams.
    pub recv_tx: UnboundedSender<(ConnIndex, Vec<u8>)>,
    /// Where the sender loop reports send timeouts.
    pub send_timeout_tx: UnboundedSender<DtlsServerTimeout>,
    /// Where the receiver loop reports inactivity timeouts.
    pub recv_timeout_tx: UnboundedSender<DtlsServerTimeout>,
    /// Per-datagram send deadline, in seconds.
    pub send_timeout_secs: u64,
    /// Size of the receive buffer, in bytes.
    pub recv_buf_size: usize,
    /// Inactivity timeout, in seconds; `None` disables the timer.
    pub recv_timeout_secs: Option<u64>,
}

/// The DTLS server facade. Polled from a single foreground thread; the
/// unverified shell additionally calls `admit_peer` from the accepter, under its
/// lock. All operations are non-blocking.
pub struct DtlsServer {
    runtime: Runtime,
    registry: ConnRegistry,
    listener_attached: bool,
    acpt_handle: Option<JoinHandle<WorkerResult>>,
    acpt_rx: Option<UnboundedReceiver<ConnIndex>>,
    close_acpt_tx: Option<UnboundedSender<DtlsServerClose>>,
    send_timeout_secs: u64,
    recv_buf_size: usize,
    recv_timeout_secs: Option<u64>,
    recv_tx: Option<UnboundedSender<(ConnIndex, Vec<u8>)>>,
    recv_rx: Option<UnboundedReceiver<(ConnIndex, Vec<u8>)>>,
    timeout_tx: Option<UnboundedSender<DtlsServerTimeout>>,
    timeout_rx: Option<UnboundedReceiver<DtlsServerTimeout>>,
}

impl View for DtlsServer {
    type V = ServerView;

    closed spec fn view(&self) -> ServerView {
        ServerView {
            registry: self.registry@,
            listener_attached: self.listener_attached,
            has_acpt_handle: self.acpt_handle is Some,
            has_acpt_rx: self.acpt_rx is Some,
            has_close_acpt_tx: self.close_acpt_tx is Some,
            send_timeout_secs: self.send_timeout_secs,
            recv_buf_size: self.recv_buf_size,
            recv_timeout_secs: self.recv_timeout_secs,
            has_recv_tx: self.recv_tx is Some,
            has_recv_rx: self.recv_rx is Some,
            has_timeout_tx: self.timeout_tx is Some,
            has_timeout_rx: self.timeout_rx is Some,
        }
    }
}

impl DtlsServer {
    /// Builds the server and its task runtime. The server starts closed.
    /// `max_clients` is the hard cap of simultaneous peers and must be at
    /// least 1.
    pub fn new(
        max_clients: usize,
        recv_buf_size: usize,
        send_timeout_secs: u64,
        recv_timeout_secs: Option<u64>,
    ) -> (r: Result<DtlsServer, DtlsError>)
        requires
            max_clients >= 1,
        ensures
            r matches Ok(s) ==> (s@.is_closed() && s@.inv() && s@.registry.max_clients
                == max_clients && s@.registry.next_index == 1 && s@.recv_buf_size == recv_buf_size
                && s@.send_timeout_secs == send_timeout_secs && s@.recv_timeout_secs
                == recv_timeout_secs),
            r matches Err(e) ==> e is Runtime,
    {
        let rt = match chan::build_runtime() {
            Ok(rt) => rt,
            Err(msg) => {
                return Err(DtlsError::Runtime(msg));
            },
        };
        Ok(
            DtlsServer {
                runtime: rt,
                registry: ConnRegistry::new(max_clients),
                listener_attached: false,
                acpt_handle: None,
                acpt_rx: None,
                close_acpt_tx: None,
                send_timeout_secs,
                recv_buf_size,
                recv_timeout_secs,
                recv_tx: None,
                recv_rx: None,
                timeout_tx: None,
                timeout_rx: None,
            },
        )
    }

    /// The task runtime the unverified shell spawns this server's workers on.
    pub fn runtime(&self) -> &Runtime {
        &self.runtime
    }

    /// True exactly when no peer is registered and every optional slot is
    /// empty.
    pub fn is_closed(&self) -> (r: bool)
        ensures
            r == self@.is_closed(),
    {
        self.registry.is_empty() && !self.listener_attached && self.acpt_handle.is_none()
            && self.acpt_rx.is_none() && self.close_acpt_tx.is_none() && self.recv_tx.is_none()
            && self.recv_rx.is_none() && self.timeout_tx.is_none() && self.timeout_rx.is_none()
    }

    /// How many peers are currently registered. Transiently includes peers
    /// whose workers have already died; the next `health_check` reconciles
    /// them.
    pub fn connected_clients(&self) -> (r: usize)
        ensures
            r == self@.registry.entries.len(),
    {
        self.registry.len()
    }

    /// All registered indices, in admission order.
    pub fn client_indices(&self) -> (r: Vec<u64>)
        ensures
            r@ == self@.registry.key_seq(),
    {
        self.registry.client_indices()
    }

    pub fn has_conn(&self, conn_idx: u64) -> (r: bool)
        ensures
            r == self@.registry.contains_key(conn_idx),
    {
        self.registry.has_conn(conn_idx)
    }

    /// Installs the shared queues and the accepter's channels for a freshly
    /// bound listener and hands out the accepter's ends. Fails with
    /// `NotClosed` if and only if the server is not closed; the unverified
    /// shell binds the listener first and calls this on success.
    pub fn start(&mut self) -> (r: Result<AccepterWiring, DtlsError>)
        ensures
            r is Ok <==> old(self)@.is_closed(),
            r matches Err(e) ==> e is NotClosed && *final(self) == *old(self),
            r is Ok ==> final(self)@ == old(self)@.started(),
    {
        if !self.is_closed() {
            return Err(DtlsError::NotClosed);
        }
        let (recv_tx, recv_rx) = chan::channel_pair::<(ConnIndex, Vec<u8>)>();
        let (timeout_tx, timeout_rx) = chan::channel_pair::<DtlsServerTimeout>();
        let (acpt_tx, acpt_rx) = chan::channel_pair::<ConnIndex>();
        let (close_acpt_tx, close_acpt_rx) = chan::channel_pair::<DtlsServerClose>();
        self.listener_attached = true;
        self.recv_tx = Some(recv_tx);
        self.recv_rx = Some(recv_rx);
        self.timeout_tx = Some(timeout_tx);
        self.timeout_rx = Some(timeout_rx);
        self.acpt_rx = Some(acpt_rx);
        self.close_acpt_tx = Some(close_acpt_tx);
        Ok(AccepterWiring { acpt_tx, close_acpt_rx })
    }

    /// Attaches the accepter's join handle. Fails if a handle is still
    /// attached, which means `health_check` has not reaped a finished
    /// accepter yet.
    pub fn attach_acpt_worker(&mut self, handle: JoinHandle<WorkerResult>) -> (r: Result<
        (),
        DtlsError,
    >)
        ensures
            r is Ok <==> !old(self)@.has_acpt_handle,
            r is Ok ==> final(self)@ == (ServerView { has_acpt_handle: true, ..old(self)@ }),
            r matches Err(e) ==> e is AlreadyStarted && *final(self) == *old(self),
    {
        if self.acpt_handle.is_some() {
            return Err(DtlsError::AlreadyStarted(0));
        }
        self.acpt_handle = Some(handle);
        Ok(())
    }

    /// Admits one freshly accepted peer; called by the accepter. Full and
    /// exhausted outcomes leave the registry untouched; an admitted peer gets
    /// the next index, strictly increasing, never 0, never reused.
    pub fn admit_peer(&mut self) -> (r: AdmitOutcome)
        requires
            old(self)@.inv(),
        ensures
            final(self)@.inv(),
            final(self)@ == old(self)@.with_registry(old(self)@.registry.spec_admit()),
            r is Full <==> old(self)@.registry.admit_full(),
            r is Exhausted <==> old(self)@.registry.admit_exhausted(),
            r matches AdmitOutcome::Admitted(idx) ==> (idx@ == old(self)@.registry.next_index
                && idx@ >= 1 && !old(self)@.registry.contains_key(idx@)
                && final(self)@.registry.entries.len() == old(self)@.registry.entries.len() + 1),
    {
        self.registry.admit_peer()
    }

    /// Non-blocking drain of one accepted index, in admission order. Returns
    /// `None` when the accept queue is absent, empty, or closed.
    pub fn acpt(&mut self) -> (r: Option<ConnIndex>)
        ensures
            final(self)@ == old(self)@,
            !old(self)@.has_acpt_rx ==> r is None,
    {
        match &mut self.acpt_rx {
            None => None,
            Some(rx) => match chan::channel_try_recv(rx) {
                TryRecvOutcome::Item(idx) => Some(idx),
                TryRecvOutcome::Empty => None,
                TryRecvOutcome::Closed => None,
            },
        }
    }

    /// Non-blocking drain of one inbound datagram from the shared queue.
    /// Returns `None` when the queue is absent, empty, or closed. Arrival
    /// order is preserved per connection; interleavings between connections
    /// are not specified.
    pub fn recv(&mut self) -> (r: Option<(ConnIndex, Vec<u8>)>)
        ensures
            final(self)@ == old(self)@,
            !old(self)@.has_recv_rx ==> r is None,
    {
        match &mut self.recv_rx {
            None => None,
            Some(rx) => match chan::channel_try_recv(rx) {
                TryRecvOutcome::Item(ib) => Some(ib),
                TryRecvOutcome::Empty => None,
                TryRecvOutcome::Closed => None,
            },
        }
    }

    /// Non-blocking drain of one soft timeout. Returns `Ok(())` when there is
    /// nothing to report.
    pub fn timeout_check(&mut self) -> (r: Result<(), DtlsServerTimeout>)
        ensures
            final(self)@ == old(self)@,
            !old(self)@.has_timeout_rx ==> r is Ok,
    {
        match &mut self.timeout_rx {
            None => Ok(()),
            Some(rx) => match chan::channel_try_recv(rx) {
                TryRecvOutcome::Item(t) => Err(t),
                TryRecvOutcome::Empty => Ok(()),
                TryRecvOutcome::Closed => Ok(()),
            },
        }
    }

    /// Installs the queues of an admitted connection, marks it running, and
    /// hands out the ends its sender and receiver loops need. Fails with
    /// `NotStarted` when the server itself is not started, `NoSuchConn` when
    /// the index is not registered, and `AlreadyStarted` when a worker handle
    /// is still attached.
    pub fn start_conn(&mut self, conn_index: ConnIndex) -> (r: Result<ConnWiring, DtlsError>)
        requires
            old(self)@.inv(),
        ensures
            final(self)@.inv(),
            r is Err ==> *final(self) == *old(self),
            (!old(self)@.has_recv_tx || !old(self)@.has_timeout_tx) ==> (r matches Err(e)
                && e is NotStarted),
            (old(self)@.has_recv_tx && old(self)@.has_timeout_tx && !old(self)@.registry.contains_key(conn_index@)) ==> (r matches Err(e) && e matches
                DtlsError::NoSuchConn(k) && k == conn_index@),
            r is Ok <==> (old(self)@.has_recv_tx && old(self)@.has_timeout_tx && old(self)@.registry.contains_key(conn_index@) && !old(self)@.registry.record_of(
                conn_index@,
            ).has_recv_handle && !old(self)@.registry.record_of(conn_index@).has_send_handle),
            r is Ok ==> final(self)@ == old(self)@.with_registry(
                old(self)@.registry.spec_install(conn_index@),
            ),
            r matches Ok(w) ==> (w.conn_index == conn_index && w.send_timeout_secs == old(self)@.send_timeout_secs && w.recv_buf_size == old(self)@.recv_buf_size
                && w.recv_timeout_secs == old(self)@.recv_timeout_secs),
    {
        let recv_tx = match &self.recv_tx {
            Some(tx) => chan::channel_sender_clone(tx),
            None => {
                return Err(DtlsError::NotStarted);
            },
        };
        let send_timeout_tx = match &self.timeout_tx {
            Some(tx) => chan::channel_sender_clone(tx),
            None => {
                return Err(DtlsError::NotStarted);
            },
        };
        let recv_timeout_tx = match &self.timeout_tx {
            Some(tx) => chan::channel_sender_clone(tx),
            None => {
                return Err(DtlsError::NotStarted);
            },
        };
        let (send_tx, send_rx) = chan::channel_pair::<Vec<u8>>();
        let (close_recv_tx, close_recv_rx) = chan::channel_pair::<DtlsServerClose>();
        let (close_send_tx, close_send_rx) = chan::channel_pair::<DtlsServerClose>();
        match self.registry.install_conn_pipes(
            conn_index.index(),
            send_tx,
            close_recv_tx,
            close_send_tx,
        ) {
            Err(e) => Err(e),
            Ok(()) => Ok(
                ConnWiring {
                    conn_index,
                    send_rx,
                    close_send_rx,
                    close_recv_rx,
                    recv_tx,
                    send_timeout_tx,
                    recv_timeout_tx,
                    send_timeout_secs: self.send_timeout_secs,
                    recv_buf_size: self.recv_buf_size,
                    recv_timeout_secs: self.recv_timeout_secs,
                },
            ),
        }
    }

    /// Attaches the join handles of one connection's freshly spawned workers.
    pub fn attach_conn_workers(
        &mut self,
        conn_index: ConnIndex,
        recv_handle: JoinHandle<WorkerResult>,
        send_handle: JoinHandle<WorkerResult>,
    ) -> (r: Result<(), DtlsError>)
        requires
            old(self)@.inv(),
        ensures
            final(self)@.inv(),
            r is Err ==> *final(self) == *old(self),
            r is Ok <==> (old(self)@.registry.contains_key(conn_index@) && !old(self)@.registry.record_of(conn_index@).has_recv_handle && !old(self)@.registry.record_of(
                conn_index@,
            ).has_send_handle),
            r is Ok ==> final(self)@ == old(self)@.with_registry(
                old(self)@.registry.spec_attach(conn_index@),
            ),
    {
        self.registry.attach_conn_handles(conn_index.index(), recv_handle, send_handle)
    }

    /// Enqueues one datagram for one connection's sender worker. Never
    /// blocks. Fails with `NoSuchConn` — and with nothing else — whenever the
    /// connection cannot be found or its send endpoint cannot: the index is
    /// not registered, its send queue was never installed or was cleared by
    /// `disconnect`, or its sender worker dropped the queue.
    pub fn send(&self, conn_index: u64, message: Vec<u8>) -> (r: Result<(), DtlsError>)
        requires
            self@.inv(),
        ensures
            !self@.registry.contains_key(conn_index) ==> r is Err,
            self@.registry.contains_key(conn_index) && !self@.registry.record_of(
                conn_index,
            ).has_send_tx ==> r is Err,
            r is Ok ==> (self@.registry.contains_key(conn_index) && self@.registry.record_of(
                conn_index,
            ).has_send_tx),
            r matches Err(e) ==> (e matches DtlsError::NoSuchConn(k) && k == conn_index),
    {
        self.registry.send_to(conn_index, message)
    }

    /// Hands the same bytes to every peer whose sender is currently alive;
    /// peers whose sender is gone are skipped, never retried. Never fails.
    pub fn broadcast(&self, message: &Vec<u8>) -> (r: Result<(), DtlsError>)
        ensures
            r is Ok,
    {
        self.registry.broadcast(message);
        Ok(())
    }

    /// The indices a broadcast would reach right now: exactly those whose
    /// record holds a live send queue, in admission order.
    pub fn broadcast_targets(&self) -> (r: Vec<u64>)
        ensures
            r@ == self@.registry.alive_targets(),
    {
        self.registry.alive_targets()
    }

    /// Polls the accepter's handle and every connection's worker handles; a
    /// finished handle is consumed and its terminal result surfaced. A
    /// connection that was running and has no handle left afterwards is
    /// removed from the registry and reported `closed`.
    pub fn health_check(&mut self) -> (r: DtlsServerHealth)
        requires
            old(self)@.inv(),
        ensures
            final(self)@.inv(),
            r.listener is Some ==> old(self)@.has_acpt_handle,
            final(self)@ == old(self)@.acpt_reaped(r.listener is Some).with_registry(
                final(self)@.registry,
            ),
            final(self)@.registry.max_clients == old(self)@.registry.max_clients,
            final(self)@.registry.next_index == old(self)@.registry.next_index,
            forall|j: int|
                0 <= j < r.conns@.len() ==> old(self)@.registry.contains_key(
                    (#[trigger] r.conns@[j]).conn_index@,
                ),
            forall|j: int|
                0 <= j < r.conns@.len() ==> ((#[trigger] r.conns@[j]).sender is Some
                    || r.conns@[j].recver is Some),
            forall|j: int|
                0 <= j < r.conns@.len() ==> ((#[trigger] r.conns@[j]).sender is Some ==> old(self)@.registry.record_of(r.conns@[j].conn_index@).has_send_handle),
            forall|j: int|
                0 <= j < r.conns@.len() ==> ((#[trigger] r.conns@[j]).recver is Some ==> old(self)@.registry.record_of(r.conns@[j].conn_index@).has_recv_handle),
            forall|j: int|
                0 <= j < r.conns@.len() ==> (#[trigger] r.conns@[j]).closed == conn_closes(
                    old(self)@.registry.record_of(r.conns@[j].conn_index@),
                    r.conns@[j].sender is Some,
                    r.conns@[j].recver is Some,
                ),
            forall|j: int|
                0 <= j < r.conns@.len() ==> ((#[trigger] r.conns@[j]).closed ==> !final(self)@.registry.contains_key(r.conns@[j].conn_index@)),
            forall|j: int|
                0 <= j < r.conns@.len() ==> (!(#[trigger] r.conns@[j]).closed ==> final(self)@.registry.contains_key(r.conns@[j].conn_index@)),
            forall|j1: int, j2: int|
                0 <= j1 < j2 < r.conns@.len() ==> (#[trigger] r.conns@[j1]).conn_index@ != (
                #[trigger] r.conns@[j2]).conn_index@,
            forall|k: u64|
                old(self)@.registry.contains_key(k) && !crate::server::registry::spec_reported(
                    r.conns@,
                    k,
                ) ==> (#[trigger] final(self)@.registry.contains_key(k)) && final(self)@.registry.record_of(k) == old(self)@.registry.record_of(k),
            forall|k: u64|
                #[trigger] final(self)@.registry.contains_key(k) ==> old(self)@.registry.contains_key(k),
    {
        let listener = self.health_check_acpt();
        let conns = self.registry.health_sweep(&self.runtime);
        DtlsServerHealth { listener, conns }
    }

    fn health_check_acpt(&mut self) -> (r: Option<WorkerResult>)
        ensures
            r is None ==> *final(self) == *old(self),
            r is Some ==> old(self)@.has_acpt_handle && final(self)@ == old(self)@.acpt_reaped(
                true,
            ),
    {
        let finished = match &self.acpt_handle {
            None => {
                return None;
            },
            Some(h) => chan::task_is_finished(h),
        };
        if !finished {
            return None;
        }
        let handle = self.acpt_handle.take().unwrap();
        self.listener_attached = false;
        match chan::join_task(&self.runtime, handle) {
            Ok(r) => Some(r),
            Err(msg) => Some(Err(DtlsError::Io(msg))),
        }
    }

    /// Signals both workers of one connection to exit and clears the
    /// record's queue ends. The record itself stays until `health_check`
    /// confirms both workers gone. Unknown indices are ignored; calling this
    /// twice has the effect of calling it once.
    pub fn disconnect(&mut self, conn_index: u64)
        requires
            old(self)@.inv(),
        ensures
            final(self)@.inv(),
            final(self)@ == old(self)@.with_registry(
                old(self)@.registry.spec_disconnect(conn_index),
            ),
    {
        self.registry.disconnect(conn_index);
    }

    /// Disconnects every registered connection.
    pub fn disconnect_all(&mut self)
        requires
            old(self)@.inv(),
        ensures
            final(self)@.inv(),
            final(self)@ == old(self)@.with_registry(old(self)@.registry.spec_disconnect_all()),
    {
        self.registry.disconnect_all();
    }

    /// Signals the accepter to exit and tears down the shared queues. The
    /// accepter handle and the listener stay until `health_check` reaps
    /// them. Calling this twice has the effect of calling it once.
    pub fn close(&mut self)
        ensures
            final(self)@ == old(self)@.spec_close(),
    {
        if let Some(tx) = &self.close_acpt_tx {
            let _ = chan::channel_send(tx, DtlsServerClose);
        }
        self.close_acpt_tx = None;
        self.acpt_rx = None;
        self.recv_tx = None;
        self.recv_rx = None;
        self.timeout_tx = None;
        self.timeout_rx = None;
    }
}

/// What the sender loop does after one outbound message was attempted.
pub enum ServerSenderStep {
    /// The transport accepted the datagram; take the next message.
    Proceed,
    /// Report this soft timeout and take the next message.
    Report(DtlsServerTimeout),
    /// Exit the loop with this terminal result.
    Exit(WorkerResult),
}

/// Decides the sender loop's next move from the outcome of one send attempt.
/// A timeout re-emits the original message, byte for byte, tagged with the
/// connection's index, so the caller may resubmit it; a transport error is
/// terminal.
pub fn server_sender_step(conn_index: ConnIndex, message: Vec<u8>, outcome: SendOutcome) -> (r:
    ServerSenderStep)
    ensures
        outcome is Sent ==> r is Proceed,
        outcome is TimedOut ==> (r matches ServerSenderStep::Report(t) && t matches
            DtlsServerTimeout::Send { conn_index: ci, bytes } && ci == conn_index && bytes
            == message),
        outcome matches SendOutcome::Failed(e) ==> (r matches ServerSenderStep::Exit(w)
            && w matches Err(err) && err matches DtlsError::Io(m) && m == e),
{
    match outcome {
        SendOutcome::Sent(_) => ServerSenderStep::Proceed,
        SendOutcome::TimedOut => ServerSenderStep::Report(
            DtlsServerTimeout::Send { conn_index, bytes: message },
        ),
        SendOutcome::Failed(e) => ServerSenderStep::Exit(Err(DtlsError::Io(e))),
    }
}

/// What the receiver loop does after one wait on the connection.
pub enum ServerRecverStep {
    /// Deliver this datagram to the shared inbound queue and keep listening.
    Deliver((ConnIndex, Vec<u8>)),
    /// Report this soft timeout and keep listening; the timer resets.
    Report(DtlsServerTimeout),
    /// Exit the loop with this terminal result.
    Exit(WorkerResult),
}

/// Decides the receiver loop's next move from the outcome of one wait: a
/// record delivers exactly the first `n` buffer bytes, in order, tagged with
/// the connection's index; an elapsed inactivity timer reports a soft
/// timeout and continues; a transport error is terminal.
pub fn server_recver_step(conn_index: ConnIndex, buf: &Vec<u8>, outcome: RecvOutcome) -> (r:
    ServerRecverStep)
    requires
        outcome matches RecvOutcome::Datagram(n) ==> n <= buf.len(),
    ensures
        outcome matches RecvOutcome::Datagram(n) ==> (r matches ServerRecverStep::Deliver(d)
            && d.0 == conn_index && d.1@ == buf@.take(n as int)),
        outcome is TimerElapsed ==> (r matches ServerRecverStep::Report(t) && t matches
            DtlsServerTimeout::Recv(ci) && ci == conn_index),
        outcome matches RecvOutcome::Failed(e) ==> (r matches ServerRecverStep::Exit(w)
            && w matches Err(err) && err matches DtlsError::Io(m) && m == e),
{
    match outcome {
        RecvOutcome::Datagram(n) => ServerRecverStep::Deliver(
            (conn_index, crate::worker::take_record(buf, n)),
        ),
        RecvOutcome::TimerElapsed => ServerRecverStep::Report(DtlsServerTimeout::Recv(conn_index)),
        RecvOutcome::Failed(e) => ServerRecverStep::Exit(Err(DtlsError::Io(e))),
    }
}

/// What the accepter loop learned from one wait on the listener or from one
/// announcement.
pub enum AccepterEvent {
    /// The listener failed; carries its error as text.
    AcceptFailed(String),
    /// A peer was accepted and offered to `admit_peer`, with this outcome.
    PeerOffered(AdmitOutcome),
    /// Announcing an admitted index failed: the accept queue is closed.
    AnnounceFailed,
}

/// What the accepter loop does next.
pub enum AccepterStep {
    /// Close the rejected peer and keep accepting.
    RejectPeer,
    /// Announce this admitted index on the accept queue, in admission order,
    /// and keep accepting.
    Announce(ConnIndex),
    /// Close the peer at hand, if any, then the listener, and exit with this
    /// terminal result.
    Exit(WorkerResult),
}

/// Decides the accepter loop's next move: a failed accept is terminal; an
/// admitted peer is announced; a peer over the cap is closed and skipped
/// without consuming an index; index exhaustion closes the peer and
/// terminates the accepter fatally; a closed accept queue is terminal.
pub fn accepter_step(event: AccepterEvent) -> (r: AccepterStep)
    ensures
        event matches AccepterEvent::AcceptFailed(e) ==> (r matches AccepterStep::Exit(w)
            && w matches Err(err) && err matches DtlsError::Io(m) && m == e),
        event matches AccepterEvent::PeerOffered(AdmitOutcome::Full) ==> r is RejectPeer,
        event matches AccepterEvent::PeerOffered(AdmitOutcome::Exhausted) ==> (r matches
            AccepterStep::Exit(w) && w matches Err(err) && err is IndexExhausted),
        event matches AccepterEvent::PeerOffered(AdmitOutcome::Admitted(idx)) ==> (r matches
            AccepterStep::Announce(j) && j == idx),
        event is AnnounceFailed ==> (r matches AccepterStep::Exit(w) && w matches Err(err)
            && err is Io),
{
    match event {
        AccepterEvent::AcceptFailed(e) => AccepterStep::Exit(Err(DtlsError::Io(e))),
        AccepterEvent::PeerOffered(AdmitOutcome::Full) => AccepterStep::RejectPeer,
        AccepterEvent::PeerOffered(AdmitOutcome::Exhausted) => AccepterStep::Exit(
            Err(DtlsError::IndexExhausted),
        ),
        AccepterEvent::PeerOffered(AdmitOutcome::Admitted(idx)) => AccepterStep::Announce(idx),
        AccepterEvent::AnnounceFailed => AccepterStep::Exit(
            Err(DtlsError::Io("accept queue closed".to_string())),
        ),
    }
}

/// Closing twice has the same effect as closing once.
pub proof fn lemma_server_close_idempotent(v: ServerView)
    ensures
        v.spec_close().spec_close() == v.spec_close(),
{
}

/// Disconnecting one connection twice has the same effect as disconnecting
/// it once.
pub proof fn lemma_server_disconnect_idempotent(v: RegistryView, k: u64)
    requires
        v.wf(),
    ensures
        v.spec_disconnect(k).spec_disconnect(k) == v.spec_disconnect(k),
{
    if v.contains_key(k) {
        v.lemma_position(k);
        crate::server::registry::lemma_set_record(
            v,
            k,
            crate::server::registry::conn_cleared(v.record_of(k)),
        );
        let v1 = v.spec_disconnect(k);
        v1.lemma_position(k);
        assert(v1.position_of(k) == v.position_of(k));
        assert(v1.record_of(k) == crate::server::registry::conn_cleared(v.record_of(k)));
        assert(v1.spec_disconnect(k).entries =~= v1.entries);
        assert(v1.spec_disconnect(k) == v1);
    }
}

/// Disconnecting everything twice has the same effect as doing it once.
pub proof fn lemma_server_disconnect_all_idempotent(v: RegistryView)
    ensures
        v.spec_disconnect_all().spec_disconnect_all() == v.spec_disconnect_all(),
{
    assert(v.spec_disconnect_all().spec_disconnect_all().entries
        =~= v.spec_disconnect_all().entries);
}

/// After `disconnect` of a running connection and one `health_check` that
/// reaps both of its workers, the connection's record is removed.
pub proof fn lemma_server_disconnect_then_reap_removes(v: RegistryView, k: u64)
    requires
        v.wf(),
        v.contains_key(k),
        v.record_of(k).is_running,
    ensures
        !v.spec_disconnect(k).spec_reap(k, true, true).contains_key(k),
{
    v.lemma_position(k);
    crate::server::registry::lemma_set_record(
        v,
        k,
        crate::server::registry::conn_cleared(v.record_of(k)),
    );
    let v1 = v.spec_disconnect(k);
    v1.lemma_position(k);
    assert(conn_closes(v1.record_of(k), true, true));
    crate::server::registry::lemma_remove_record(v1, k);
}

} // verus!
