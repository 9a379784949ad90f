//! The client facade a frame loop polls, and the verified steps of its two
//! background workers.
//!
//! The facade owns the task runtime and the foreground ends of the queues.
//! The unverified shell dials the DTLS peer, spawns the sender and receiver
//! loops with the worker-side ends `start` hands out, and attaches the join
//! handles. Queues are unbounded, matching the design this transport follows;
//! no facade operation blocks.

use vstd::prelude::*;

use tokio::runtime::Runtime;
use tokio::sync::mpsc::{UnboundedReceiver, UnboundedSender};
use tokio::task::JoinHandle;

use crate::chan;
use crate::chan::TryRecvOutcome;
use crate::client::cert_option::ClientCertOption;
use crate::error::{DtlsError, WorkerResult};
use crate::worker::SendOutcome;

verus! {

/// One message on this channel tells a client worker to exit cooperatively.
pub struct DtlsClientClose;

/// Soft timeout surfaced through `timeout_check`; it never terminates a
/// worker.
pub enum DtlsClientTimeout {
    /// The send deadline elapsed; carries back the exact bytes submitted so
    /// the caller may resubmit them.
    Send(Vec<u8>),
}

/// Where the client binds and dials, and with which certificate policy. The
/// unverified shell consumes it when dialing.
#[derive(Clone, Debug)]
pub struct DtlsClientConfig {
    pub server_addr: String,
    pub server_port: u16,
    pub client_addr: String,
    pub client_port: u16,
    pub cert_option: ClientCertOption,
}

/// Terminal worker results reaped by one `health_check` call. A field is
/// `Some` exactly when that worker was present and had finished.
pub struct DtlsClientHealth {
    pub sender: Option<WorkerResult>,
    pub recver: Option<WorkerResult>,
    pub closed: bool,
}

/// Spec-level image of the client: which capability, queue and handle slots
/// are occupied, and the tunables.
pub ghost struct ClientView {
    pub is_running: bool,
    pub has_conn: bool,
    pub send_timeout_secs: u64,
    pub has_send_handle: bool,
    pub has_send_tx: bool,
    pub has_send_timeout_rx: bool,
    pub has_close_send_tx: bool,
    pub has_recv_handle: bool,
    pub recv_buf_size: usize,
    pub has_recv_rx: bool,
    pub has_close_recv_tx: bool,
}

impl ClientView {
    /// The client is closed when every optional slot is empty.
    pub open spec fn is_closed(self) -> bool {
        &&& !self.is_running
        &&& !self.has_conn
        &&& !self.has_recv_handle
        &&& !self.has_send_handle
        &&& !self.has_send_tx
        &&& !self.has_send_timeout_rx
        &&& !self.has_close_send_tx
        &&& !self.has_recv_rx
        &&& !self.has_close_recv_tx
    }

    /// State after `start` installed the connection and the queues.
    pub open spec fn started(self) -> ClientView {
        ClientView {
            has_conn: true,
            has_send_tx: true,
            has_send_timeout_rx: true,
            has_close_send_tx: true,
            has_recv_rx: true,
            has_close_recv_tx: true,
            ..self
        }
    }

    /// State after both worker handles were attached.
    pub open spec fn running(self) -> ClientView {
        ClientView { is_running: true, has_send_handle: true, has_recv_handle: true, ..self }
    }

    /// State after `disconnect` signalled both workers and cleared the
    /// foreground queue ends.
    pub open spec fn disconnected(self) -> ClientView {
        ClientView {
            has_close_send_tx: false,
            has_send_timeout_rx: false,
            has_send_tx: false,
            has_close_recv_tx: false,
            has_recv_rx: false,
            ..self
        }
    }

    /// Whether a `health_check` that reaps the given workers confirms the
    /// client closed: it was running and no handle is left afterwards.
    pub open spec fn reap_closes(self, reap_sender: bool, reap_recver: bool) -> bool {
        &&& self.is_running
        &&& !(self.has_send_handle && !reap_sender)
        &&& !(self.has_recv_handle && !reap_recver)
    }

    /// State after a `health_check` that reaped the given workers. When both
    /// handles are gone and the client was running, the connection slot is
    /// cleared and the client stops running.
    pub open spec fn reaped(self, reap_sender: bool, reap_recver: bool) -> ClientView {
        let mid = ClientView {
            has_send_handle: self.has_send_handle && !reap_sender,
            has_recv_handle: self.has_recv_handle && !reap_recver,
            ..self
        };
        if self.reap_closes(reap_sender, reap_recver) {
            ClientView { has_conn: false, is_running: false, ..mid }
        } else {
            mid
        }
    }
}

/// The worker-side ends `start` creates. The unverified shell moves them into
/// the sender and receiver loops it spawns; it never touches the foreground
/// ends.
pub struct ClientWiring {
    /// Feeds the sender loop with outbound datagrams.
    pub send_rx: UnboundedReceiver<Vec<u8>>,
    /// Tells the sender loop to exit.
    pub close_send_rx: UnboundedReceiver<DtlsClientClose>,
    /// Where the sender loop reports send timeouts.
    pub send_timeout_tx: UnboundedSender<DtlsClientTimeout>,
    /// Where the receiver loop delivers inbound datagrams.
    pub recv_tx: UnboundedSender<Vec<u8>>,
    /// Tells the receiver loop to exit.
    pub close_recv_rx: UnboundedReceiver<DtlsClientClose>,
    /// Per-datagram send deadline, in seconds.
    pub send_timeout_secs: u64,
    /// Size of the receive buffer, in bytes.
    pub recv_buf_size: usize,
}

/// The DTLS client facade. Polled from a single foreground thread; all its
/// operations are non-blocking.
pub struct DtlsClient {
    runtime: Runtime,
    conn_attached: bool,
    is_running: bool,
    send_timeout_secs: u64,
    send_handle: Option<JoinHandle<WorkerResult>>,
    send_tx: Option<UnboundedSender<Vec<u8>>>,
    send_timeout_rx: Option<UnboundedReceiver<DtlsClientTimeout>>,
    close_send_tx: Option<UnboundedSender<DtlsClientClose>>,
    recv_handle: Option<JoinHandle<WorkerResult>>,
    recv_buf_size: usize,
    recv_rx: Option<UnboundedReceiver<Vec<u8>>>,
    close_recv_tx: Option<UnboundedSender<DtlsClientClose>>,
}

impl View for DtlsClient {
    type V = ClientView;

    closed spec fn view(&self) -> ClientView {
        ClientView {
            is_running: self.is_running,
            has_conn: self.conn_attached,
            send_timeout_secs: self.send_timeout_secs,
            has_send_handle: self.send_handle is Some,
            has_send_tx: self.send_tx is Some,
            has_send_timeout_rx: self.send_timeout_rx is Some,
            has_close_send_tx: self.close_send_tx is Some,
            has_recv_handle: self.recv_handle is Some,
            recv_buf_size: self.recv_buf_size,
            has_recv_rx: self.recv_rx is Some,
            has_close_recv_tx: self.close_recv_tx is Some,
        }
    }
}

impl DtlsClient {
    /// Builds the client and its task runtime. The client starts closed.
    pub fn new(recv_buf_size: usize, send_timeout_secs: u64) -> (r: Result<DtlsClient, DtlsError>)
        ensures
            r matches Ok(c) ==> c@.is_closed() && c@.recv_buf_size == recv_buf_size
                && c@.send_timeout_secs == send_timeout_secs,
            r matches Err(e) ==> e is Runtime,
    {
        let rt = match chan::build_runtime() {
            Ok(rt) => rt,
            Err(msg) => {
                return Err(DtlsError::Runtime(msg));
            },
        };
        Ok(DtlsClient {
            runtime: rt,
            conn_attached: false,
            is_running: false,
            send_timeout_secs,
            send_handle: None,
            send_tx: None,
            send_timeout_rx: None,
            close_send_tx: None,
            recv_handle: None,
            recv_buf_size,
            recv_rx: None,
            close_recv_tx: None,
        })
    }

    /// The task runtime the unverified shell spawns this client's workers on.
    pub fn runtime(&self) -> &Runtime {
        &self.runtime
    }

    /// True exactly when every optional slot is empty: nothing dialed, no
    /// worker attached, no queue installed.
    pub fn is_closed(&self) -> (r: bool)
        ensures
            r == self@.is_closed(),
    {
        !self.is_running && self.conn_attached == false && self.recv_handle.is_none()
            && self.send_handle.is_none() && self.send_tx.is_none()
            && self.send_timeout_rx.is_none() && self.close_send_tx.is_none()
            && self.recv_rx.is_none() && self.close_recv_tx.is_none()
    }

    /// Installs the queues for a freshly dialed connection and hands out the
    /// worker-side ends. Fails with `NotClosed` if and only if the client is
    /// not closed; the unverified shell dials first and calls this on
    /// success.
    pub fn start(&mut self) -> (r: Result<ClientWiring, DtlsError>)
        ensures
            r is Ok <==> old(self)@.is_closed(),
            r matches Err(e) ==> e is NotClosed && *final(self) == *old(self),
            r is Ok ==> final(self)@ == old(self)@.started(),
            r matches Ok(w) ==> w.send_timeout_secs == old(self)@.send_timeout_secs
                && w.recv_buf_size == old(self)@.recv_buf_size,
    {
        if !self.is_closed() {
            return Err(DtlsError::NotClosed);
        }
        let (send_tx, send_rx) = chan::channel_pair::<Vec<u8>>();
        let (send_timeout_tx, send_timeout_rx) = chan::channel_pair::<DtlsClientTimeout>();
        let (close_send_tx, close_send_rx) = chan::channel_pair::<DtlsClientClose>();
        let (recv_tx, recv_rx) = chan::channel_pair::<Vec<u8>>();
        let (close_recv_tx, close_recv_rx) = chan::channel_pair::<DtlsClientClose>();
        self.conn_attached = true;
        self.send_tx = Some(send_tx);
        self.send_timeout_rx = Some(send_timeout_rx);
        self.close_send_tx = Some(close_send_tx);
        self.recv_rx = Some(recv_rx);
        self.close_recv_tx = Some(close_recv_tx);
        Ok(ClientWiring {
            send_rx,
            close_send_rx,
            send_timeout_tx,
            recv_tx,
            close_recv_rx,
            send_timeout_secs: self.send_timeout_secs,
            recv_buf_size: self.recv_buf_size,
        })
    }

    /// Attaches the join handles of the two spawned workers and marks the
    /// client running. Fails if either handle slot is still occupied, which
    /// means `health_check` has not reaped a finished worker yet.
    pub fn attach_workers(
        &mut self,
        send_handle: JoinHandle<WorkerResult>,
        recv_handle: JoinHandle<WorkerResult>,
    ) -> (r: Result<(), DtlsError>)
        ensures
            r is Ok <==> !old(self)@.has_send_handle && !old(self)@.has_recv_handle,
            r is Ok ==> final(self)@ == old(self)@.running(),
            r matches Err(e) ==> e is AlreadyStarted && *final(self) == *old(self),
    {
        if self.send_handle.is_some() || self.recv_handle.is_some() {
            return Err(DtlsError::AlreadyStarted(0));
        }
        self.send_handle = Some(send_handle);
        self.recv_handle = Some(recv_handle);
        self.is_running = true;
        Ok(())
    }

    /// Enqueues one datagram for the sender worker. Never blocks. Fails with
    /// `NotConnected` when the send queue is absent or its worker is gone.
    pub fn send(&self, message: Vec<u8>) -> (r: Result<(), DtlsError>)
        ensures
            !self@.has_send_tx ==> (r matches Err(e) && e is NotConnected),
            r matches Err(e) ==> e is NotConnected,
    {
        match &self.send_tx {
            None => Err(DtlsError::NotConnected),
            Some(tx) => match chan::channel_send(tx, message) {
                Ok(()) => Ok(()),
                Err(_) => Err(DtlsError::NotConnected),
            },
        }
    }

    /// Non-blocking drain of one inbound datagram. Returns `None` when the
    /// inbound queue is absent, empty, or closed.
    pub fn recv(&mut self) -> (r: Option<Vec<u8>>)
        ensures
            final(self)@ == old(self)@,
            !old(self)@.has_recv_rx ==> r is None,
    {
        match &mut self.recv_rx {
            None => None,
            Some(rx) => match chan::channel_try_recv(rx) {
                TryRecvOutcome::Item(b) => Some(b),
                TryRecvOutcome::Empty => None,
                TryRecvOutcome::Closed => None,
            },
        }
    }

    /// Non-blocking drain of one soft timeout. Returns `Ok(())` when there is
    /// nothing to report.
    pub fn timeout_check(&mut self) -> (r: Result<(), DtlsClientTimeout>)
        ensures
            final(self)@ == old(self)@,
            !old(self)@.has_send_timeout_rx ==> r is Ok,
    {
        match &mut self.send_timeout_rx {
            None => Ok(()),
            Some(rx) => match chan::channel_try_recv(rx) {
                TryRecvOutcome::Item(t) => Err(t),
                TryRecvOutcome::Empty => Ok(()),
                TryRecvOutcome::Closed => Ok(()),
            },
        }
    }

    /// Polls the two worker handles; a finished handle is consumed and its
    /// terminal result surfaced. When both handles are gone in the same call
    /// and the client was running, the connection slot is cleared and
    /// `closed` is reported.
    pub fn health_check(&mut self) -> (r: DtlsClientHealth)
        ensures
            r.sender is Some ==> old(self)@.has_send_handle,
            r.recver is Some ==> old(self)@.has_recv_handle,
            final(self)@ == old(self)@.reaped(r.sender is Some, r.recver is Some),
            r.closed == old(self)@.reap_closes(r.sender is Some, r.recver is Some),
    {
        let sender_health = self.health_check_send_loop();
        let recver_health = self.health_check_recv_loop();
        let closed = self.is_running && self.send_handle.is_none() && self.recv_handle.is_none();
        if closed {
            self.conn_attached = false;
            self.is_running = false;
        }
        DtlsClientHealth { sender: sender_health, recver: recver_health, closed }
    }

    /// Signals both workers to exit and clears the foreground queue ends.
    /// Safe to call on a closed client; calling it twice has the effect of
    /// calling it once.
    pub fn disconnect(&mut self)
        ensures
            final(self)@ == old(self)@.disconnected(),
    {
        self.close_send_loop();
        self.close_recv_loop();
    }

    fn health_check_send_loop(&mut self) -> (r: Option<WorkerResult>)
        ensures
            r is None ==> *final(self) == *old(self),
            r is Some ==> old(self)@.has_send_handle
                && final(self)@ == (ClientView { has_send_handle: false, ..old(self)@ }),
    {
        let finished = match &self.send_handle {
            None => {
                return None;
            },
            Some(h) => chan::task_is_finished(h),
        };
        if !finished {
            return None;
        }
        let handle = self.send_handle.take().unwrap();
        match chan::join_task(&self.runtime, handle) {
            Ok(r) => Some(r),
            Err(msg) => Some(Err(DtlsError::Io(msg))),
        }
    }

    fn health_check_recv_loop(&mut self) -> (r: Option<WorkerResult>)
        ensures
            r is None ==> *final(self) == *old(self),
            r is Some ==> old(self)@.has_recv_handle
                && final(self)@ == (ClientView { has_recv_handle: false, ..old(self)@ }),
    {
        let finished = match &self.recv_handle {
            None => {
                return None;
            },
            Some(h) => chan::task_is_finished(h),
        };
        if !finished {
            return None;
        }
        let handle = self.recv_handle.take().unwrap();
        match chan::join_task(&self.runtime, handle) {
            Ok(r) => Some(r),
            Err(msg) => Some(Err(DtlsError::Io(msg))),
        }
    }

    fn close_send_loop(&mut self)
        ensures
            final(self)@ == (ClientView {
                has_close_send_tx: false,
                has_send_timeout_rx: false,
                has_send_tx: false,
                ..old(self)@
            }),
    {
        if let Some(tx) = &self.close_send_tx {
            let _ = chan::channel_send(tx, DtlsClientClose);
        }
        self.close_send_tx = None;
        self.send_timeout_rx = None;
        self.send_tx = None;
    }

    fn close_recv_loop(&mut self)
        ensures
            final(self)@ == (ClientView {
                has_close_recv_tx: false,
                has_recv_rx: false,
                ..old(self)@
            }),
    {
        if let Some(tx) = &self.close_recv_tx {
            let _ = chan::channel_send(tx, DtlsClientClose);
        }
        self.close_recv_tx = None;
        self.recv_rx = None;
    }
}

/// What the sender loop does after one outbound message was attempted.
pub enum ClientSenderStep {
    /// The transport accepted the datagram; take the next message.
    Proceed,
    /// Report this soft timeout and take the next message.
    Report(DtlsClientTimeout),
    /// Exit the loop with this terminal result.
    Exit(WorkerResult),
}

/// Decides the sender loop's next move from the outcome of one send attempt.
/// A timeout re-emits the original message, byte for byte, so the caller may
/// resubmit it; a transport error is terminal.
pub fn client_sender_step(message: Vec<u8>, outcome: SendOutcome) -> (r: ClientSenderStep)
    ensures
        outcome is Sent ==> r is Proceed,
        outcome is TimedOut ==> (r matches ClientSenderStep::Report(t)
            && t matches DtlsClientTimeout::Send(b) && b == message),
        outcome matches SendOutcome::Failed(e) ==> (r matches ClientSenderStep::Exit(w)
            && w matches Err(err) && err matches DtlsError::Io(m) && m == e),
{
    match outcome {
        SendOutcome::Sent(_) => ClientSenderStep::Proceed,
        SendOutcome::TimedOut => ClientSenderStep::Report(DtlsClientTimeout::Send(message)),
        SendOutcome::Failed(e) => ClientSenderStep::Exit(Err(DtlsError::Io(e))),
    }
}

/// What the receiver loop does after one wait on the connection.
pub enum ClientRecverStep {
    /// Deliver this datagram to the inbound queue and keep listening.
    Deliver(Vec<u8>),
    /// Exit the loop with this terminal result.
    Exit(WorkerResult),
}

/// Decides the receiver loop's next move from the outcome of one transport
/// read: `Ok(n)` delivers exactly the first `n` buffer bytes, in order; any
/// transport error is terminal. The client receiver has no inactivity timer;
/// it waits until a record, an error, or the close signal.
pub fn client_recver_step(buf: &Vec<u8>, outcome: Result<usize, String>) -> (r: ClientRecverStep)
    requires
        outcome matches Ok(n) ==> n <= buf.len(),
    ensures
        outcome matches Ok(n) ==> (r matches ClientRecverStep::Deliver(d) && d@ == buf@.take(
            n as int,
        )),
        outcome matches Err(e) ==> (r matches ClientRecverStep::Exit(w) && w matches Err(err)
            && err matches DtlsError::Io(m) && m == e),
{
    match outcome {
        Ok(n) => ClientRecverStep::Deliver(crate::worker::take_record(buf, n)),
        Err(e) => ClientRecverStep::Exit(Err(DtlsError::Io(e))),
    }
}

/// Disconnecting twice has the same effect as disconnecting once.
pub proof fn lemma_client_disconnect_idempotent(v: ClientView)
    ensures
        v.disconnected().disconnected() == v.disconnected(),
{
}

/// After `disconnect` and one subsequent `health_check` that reaps both
/// workers, the client is closed.
pub proof fn lemma_client_disconnect_then_reap_closes(v: ClientView)
    requires
        v.is_running,
        v.has_send_handle,
        v.has_recv_handle,
    ensures
        v.disconnected().reaped(true, true).is_closed(),
{
}

} // verus!
