//! The connection registry: the server-side map from connection index to the
//! per-connection record (queue ends, worker handles, running flag), plus the
//! monotone index allocator.
//!
//! Indices start at 1 — 0 is reserved for the host's own use — grow strictly,
//! and are never reused within one registry's lifetime. A record exists from
//! the moment the accepter admits a peer until a health sweep finds both of
//! its workers gone.

use vstd::prelude::*;

use tokio::runtime::Runtime;
use tokio::sync::mpsc::UnboundedSender;
use tokio::task::JoinHandle;

use crate::chan;
use crate::error::{DtlsError, WorkerResult};
use crate::server::dtls_server::{ConnIndex, DtlsConnHealth, DtlsServerClose};

verus! {

/// Spec-level image of one connection record: which slots are occupied.
pub ghost struct ConnView {
    pub is_running: bool,
    pub has_recv_handle: bool,
    pub has_close_recv_tx: bool,
    pub has_send_handle: bool,
    pub has_send_tx: bool,
    pub has_close_send_tx: bool,
}

/// A fresh record: admitted, nothing wired yet.
pub open spec fn conn_fresh() -> ConnView {
    ConnView {
        is_running: false,
        has_recv_handle: false,
        has_close_recv_tx: false,
        has_send_handle: false,
        has_send_tx: false,
        has_close_send_tx: false,
    }
}

/// Record after its queues are installed and the connection is running.
pub open spec fn conn_installed(c: ConnView) -> ConnView {
    ConnView {
        is_running: true,
        has_close_recv_tx: true,
        has_send_tx: true,
        has_close_send_tx: true,
        ..c
    }
}

/// Record after its worker handles are attached.
pub open spec fn conn_attached(c: ConnView) -> ConnView {
    ConnView { has_recv_handle: true, has_send_handle: true, ..c }
}

/// Record after `disconnect`: close signals sent, foreground ends cleared.
pub open spec fn conn_cleared(c: ConnView) -> ConnView {
    ConnView { has_close_recv_tx: false, has_close_send_tx: false, has_send_tx: false, ..c }
}

/// Record after a health sweep reaped the given workers.
pub open spec fn conn_reaped(c: ConnView, reap_sender: bool, reap_recver: bool) -> ConnView {
    ConnView {
        has_send_handle: c.has_send_handle && !reap_sender,
        has_recv_handle: c.has_recv_handle && !reap_recver,
        ..c
    }
}

/// Whether a sweep that reaps the given workers finds the connection fully
/// closed: it was running and no handle is left afterwards.
pub open spec fn conn_closes(c: ConnView, reap_sender: bool, reap_recver: bool) -> bool {
    &&& c.is_running
    &&& !(c.has_send_handle && !reap_sender)
    &&& !(c.has_recv_handle && !reap_recver)
}

/// Spec-level image of the registry.
pub ghost struct RegistryView {
    pub max_clients: usize,
    pub next_index: u64,
    /// Admitted peers, in admission order.
    pub entries: Seq<(u64, ConnView)>,
}

impl RegistryView {
    /// Connection indices in admission order.
    pub open spec fn key_seq(self) -> Seq<u64> {
        self.entries.map_values(|e: (u64, ConnView)| e.0)
    }

    pub open spec fn contains_key(self, k: u64) -> bool {
        exists|i: int| 0 <= i < self.entries.len() && self.entries[i].0 == k
    }

    /// The position of index `k`; meaningful under `wf` when `contains_key`.
    pub open spec fn position_of(self, k: u64) -> int {
        choose|i: int| 0 <= i < self.entries.len() && self.entries[i].0 == k
    }

    /// The record registered under index `k`.
    pub open spec fn record_of(self, k: u64) -> ConnView {
        self.entries[self.position_of(k)].1
    }

    /// Well-formedness: at least one peer allowed, indices start at 1, every
    /// registered index was allocated below the counter, and no index occurs
    /// twice.
    pub open spec fn wf(self) -> bool {
        &&& self.max_clients >= 1
        &&& self.next_index >= 1
        &&& forall|i: int|
            0 <= i < self.entries.len() ==> 1 <= (#[trigger] self.entries[i]).0
                < self.next_index
        &&& forall|i: int, j: int|
            0 <= i < j < self.entries.len() ==> (#[trigger] self.entries[i]).0 != (
            #[trigger] self.entries[j]).0
    }

    /// Under `wf`, `position_of(k)` is the one position holding `k`.
    pub proof fn lemma_position(self, k: u64)
        requires
            self.wf(),
            self.contains_key(k),
        ensures
            0 <= self.position_of(k) < self.entries.len(),
            self.entries[self.position_of(k)].0 == k,
            forall|i: int|
                0 <= i < self.entries.len() && (#[trigger] self.entries[i]).0 == k ==> i
                    == self.position_of(k),
    {
        let p = self.position_of(k);
        assert(0 <= p < self.entries.len() && self.entries[p].0 == k);
        assert forall|i: int|
            0 <= i < self.entries.len() && (#[trigger] self.entries[i]).0 == k implies i
            == p by {
            if i < p {
                assert(self.entries[i].0 != self.entries[p].0);
            } else if p < i {
                assert(self.entries[p].0 != self.entries[i].0);
            }
        }
    }

    /// The accepter must reject the peer: the registry is at `max_clients`.
    pub open spec fn admit_full(self) -> bool {
        self.entries.len() >= self.max_clients
    }

    /// The accepter must terminate: the index space is exhausted.
    pub open spec fn admit_exhausted(self) -> bool {
        !self.admit_full() && self.next_index == u64::MAX
    }

    /// The registry after a successful admission.
    pub open spec fn spec_admit(self) -> RegistryView {
        if self.admit_full() || self.admit_exhausted() {
            self
        } else {
            RegistryView {
                next_index: (self.next_index + 1) as u64,
                entries: self.entries.push((self.next_index, conn_fresh())),
                ..self
            }
        }
    }

    /// The registry after `disconnect(k)`.
    pub open spec fn spec_disconnect(self, k: u64) -> RegistryView {
        if self.contains_key(k) {
            RegistryView {
                entries: self.entries.update(
                    self.position_of(k),
                    (k, conn_cleared(self.record_of(k))),
                ),
                ..self
            }
        } else {
            self
        }
    }

    /// The registry after `disconnect_all`.
    pub open spec fn spec_disconnect_all(self) -> RegistryView {
        RegistryView {
            entries: self.entries.map_values(|e: (u64, ConnView)| (e.0, conn_cleared(e.1))),
            ..self
        }
    }

    /// The registry after the queues of connection `k` were installed.
    pub open spec fn spec_install(self, k: u64) -> RegistryView {
        RegistryView {
            entries: self.entries.update(
                self.position_of(k),
                (k, conn_installed(self.record_of(k))),
            ),
            ..self
        }
    }

    /// The registry after the worker handles of connection `k` were attached.
    pub open spec fn spec_attach(self, k: u64) -> RegistryView {
        RegistryView {
            entries: self.entries.update(
                self.position_of(k),
                (k, conn_attached(self.record_of(k))),
            ),
            ..self
        }
    }

    /// The registry after a health sweep reaped the given workers of
    /// connection `k`: the record's handles are updated, and the record is
    /// removed entirely when the connection closed.
    pub open spec fn spec_reap(self, k: u64, reap_sender: bool, reap_recver: bool) -> RegistryView {
        let p = self.position_of(k);
        if conn_closes(self.record_of(k), reap_sender, reap_recver) {
            RegistryView { entries: self.entries.remove(p), ..self }
        } else {
            RegistryView {
                entries: self.entries.update(
                    p,
                    (k, conn_reaped(self.record_of(k), reap_sender, reap_recver)),
                ),
                ..self
            }
        }
    }

    /// Indices whose record currently holds a live send queue: the peers a
    /// broadcast reaches.
    pub open spec fn alive_targets(self) -> Seq<u64>
        decreases self.entries.len(),
    {
        if self.entries.len() == 0 {
            seq![]
        } else {
            let rest = RegistryView { entries: self.entries.drop_last(), ..self }.alive_targets();
            if self.entries.last().1.has_send_tx {
                rest.push(self.entries.last().0)
            } else {
                rest
            }
        }
    }
}

/// Replacing the record at `k` (keeping the key) preserves well-formedness,
/// membership, and every other record.
pub proof fn lemma_set_record(v: RegistryView, k: u64, c: ConnView)
    requires
        v.wf(),
        v.contains_key(k),
    ensures
        ({
            let v2 = RegistryView {
                entries: v.entries.update(v.position_of(k), (k, c)),
                ..v
            };
            &&& v2.wf()
            &&& v2.entries.len() == v.entries.len()
            &&& forall|k2: u64| v2.contains_key(k2) == v.contains_key(k2)
            &&& v2.record_of(k) == c
            &&& forall|k2: u64|
                k2 != k && v.contains_key(k2) ==> v2.record_of(k2) == v.record_of(k2)
            &&& v2.key_seq() == v.key_seq()
        }),
{
    v.lemma_position(k);
    let p = v.position_of(k);
    let v2 = RegistryView { entries: v.entries.update(p, (k, c)), ..v };
    assert(v2.key_seq() =~= v.key_seq());
    assert forall|k2: u64| v2.contains_key(k2) == v.contains_key(k2) by {
        if v.contains_key(k2) {
            let i = v.position_of(k2);
            assert(0 <= i < v.entries.len() && v.entries[i].0 == k2);
            assert(v2.entries[i].0 == k2);
            assert(v2.contains_key(k2));
        }
        if v2.contains_key(k2) {
            let i = v2.position_of(k2);
            assert(0 <= i < v2.entries.len() && v2.entries[i].0 == k2);
            assert(v.entries[i].0 == k2);
            assert(v.contains_key(k2));
        }
    }
    assert(v2.wf());
    v2.lemma_position(k);
    assert(v2.entries[p].0 == k);
    assert(v2.position_of(k) == p);
    assert(v2.record_of(k) == c);
    assert forall|k2: u64| k2 != k && v.contains_key(k2) implies v2.record_of(k2) == v.record_of(
        k2,
    ) by {
        v.lemma_position(k2);
        v2.lemma_position(k2);
        let i = v.position_of(k2);
        assert(i != p);
        assert(v2.entries[i].0 == k2);
        assert(v2.position_of(k2) == i);
    }
}

/// Removing the record at `k` preserves well-formedness and every other
/// record, and shrinks the registry by one.
pub proof fn lemma_remove_record(v: RegistryView, k: u64)
    requires
        v.wf(),
        v.contains_key(k),
    ensures
        ({
            let v2 = RegistryView { entries: v.entries.remove(v.position_of(k)), ..v };
            &&& v2.wf()
            &&& v2.entries.len() == v.entries.len() - 1
            &&& !v2.contains_key(k)
            &&& forall|k2: u64| k2 != k ==> v2.contains_key(k2) == v.contains_key(k2)
            &&& forall|k2: u64|
                k2 != k && v.contains_key(k2) ==> v2.record_of(k2) == v.record_of(k2)
        }),
{
    v.lemma_position(k);
    let p = v.position_of(k);
    let v2 = RegistryView { entries: v.entries.remove(p), ..v };
    assert forall|i: int| 0 <= i < v2.entries.len() implies 1 <= (
    #[trigger] v2.entries[i]).0 < v2.next_index && v2.entries[i].0 != k by {
        if i < p {
            assert(v2.entries[i] == v.entries[i]);
        } else {
            assert(v2.entries[i] == v.entries[i + 1]);
        }
    }
    assert forall|i: int, j: int| 0 <= i < j < v2.entries.len() implies (
    #[trigger] v2.entries[i]).0 != (#[trigger] v2.entries[j]).0 by {
        let i0 = if i < p { i } else { i + 1 };
        let j0 = if j < p { j } else { j + 1 };
        assert(v2.entries[i] == v.entries[i0]);
        assert(v2.entries[j] == v.entries[j0]);
        assert(v.entries[i0].0 != v.entries[j0].0);
    }
    assert(v2.wf());
    assert(!v2.contains_key(k)) by {
        if v2.contains_key(k) {
            let i = choose|i: int| 0 <= i < v2.entries.len() && v2.entries[i].0 == k;
            assert(v2.entries[i].0 != k);
        }
    }
    assert forall|k2: u64| k2 != k && v.contains_key(k2) implies v2.contains_key(k2) by {
        let i = v.position_of(k2);
        v.lemma_position(k2);
        if i < p {
            assert(v2.entries[i] == v.entries[i]);
            assert(v2.entries[i].0 == k2);
        } else {
            assert(i > p);
            assert(v2.entries[i - 1] == v.entries[i]);
            assert(v2.entries[i - 1].0 == k2);
        }
    }
    assert forall|k2: u64| k2 != k && v2.contains_key(k2) implies v.contains_key(k2) by {
        let i = v2.position_of(k2);
        assert(0 <= i < v2.entries.len() && v2.entries[i].0 == k2);
        if i < p {
            assert(v.entries[i].0 == k2);
        } else {
            assert(v.entries[i + 1].0 == k2);
        }
    }
    assert forall|k2: u64| k2 != k && v.contains_key(k2) implies v2.record_of(k2) == v.record_of(
        k2,
    ) by {
        v.lemma_position(k2);
        v2.lemma_position(k2);
        let i = v.position_of(k2);
        let i2 = v2.position_of(k2);
        if i < p {
            assert(v2.entries[i] == v.entries[i]);
            assert(v2.entries[i].0 == k2);
            assert(i2 == i);
        } else {
            assert(i > p);
            assert(v2.entries[i - 1] == v.entries[i]);
            assert(v2.entries[i - 1].0 == k2);
            assert(i2 == i - 1);
        }
    }
}

/// Whether the sweep report `r` mentions connection `k`.
pub open spec fn spec_reported(r: Seq<DtlsConnHealth>, k: u64) -> bool {
    exists|j: int| 0 <= j < r.len() && r[j].conn_index@ == k
}

/// One connection's record: the shared reference to the connection itself is
/// owned by its workers; the registry holds the queue ends and the handles.
pub(crate) struct DtlsConn {
    pub(crate) is_running: bool,
    pub(crate) recv_handle: Option<JoinHandle<WorkerResult>>,
    pub(crate) close_recv_tx: Option<UnboundedSender<DtlsServerClose>>,
    pub(crate) send_handle: Option<JoinHandle<WorkerResult>>,
    pub(crate) send_tx: Option<UnboundedSender<Vec<u8>>>,
    pub(crate) close_send_tx: Option<UnboundedSender<DtlsServerClose>>,
}

impl View for DtlsConn {
    type V = ConnView;

    closed spec fn view(&self) -> ConnView {
        ConnView {
            is_running: self.is_running,
            has_recv_handle: self.recv_handle is Some,
            has_close_recv_tx: self.close_recv_tx is Some,
            has_send_handle: self.send_handle is Some,
            has_send_tx: self.send_tx is Some,
            has_close_send_tx: self.close_send_tx is Some,
        }
    }
}

impl DtlsConn {
    pub(crate) fn new() -> (r: DtlsConn)
        ensures
            r@ == conn_fresh(),
    {
        DtlsConn {
            is_running: false,
            recv_handle: None,
            close_recv_tx: None,
            send_handle: None,
            send_tx: None,
            close_send_tx: None,
        }
    }
}

pub(crate) struct ConnEntry {
    pub(crate) index: u64,
    pub(crate) conn: DtlsConn,
}

/// The registry itself. Only the foreground facade and, during admission,
/// the accepter touch it; the unverified shell serializes them under one
/// reader/writer lock whose write sections never await.
pub(crate) struct ConnRegistry {
    max_clients: usize,
    next_index: u64,
    entries: Vec<ConnEntry>,
}

impl View for ConnRegistry {
    type V = RegistryView;

    closed spec fn view(&self) -> RegistryView {
        RegistryView {
            max_clients: self.max_clients,
            next_index: self.next_index,
            entries: self.entries@.map_values(|e: ConnEntry| (e.index, e.conn@)),
        }
    }
}

/// The accepter's decision about one freshly accepted peer.
pub enum AdmitOutcome {
    /// The peer is admitted under this index; its record is registered.
    Admitted(ConnIndex),
    /// The registry is at `max_clients`: the peer is to be closed, no index
    /// is consumed, and the accepter carries on.
    Full,
    /// The index space is exhausted: the peer is to be closed and the
    /// accepter terminates fatally.
    Exhausted,
}

impl ConnRegistry {
    pub(crate) fn new(max_clients: usize) -> (r: ConnRegistry)
        requires
            max_clients >= 1,
        ensures
            r@.wf(),
            r@.max_clients == max_clients,
            r@.next_index == 1,
            r@.entries.len() == 0,
    {
        ConnRegistry { max_clients, next_index: 1, entries: Vec::new() }
    }

    pub(crate) fn len(&self) -> (r: usize)
        ensures
            r == self@.entries.len(),
    {
        self.entries.len()
    }

    pub(crate) fn is_empty(&self) -> (r: bool)
        ensures
            r == (self@.entries.len() == 0),
    {
        self.entries.len() == 0
    }

    /// The position of `conn_index` in the entries, if registered.
    fn position(&self, conn_index: u64) -> (r: Option<usize>)
        ensures
            r matches Some(i) ==> (i < self@.entries.len() && self@.entries[i as int].0
                == conn_index),
            r is None ==> !self@.contains_key(conn_index),
    {
        let n = self.entries.len();
        let mut i: usize = 0;
        while i < n
            invariant
                i <= n,
                n == self@.entries.len(),
                forall|j: int| 0 <= j < i ==> (#[trigger] self@.entries[j]).0 != conn_index,
            decreases n - i,
        {
            if self.entries[i].index == conn_index {
                assert(self@.entries[i as int].0 == conn_index);
                return Some(i);
            }
            i = i + 1;
        }
        None
    }

    pub(crate) fn has_conn(&self, conn_index: u64) -> (r: bool)
        ensures
            r == self@.contains_key(conn_index),
    {
        self.position(conn_index).is_some()
    }

    /// All registered indices, in admission order.
    pub(crate) fn client_indices(&self) -> (r: Vec<u64>)
        ensures
            r@ == self@.key_seq(),
    {
        let n = self.entries.len();
        let mut ks: Vec<u64> = Vec::new();
        let mut i: usize = 0;
        while i < n
            invariant
                i <= n,
                n == self@.entries.len(),
                ks@ == self@.key_seq().take(i as int),
            decreases n - i,
        {
            ks.push(self.entries[i].index);
            proof {
                assert(ks@ =~= self@.key_seq().take(i + 1 as int));
            }
            i = i + 1;
        }
        proof {
            assert(ks@ =~= self@.key_seq());
        }
        ks
    }

    /// Admits one accepted peer: rejects it when the registry is full,
    /// terminates the accepter when the index space is exhausted, and
    /// otherwise registers a fresh record under the next index. Index 0 is
    /// never assigned and no index is ever assigned twice.
    pub(crate) fn admit_peer(&mut self) -> (r: AdmitOutcome)
        requires
            old(self)@.wf(),
        ensures
            final(self)@.wf(),
            final(self)@ == old(self)@.spec_admit(),
            r is Full <==> old(self)@.admit_full(),
            r is Exhausted <==> old(self)@.admit_exhausted(),
            r matches AdmitOutcome::Admitted(idx) ==> (idx@ == old(self)@.next_index && idx@ >= 1
                && !old(self)@.contains_key(idx@) && final(self)@.entries.len() == old(
                self,
            )@.entries.len() + 1),
    {
        if self.entries.len() >= self.max_clients {
            return AdmitOutcome::Full;
        }
        if self.next_index == u64::MAX {
            return AdmitOutcome::Exhausted;
        }
        let idx = self.next_index;
        proof {
            assert(!old(self)@.contains_key(idx));
        }
        self.next_index = self.next_index + 1;
        self.entries.push(ConnEntry { index: idx, conn: DtlsConn::new() });
        proof {
            assert(self@.entries =~= old(self)@.entries.push((idx, conn_fresh())));
        }
        AdmitOutcome::Admitted(ConnIndex::new(idx))
    }

    /// Signals both workers of connection `conn_index` to exit and clears the
    /// record's queue ends; the record stays until a health sweep removes it.
    /// Unknown indices are ignored.
    pub(crate) fn disconnect(&mut self, conn_index: u64)
        requires
            old(self)@.wf(),
        ensures
            final(self)@.wf(),
            final(self)@ == old(self)@.spec_disconnect(conn_index),
    {
        let pos = match self.position(conn_index) {
            None => {
                return ;
            },
            Some(i) => i,
        };
        proof {
            old(self)@.lemma_position(conn_index);
            assert(pos == old(self)@.position_of(conn_index));
        }
        let entry = vstd::std_specs::vec::vec_index_mut(&mut self.entries, pos);
        if let Some(tx) = &entry.conn.close_recv_tx {
            let _ = chan::channel_send(tx, DtlsServerClose);
        }
        entry.conn.close_recv_tx = None;
        if let Some(tx) = &entry.conn.close_send_tx {
            let _ = chan::channel_send(tx, DtlsServerClose);
        }
        entry.conn.close_send_tx = None;
        entry.conn.send_tx = None;
        proof {
            assert(self@.entries =~= old(self)@.spec_disconnect(conn_index).entries);
        }
    }

    /// Installs the queue ends of connection `conn_index` and marks it
    /// running; its worker handles are attached separately, after the shell
    /// spawned the loops.
    pub(crate) fn install_conn_pipes(
        &mut self,
        conn_index: u64,
        send_tx: UnboundedSender<Vec<u8>>,
        close_recv_tx: UnboundedSender<DtlsServerClose>,
        close_send_tx: UnboundedSender<DtlsServerClose>,
    ) -> (r: Result<(), DtlsError>)
        requires
            old(self)@.wf(),
        ensures
            final(self)@.wf(),
            !old(self)@.contains_key(conn_index) ==> (r matches Err(e) && e matches
                DtlsError::NoSuchConn(k) && k == conn_index && *final(self) == *old(self)),
            old(self)@.contains_key(conn_index) && (old(self)@.record_of(conn_index).has_recv_handle
                || old(self)@.record_of(conn_index).has_send_handle) ==> (r matches Err(e)
                && e matches DtlsError::AlreadyStarted(k) && k == conn_index && *final(self)
                == *old(self)),
            old(self)@.contains_key(conn_index) && !old(self)@.record_of(
                conn_index,
            ).has_recv_handle && !old(self)@.record_of(conn_index).has_send_handle ==> (r is Ok
                && final(self)@ == old(self)@.spec_install(conn_index)),
            r is Ok <==> (old(self)@.contains_key(conn_index) && !old(self)@.record_of(
                conn_index,
            ).has_recv_handle && !old(self)@.record_of(conn_index).has_send_handle),
    {
        let pos = match self.position(conn_index) {
            None => {
                return Err(DtlsError::NoSuchConn(conn_index));
            },
            Some(i) => i,
        };
        proof {
            old(self)@.lemma_position(conn_index);
            assert(pos == old(self)@.position_of(conn_index));
            assert(old(self)@.record_of(conn_index) == old(self)@.entries[pos as int].1);
        }
        if self.entries[pos].conn.recv_handle.is_some()
            || self.entries[pos].conn.send_handle.is_some() {
            return Err(DtlsError::AlreadyStarted(conn_index));
        }
        let entry = vstd::std_specs::vec::vec_index_mut(&mut self.entries, pos);
        entry.conn.send_tx = Some(send_tx);
        entry.conn.close_recv_tx = Some(close_recv_tx);
        entry.conn.close_send_tx = Some(close_send_tx);
        entry.conn.is_running = true;
        proof {
            assert(self@.entries =~= old(self)@.spec_install(conn_index).entries);
            lemma_set_record(
                old(self)@,
                conn_index,
                conn_installed(old(self)@.record_of(conn_index)),
            );
        }
        Ok(())
    }

    /// Attaches the join handles of connection `conn_index`'s freshly spawned
    /// workers.
    pub(crate) fn attach_conn_handles(
        &mut self,
        conn_index: u64,
        recv_handle: JoinHandle<WorkerResult>,
        send_handle: JoinHandle<WorkerResult>,
    ) -> (r: Result<(), DtlsError>)
        requires
            old(self)@.wf(),
        ensures
            final(self)@.wf(),
            !old(self)@.contains_key(conn_index) ==> (r matches Err(e) && e matches
                DtlsError::NoSuchConn(k) && k == conn_index && *final(self) == *old(self)),
            old(self)@.contains_key(conn_index) && (old(self)@.record_of(conn_index).has_recv_handle
                || old(self)@.record_of(conn_index).has_send_handle) ==> (r matches Err(e)
                && e matches DtlsError::AlreadyStarted(k) && k == conn_index && *final(self)
                == *old(self)),
            r is Ok <==> (old(self)@.contains_key(conn_index) && !old(self)@.record_of(
                conn_index,
            ).has_recv_handle && !old(self)@.record_of(conn_index).has_send_handle),
            r is Ok ==> final(self)@ == old(self)@.spec_attach(conn_index),
    {
        let pos = match self.position(conn_index) {
            None => {
                return Err(DtlsError::NoSuchConn(conn_index));
            },
            Some(i) => i,
        };
        proof {
            old(self)@.lemma_position(conn_index);
            assert(pos == old(self)@.position_of(conn_index));
            assert(old(self)@.record_of(conn_index) == old(self)@.entries[pos as int].1);
        }
        if self.entries[pos].conn.recv_handle.is_some()
            || self.entries[pos].conn.send_handle.is_some() {
            return Err(DtlsError::AlreadyStarted(conn_index));
        }
        let entry = vstd::std_specs::vec::vec_index_mut(&mut self.entries, pos);
        entry.conn.recv_handle = Some(recv_handle);
        entry.conn.send_handle = Some(send_handle);
        proof {
            assert(self@.entries =~= old(self)@.spec_attach(conn_index).entries);
            lemma_set_record(
                old(self)@,
                conn_index,
                conn_attached(old(self)@.record_of(conn_index)),
            );
        }
        Ok(())
    }

    /// Enqueues one datagram on connection `conn_index`'s send queue.
    pub(crate) fn send_to(&self, conn_index: u64, message: Vec<u8>) -> (r: Result<
        (),
        DtlsError,
    >)
        requires
            self@.wf(),
        ensures
            !self@.contains_key(conn_index) ==> r is Err,
            self@.contains_key(conn_index) && !self@.record_of(conn_index).has_send_tx ==> r
                is Err,
            r is Ok ==> (self@.contains_key(conn_index) && self@.record_of(
                conn_index,
            ).has_send_tx),
            r matches Err(e) ==> (e matches DtlsError::NoSuchConn(k) && k == conn_index),
    {
        let pos = match self.position(conn_index) {
            None => {
                return Err(DtlsError::NoSuchConn(conn_index));
            },
            Some(i) => i,
        };
        proof {
            self@.lemma_position(conn_index);
            assert(pos == self@.position_of(conn_index));
            assert(self@.record_of(conn_index) == self@.entries[pos as int].1);
        }
        match &self.entries[pos].conn.send_tx {
            None => Err(DtlsError::NoSuchConn(conn_index)),
            Some(tx) => match chan::channel_send(tx, message) {
                Ok(()) => Ok(()),
                Err(_) => Err(DtlsError::NoSuchConn(conn_index)),
            },
        }
    }

    /// Indices whose record currently holds a live send queue, in admission
    /// order: exactly the peers `broadcast` reaches. Peers whose sender is
    /// gone are skipped, never retried.
    pub(crate) fn alive_targets(&self) -> (r: Vec<u64>)
        ensures
            r@ == self@.alive_targets(),
    {
        let n = self.entries.len();
        let mut ts: Vec<u64> = Vec::new();
        let mut i: usize = 0;
        proof {
            assert(self@.entries.take(0) =~= Seq::<(u64, ConnView)>::empty());
        }
        while i < n
            invariant
                i <= n,
                n == self@.entries.len(),
                ts@ == (RegistryView { entries: self@.entries.take(i as int), ..self@
                }).alive_targets(),
            decreases n - i,
        {
            let has_sender = self.entries[i].conn.send_tx.is_some();
            if has_sender {
                ts.push(self.entries[i].index);
            }
            proof {
                let prefix = RegistryView { entries: self@.entries.take(i + 1 as int), ..self@ };
                assert(prefix.entries.drop_last() =~= self@.entries.take(i as int));
                assert(prefix.entries.last() == self@.entries[i as int]);
            }
            i = i + 1;
        }
        proof {
            assert(self@.entries.take(n as int) =~= self@.entries);
        }
        ts
    }

    /// Clones each live send queue one datagram: every peer whose sender is
    /// alive is handed the same bytes; the rest are skipped. Never fails.
    pub(crate) fn broadcast(&self, message: &Vec<u8>)
    {
        let n = self.entries.len();
        let mut i: usize = 0;
        while i < n
            invariant
                i <= n,
                n == self@.entries.len(),
            decreases n - i,
        {
            let copy = crate::worker::take_record(message, message.len());
            match &self.entries[i].conn.send_tx {
                None => {},
                Some(tx) => {
                    let _ = chan::channel_send(tx, copy);
                },
            }
            i = i + 1;
        }
    }

    /// Reaps the given finished workers of connection `conn_index`: consumes
    /// their handles, and removes the record entirely when the connection was
    /// running and no handle is left.
    fn reap_one(
        &mut self,
        rt: &Runtime,
        conn_index: u64,
        reap_sender: bool,
        reap_recver: bool,
    ) -> (h: DtlsConnHealth)
        requires
            old(self)@.wf(),
            old(self)@.contains_key(conn_index),
            reap_sender ==> old(self)@.record_of(conn_index).has_send_handle,
            reap_recver ==> old(self)@.record_of(conn_index).has_recv_handle,
        ensures
            final(self)@.wf(),
            final(self)@ == old(self)@.spec_reap(conn_index, reap_sender, reap_recver),
            h.conn_index@ == conn_index,
            h.sender is Some <==> reap_sender,
            h.recver is Some <==> reap_recver,
            h.closed == conn_closes(old(self)@.record_of(conn_index), reap_sender, reap_recver),
    {
        let pos = match self.position(conn_index) {
            None => {
                // unreachable: the caller owes a registered index
                proof {
                    assert(false);
                }
                0
            },
            Some(i) => i,
        };
        proof {
            old(self)@.lemma_position(conn_index);
            assert(pos == old(self)@.position_of(conn_index));
            assert(old(self)@.record_of(conn_index) == old(self)@.entries[pos as int].1);
        }
        let mut closed: bool;
        let mut sender_res: Option<WorkerResult> = None;
        let mut recver_res: Option<WorkerResult> = None;
        {
            let entry = vstd::std_specs::vec::vec_index_mut(&mut self.entries, pos);
            if reap_sender {
                let handle = entry.conn.send_handle.take().unwrap();
                sender_res = Some(
                    match chan::join_task(rt, handle) {
                        Ok(r) => r,
                        Err(msg) => Err(DtlsError::Io(msg)),
                    },
                );
            }
            if reap_recver {
                let handle = entry.conn.recv_handle.take().unwrap();
                recver_res = Some(
                    match chan::join_task(rt, handle) {
                        Ok(r) => r,
                        Err(msg) => Err(DtlsError::Io(msg)),
                    },
                );
            }
            closed = entry.conn.is_running && entry.conn.send_handle.is_none()
                && entry.conn.recv_handle.is_none();
        }
        proof {
            let reaped = conn_reaped(old(self)@.record_of(conn_index), reap_sender, reap_recver);
            assert(self@.entries =~= old(self)@.entries.update(pos as int, (conn_index, reaped)));
        }
        if closed {
            self.entries.remove(pos);
            proof {
                assert(self@.entries =~= old(self)@.entries.remove(pos as int));
                lemma_remove_record(old(self)@, conn_index);
            }
        } else {
            proof {
                lemma_set_record(
                    old(self)@,
                    conn_index,
                    conn_reaped(old(self)@.record_of(conn_index), reap_sender, reap_recver),
                );
            }
        }
        DtlsConnHealth { conn_index: ConnIndex::new(conn_index), sender: sender_res, recver: recver_res, closed }
    }

    /// Sweeps every registered connection: a connection with a finished
    /// worker gets that worker reaped and is reported; one whose workers are
    /// then all gone, and which was running, is removed and reported closed.
    /// Connections with no finished worker are untouched and not reported.
    pub(crate) fn health_sweep(&mut self, rt: &Runtime) -> (r: Vec<DtlsConnHealth>)
        requires
            old(self)@.wf(),
        ensures
            final(self)@.wf(),
            final(self)@.max_clients == old(self)@.max_clients,
            final(self)@.next_index == old(self)@.next_index,
            forall|j: int|
                0 <= j < r@.len() ==> old(self)@.contains_key((#[trigger] r@[j]).conn_index@),
            forall|j: int|
                0 <= j < r@.len() ==> ((#[trigger] r@[j]).sender is Some || r@[j].recver is Some),
            forall|j: int|
                0 <= j < r@.len() ==> ((#[trigger] r@[j]).sender is Some ==> old(self)@.record_of(r@[j].conn_index@).has_send_handle),
            forall|j: int|
                0 <= j < r@.len() ==> ((#[trigger] r@[j]).recver is Some ==> old(self)@.record_of(r@[j].conn_index@).has_recv_handle),
            forall|j: int|
                0 <= j < r@.len() ==> (#[trigger] r@[j]).closed == conn_closes(
                    old(self)@.record_of(r@[j].conn_index@),
                    r@[j].sender is Some,
                    r@[j].recver is Some,
                ),
            forall|j: int|
                0 <= j < r@.len() ==> ((#[trigger] r@[j]).closed ==> !final(self)@.contains_key(r@[j].conn_index@)),
            forall|j: int|
                0 <= j < r@.len() ==> (!(#[trigger] r@[j]).closed ==> final(self)@.contains_key(r@[j].conn_index@) && final(self)@.record_of(r@[j].conn_index@)
                    == conn_reaped(
                    old(self)@.record_of(r@[j].conn_index@),
                    r@[j].sender is Some,
                    r@[j].recver is Some,
                )),
            forall|j1: int, j2: int|
                0 <= j1 < j2 < r@.len() ==> (#[trigger] r@[j1]).conn_index@ != (
                #[trigger] r@[j2]).conn_index@,
            forall|k: u64|
                old(self)@.contains_key(k) && !spec_reported(r@, k) ==> (#[trigger] final(self)@.contains_key(k)) && final(self)@.record_of(k) == old(self)@.record_of(k),
            forall|k: u64| #[trigger] final(self)@.contains_key(k) ==> old(self)@.contains_key(k),
    {
        let ks = self.client_indices();
        let n = ks.len();
        let mut reports: Vec<DtlsConnHealth> = Vec::new();
        let mut m: usize = 0;
        proof {
            assert forall|mm: int| 0 <= mm < n implies old(self)@.contains_key(
                #[trigger] ks@[mm],
            ) by {
                assert(old(self)@.entries[mm].0 == ks@[mm]);
            }
            assert forall|m1: int, m2: int| 0 <= m1 < m2 < n implies #[trigger] ks@[m1]
                != #[trigger] ks@[m2] by {
                assert(old(self)@.entries[m1].0 != old(self)@.entries[m2].0);
            }
        }
        while m < n
            invariant
                m <= n,
                n == ks@.len(),
                old(self)@.wf(),
                self@.wf(),
                self@.max_clients == old(self)@.max_clients,
                self@.next_index == old(self)@.next_index,
                forall|mm: int| 0 <= mm < n ==> old(self)@.contains_key(#[trigger] ks@[mm]),
                forall|m1: int, m2: int|
                    0 <= m1 < m2 < n ==> #[trigger] ks@[m1] != #[trigger] ks@[m2],
                forall|mm: int|
                    m <= mm < n ==> self@.contains_key(#[trigger] ks@[mm]) && self@.record_of(
                        ks@[mm],
                    ) == old(self)@.record_of(ks@[mm]),
                forall|j: int|
                    0 <= j < reports@.len() ==> exists|mm: int|
                        0 <= mm < m && ks@[mm] == (#[trigger] reports@[j]).conn_index@,
                forall|j: int|
                    0 <= j < reports@.len() ==> old(self)@.contains_key(
                        (#[trigger] reports@[j]).conn_index@,
                    ),
                forall|j: int|
                    0 <= j < reports@.len() ==> ((#[trigger] reports@[j]).sender is Some
                        || reports@[j].recver is Some),
                forall|j: int|
                    0 <= j < reports@.len() ==> ((#[trigger] reports@[j]).sender is Some ==> old(self)@.record_of(reports@[j].conn_index@).has_send_handle),
                forall|j: int|
                    0 <= j < reports@.len() ==> ((#[trigger] reports@[j]).recver is Some ==> old(self)@.record_of(reports@[j].conn_index@).has_recv_handle),
                forall|j: int|
                    0 <= j < reports@.len() ==> (#[trigger] reports@[j]).closed == conn_closes(
                        old(self)@.record_of(reports@[j].conn_index@),
                        reports@[j].sender is Some,
                        reports@[j].recver is Some,
                    ),
                forall|j: int|
                    0 <= j < reports@.len() ==> ((#[trigger] reports@[j]).closed
                        ==> !self@.contains_key(reports@[j].conn_index@)),
                forall|j: int|
                    0 <= j < reports@.len() ==> (!(#[trigger] reports@[j]).closed
                        ==> self@.contains_key(reports@[j].conn_index@) && self@.record_of(
                        reports@[j].conn_index@,
                    ) == conn_reaped(
                        old(self)@.record_of(reports@[j].conn_index@),
                        reports@[j].sender is Some,
                        reports@[j].recver is Some,
                    )),
                forall|j1: int, j2: int|
                    0 <= j1 < j2 < reports@.len() ==> (#[trigger] reports@[j1]).conn_index@ != (
                    #[trigger] reports@[j2]).conn_index@,
                forall|mm: int|
                    0 <= mm < m && !spec_reported(reports@, #[trigger] ks@[mm])
                        ==> self@.contains_key(ks@[mm]) && self@.record_of(ks@[mm]) == old(self)@.record_of(ks@[mm]),
                forall|k: u64|
                    #[trigger] self@.contains_key(k) ==> old(self)@.contains_key(k),
            decreases n - m,
        {
            let kk = ks[m];
            let ghost pre = self@;
            let pos = match self.position(kk) {
                None => {
                    // unreachable: unprocessed keys are still registered
                    proof {
                        assert(false);
                    }
                    0
                },
                Some(i) => i,
            };
            proof {
                pre.lemma_position(kk);
                assert(pos == pre.position_of(kk));
                assert(pre.record_of(kk) == pre.entries[pos as int].1);
            }
            let sender_finished = match &self.entries[pos].conn.send_handle {
                Some(h) => chan::task_is_finished(h),
                None => false,
            };
            let recver_finished = match &self.entries[pos].conn.recv_handle {
                Some(h) => chan::task_is_finished(h),
                None => false,
            };
            if sender_finished || recver_finished {
                let h = self.reap_one(rt, kk, sender_finished, recver_finished);
                proof {
                    if conn_closes(pre.record_of(kk), sender_finished, recver_finished) {
                        lemma_remove_record(pre, kk);
                    } else {
                        lemma_set_record(
                            pre,
                            kk,
                            conn_reaped(pre.record_of(kk), sender_finished, recver_finished),
                        );
                    }
                }
                let ghost prev_reports = reports@;
                reports.push(h);
                proof {
                    assert forall|mm: int|
                        0 <= mm < m + 1 && !spec_reported(
                            reports@,
                            #[trigger] ks@[mm],
                        ) implies self@.contains_key(ks@[mm]) && self@.record_of(ks@[mm]) == old(
                        self,
                    )@.record_of(ks@[mm]) by {
                        if mm < m {
                            assert(!spec_reported(prev_reports, ks@[mm])) by {
                                if spec_reported(prev_reports, ks@[mm]) {
                                    let j = choose|j: int|
                                        0 <= j < prev_reports.len() && prev_reports[j].conn_index@
                                            == ks@[mm];
                                    assert(reports@[j].conn_index@ == ks@[mm]);
                                }
                            }
                            assert(pre.contains_key(ks@[mm]) && pre.record_of(ks@[mm]) == old(
                                self,
                            )@.record_of(ks@[mm]));
                            assert(ks@[mm] != ks@[m as int]);
                        } else {
                            assert(reports@[reports@.len() - 1].conn_index@ == ks@[mm]);
                        }
                    }
                    assert forall|j: int|
                        0 <= j < reports@.len() implies exists|mm: int|
                            0 <= mm < m + 1 && ks@[mm] == (#[trigger] reports@[j]).conn_index@ by {
                        if j < reports@.len() - 1 {
                            let mm = choose|mm: int|
                                0 <= mm < m && ks@[mm] == reports@[j].conn_index@;
                            assert(0 <= mm < m + 1 && ks@[mm] == reports@[j].conn_index@);
                        } else {
                            assert(ks@[m as int] == reports@[j].conn_index@);
                        }
                    }
                    assert forall|j1: int, j2: int|
                        0 <= j1 < j2 < reports@.len() implies (#[trigger] reports@[j1]).conn_index@
                        != (#[trigger] reports@[j2]).conn_index@ by {
                        if j2 == reports@.len() - 1 {
                            let mm = choose|mm: int|
                                0 <= mm < m && ks@[mm] == reports@[j1].conn_index@;
                            assert(ks@[mm] != ks@[m as int]);
                        }
                    }
                }
            }
            m = m + 1;
        }
        proof {
            assert forall|k: u64|
                old(self)@.contains_key(k) && !spec_reported(reports@, k) implies (
            #[trigger] self@.contains_key(k)) && self@.record_of(k) == old(self)@.record_of(k) by {
                old(self)@.lemma_position(k);
                let mm = old(self)@.position_of(k);
                assert(old(self)@.key_seq()[mm] == old(self)@.entries[mm].0);
                assert(ks@[mm] == k);
            }
        }
        reports
    }

    /// Disconnects every registered connection.
    pub(crate) fn disconnect_all(&mut self)
        requires
            old(self)@.wf(),
        ensures
            final(self)@.wf(),
            final(self)@ == old(self)@.spec_disconnect_all(),
    {
        let ks = self.client_indices();
        let n = ks.len();
        let mut i: usize = 0;
        while i < n
            invariant
                i <= n,
                self@.wf(),
                self@.max_clients == old(self)@.max_clients,
                self@.next_index == old(self)@.next_index,
                n == old(self)@.entries.len(),
                ks@ == old(self)@.key_seq(),
                self@.entries.len() == old(self)@.entries.len(),
                forall|j: int|
                    0 <= j < i ==> #[trigger] self@.entries[j] == (
                    old(self)@.entries[j].0,
                    conn_cleared(old(self)@.entries[j].1),
                ),
                forall|j: int|
                    i <= j < n ==> #[trigger] self@.entries[j] == old(self)@.entries[j],
            decreases n - i,
        {
            let ghost pre = self@;
            proof {
                assert(ks@[i as int] == old(self)@.key_seq()[i as int]);
                assert(old(self)@.key_seq()[i as int] == old(self)@.entries[i as int].0);
                assert(pre.entries[i as int] == old(self)@.entries[i as int]);
                assert(pre.entries[i as int].0 == ks@[i as int]);
                assert(pre.contains_key(ks@[i as int]));
                pre.lemma_position(ks@[i as int]);
                assert(pre.position_of(ks@[i as int]) == i as int);
            }
            self.disconnect(ks[i]);
            i = i + 1;
        }
        proof {
            assert(self@.entries =~= old(self)@.spec_disconnect_all().entries);
        }
    }
}

/// One abstract registry transition, as the facade's contracts state them.
pub ghost enum RegOp {
    /// A peer is offered to `admit_peer`.
    Admit,
    /// A `health_check` reaps the given workers of connection `k`.
    Reap { k: u64, reap_sender: bool, reap_recver: bool },
    /// `disconnect(k)`.
    Disconnect(u64),
}

pub open spec fn apply_op(v: RegistryView, op: RegOp) -> RegistryView {
    match op {
        RegOp::Admit => v.spec_admit(),
        RegOp::Reap { k, reap_sender, reap_recver } => if v.contains_key(k) {
            v.spec_reap(k, reap_sender, reap_recver)
        } else {
            v
        },
        RegOp::Disconnect(k) => v.spec_disconnect(k),
    }
}

pub open spec fn apply_ops(v: RegistryView, ops: Seq<RegOp>) -> RegistryView
    decreases ops.len(),
{
    if ops.len() == 0 {
        v
    } else {
        apply_ops(apply_op(v, ops[0]), ops.subrange(1, ops.len() as int))
    }
}

/// Whether this transition admits a peer from this state.
pub open spec fn op_admits(v: RegistryView, op: RegOp) -> bool {
    op is Admit && !v.admit_full() && !v.admit_exhausted()
}

/// Whether this transition removes a record from this state.
pub open spec fn op_removes(v: RegistryView, op: RegOp) -> bool {
    match op {
        RegOp::Reap { k, reap_sender, reap_recver } => v.contains_key(k) && conn_closes(
            v.record_of(k),
            reap_sender,
            reap_recver,
        ),
        _ => false,
    }
}

/// The indices a trace assigns, in order.
pub open spec fn admitted_along(v: RegistryView, ops: Seq<RegOp>) -> Seq<u64>
    decreases ops.len(),
{
    if ops.len() == 0 {
        seq![]
    } else {
        let rest = admitted_along(apply_op(v, ops[0]), ops.subrange(1, ops.len() as int));
        if op_admits(v, ops[0]) {
            seq![v.next_index] + rest
        } else {
            rest
        }
    }
}

/// How many records a trace removes.
pub open spec fn removed_along(v: RegistryView, ops: Seq<RegOp>) -> nat
    decreases ops.len(),
{
    if ops.len() == 0 {
        0
    } else {
        (if op_removes(v, ops[0]) {
            1nat
        } else {
            0nat
        }) + removed_along(apply_op(v, ops[0]), ops.subrange(1, ops.len() as int))
    }
}

/// Every single transition preserves well-formedness, never lowers the index
/// counter, bumps it exactly on an admission, and changes the number of
/// records exactly by the admissions and removals it makes.
pub proof fn lemma_apply_op(v: RegistryView, op: RegOp)
    requires
        v.wf(),
    ensures
        apply_op(v, op).wf(),
        apply_op(v, op).max_clients == v.max_clients,
        v.next_index <= apply_op(v, op).next_index,
        op_admits(v, op) ==> apply_op(v, op).next_index == v.next_index + 1,
        !op_admits(v, op) ==> apply_op(v, op).next_index == v.next_index,
        apply_op(v, op).entries.len() as int == v.entries.len() as int + (if op_admits(v, op) {
            1int
        } else {
            0int
        }) - (if op_removes(v, op) {
            1int
        } else {
            0int
        }),
{
    match op {
        RegOp::Admit => {
            if op_admits(v, op) {
                let v2 = v.spec_admit();
                assert forall|i: int, j: int| 0 <= i < j < v2.entries.len() implies (
                #[trigger] v2.entries[i]).0 != (#[trigger] v2.entries[j]).0 by {
                    if j == v2.entries.len() - 1 {
                        assert(v2.entries[i] == v.entries[i]);
                        assert(v.entries[i].0 < v.next_index);
                    }
                }
                assert(v2.wf());
            }
        },
        RegOp::Reap { k, reap_sender, reap_recver } => {
            if v.contains_key(k) {
                v.lemma_position(k);
                if conn_closes(v.record_of(k), reap_sender, reap_recver) {
                    lemma_remove_record(v, k);
                } else {
                    lemma_set_record(v, k, conn_reaped(v.record_of(k), reap_sender, reap_recver));
                }
            }
        },
        RegOp::Disconnect(k) => {
            if v.contains_key(k) {
                v.lemma_position(k);
                lemma_set_record(v, k, conn_cleared(v.record_of(k)));
            }
        },
    }
}

/// Indices are assigned strictly increasing, are never 0, and each is fresh
/// at its assignment: no index is ever reused.
pub proof fn lemma_admitted_indices(v: RegistryView, ops: Seq<RegOp>)
    requires
        v.wf(),
    ensures
        forall|i: int|
            0 <= i < admitted_along(v, ops).len() ==> v.next_index <= #[trigger] admitted_along(
                v,
                ops,
            )[i],
        forall|i: int|
            0 <= i < admitted_along(v, ops).len() ==> #[trigger] admitted_along(v, ops)[i] >= 1,
        forall|i: int, j: int|
            0 <= i < j < admitted_along(v, ops).len() ==> #[trigger] admitted_along(v, ops)[i] < (
            #[trigger] admitted_along(v, ops)[j]),
    decreases ops.len(),
{
    if ops.len() > 0 {
        lemma_apply_op(v, ops[0]);
        let v1 = apply_op(v, ops[0]);
        let rest = admitted_along(v1, ops.subrange(1, ops.len() as int));
        lemma_admitted_indices(v1, ops.subrange(1, ops.len() as int));
        let adm = admitted_along(v, ops);
        if op_admits(v, ops[0]) {
            assert(adm == seq![v.next_index] + rest);
            assert(adm[0] == v.next_index);
            assert forall|i: int| 1 <= i < adm.len() implies adm[i] == rest[i - 1] by {}
            assert forall|i: int, j: int| 0 <= i < j < adm.len() implies #[trigger] adm[i] < (
            #[trigger] adm[j]) by {
                if i == 0 {
                    assert(adm[j] == rest[j - 1]);
                    assert(rest[j - 1] >= v1.next_index);
                    assert(v1.next_index == v.next_index + 1);
                } else {
                    assert(adm[i] == rest[i - 1] && adm[j] == rest[j - 1]);
                }
            }
        }
    }
}

/// Count bookkeeping: the records registered after a trace are those before
/// it, plus the peers it admitted, minus the records it removed.
pub proof fn lemma_registry_len_counts(v: RegistryView, ops: Seq<RegOp>)
    requires
        v.wf(),
    ensures
        apply_ops(v, ops).entries.len() as int == v.entries.len() as int + admitted_along(
            v,
            ops,
        ).len() as int - removed_along(v, ops) as int,
    decreases ops.len(),
{
    if ops.len() > 0 {
        lemma_apply_op(v, ops[0]);
        lemma_registry_len_counts(apply_op(v, ops[0]), ops.subrange(1, ops.len() as int));
    }
}

} // verus!
