//! Per-frame event adapter of the server: drains the timeout queue and the
//! worker health and maps them to user-visible events. The adapter never
//! modifies transport state beyond the drain itself; it is purely a reporter.

use vstd::prelude::*;

use crate::error::{DtlsError, WorkerResult};
use crate::server::dtls_server::{
    DtlsConnHealth, DtlsServer, DtlsServerHealth, DtlsServerTimeout,
};

verus! {

/// User-visible events of the server.
pub enum DtlsServerEvent {
    /// A datagram's send deadline elapsed; carries back the exact bytes.
    SendTimeout { conn_index: u64, bytes: Vec<u8> },
    /// Nothing arrived on this connection within the inactivity timeout.
    RecvTimeout { conn_index: u64 },
    /// The accepter finished with a fatal error.
    Error { err: DtlsError },
    /// One connection's worker finished with a fatal error.
    ConnError { conn_index: u64, err: DtlsError },
    /// Both workers of this connection are gone; its record was removed.
    ConnClosed { conn_index: u64 },
    /// The accepter finished; the listener is closed.
    ListenerClosed,
}

/// The event a single soft timeout maps to.
pub fn event_of_timeout(t: DtlsServerTimeout) -> (ev: DtlsServerEvent)
    ensures
        t matches DtlsServerTimeout::Send { conn_index, bytes } ==> (ev matches
            DtlsServerEvent::SendTimeout { conn_index: ci, bytes: b } && ci == conn_index@ && b
            == bytes),
        t matches DtlsServerTimeout::Recv(conn_index) ==> (ev matches
            DtlsServerEvent::RecvTimeout { conn_index: ci } && ci == conn_index@),
{
    match t {
        DtlsServerTimeout::Send { conn_index, bytes } => DtlsServerEvent::SendTimeout {
            conn_index: conn_index.index(),
            bytes,
        },
        DtlsServerTimeout::Recv(conn_index) => DtlsServerEvent::RecvTimeout {
            conn_index: conn_index.index(),
        },
    }
}

/// The events the accepter's terminal result maps to: its error first — so
/// observers can correlate cause and finality — then the closed notice.
pub open spec fn spec_listener_events(l: Option<WorkerResult>) -> Seq<DtlsServerEvent> {
    match l {
        None => seq![],
        Some(Ok(())) => seq![DtlsServerEvent::ListenerClosed],
        Some(Err(e)) => seq![
            DtlsServerEvent::Error { err: e },
            DtlsServerEvent::ListenerClosed,
        ],
    }
}

/// The events one connection's health maps to: an error per failed worker,
/// then — last — the closed notice.
pub open spec fn spec_conn_events(ch: DtlsConnHealth) -> Seq<DtlsServerEvent> {
    let sender_evs: Seq<DtlsServerEvent> = match ch.sender {
        Some(Err(e)) => seq![
            DtlsServerEvent::ConnError { conn_index: ch.conn_index@, err: e },
        ],
        _ => seq![],
    };
    let recver_evs: Seq<DtlsServerEvent> = match ch.recver {
        Some(Err(e)) => seq![
            DtlsServerEvent::ConnError { conn_index: ch.conn_index@, err: e },
        ],
        _ => seq![],
    };
    let closed_evs: Seq<DtlsServerEvent> = if ch.closed {
        seq![DtlsServerEvent::ConnClosed { conn_index: ch.conn_index@ }]
    } else {
        seq![]
    };
    sender_evs + recver_evs + closed_evs
}

pub open spec fn spec_conns_events(cs: Seq<DtlsConnHealth>) -> Seq<DtlsServerEvent>
    decreases cs.len(),
{
    if cs.len() == 0 {
        seq![]
    } else {
        spec_conns_events(cs.drop_last()) + spec_conn_events(cs.last())
    }
}

/// The events one health report maps to: the accepter's first, then each
/// connection's, in registry order.
pub open spec fn spec_health_events(
    listener: Option<WorkerResult>,
    conns: Seq<DtlsConnHealth>,
) -> Seq<DtlsServerEvent> {
    spec_listener_events(listener) + spec_conns_events(conns)
}

/// Maps one health report to events.
pub fn events_of_health(h: DtlsServerHealth) -> (evs: Vec<DtlsServerEvent>)
    ensures
        evs@ == spec_health_events(h.listener, h.conns@),
{
    let DtlsServerHealth { listener, conns } = h;
    let ghost orig = conns@;
    let ghost listener0 = listener;
    let mut evs: Vec<DtlsServerEvent> = Vec::new();
    match listener {
        None => {},
        Some(Ok(())) => {
            evs.push(DtlsServerEvent::ListenerClosed);
        },
        Some(Err(e)) => {
            evs.push(DtlsServerEvent::Error { err: e });
            evs.push(DtlsServerEvent::ListenerClosed);
        },
    }
    proof {
        assert(evs@ =~= spec_listener_events(listener0));
        assert(orig.take(0) =~= Seq::<DtlsConnHealth>::empty());
    }
    let mut cs = conns;
    let total: usize = cs.len();
    let mut done: usize = 0;
    while cs.len() > 0
        invariant
            total == orig.len(),
            done + cs@.len() == orig.len(),
            cs@ == orig.skip(done as int),
            evs@ == spec_listener_events(listener0) + spec_conns_events(orig.take(done as int)),
        decreases cs@.len(),
    {
        let ch = cs.remove(0);
        proof {
            assert(ch == orig[done as int]);
            assert(cs@ =~= orig.skip(done + 1 as int));
        }
        let DtlsConnHealth { conn_index, sender, recver, closed } = ch;
        if let Some(Err(e)) = sender {
            evs.push(DtlsServerEvent::ConnError { conn_index: conn_index.index(), err: e });
        }
        if let Some(Err(e)) = recver {
            evs.push(DtlsServerEvent::ConnError { conn_index: conn_index.index(), err: e });
        }
        if closed {
            evs.push(DtlsServerEvent::ConnClosed { conn_index: conn_index.index() });
        }
        proof {
            assert(orig.take(done + 1 as int).drop_last() =~= orig.take(done as int));
            assert(orig.take(done + 1 as int).last() == ch);
            assert(evs@ =~= spec_listener_events(listener0) + spec_conns_events(
                orig.take(done + 1 as int),
            ));
        }
        done = done + 1;
    }
    proof {
        assert(orig.take(done as int) =~= orig);
    }
    evs
}

/// Drains up to `limit` pending soft timeouts into events. Every event is a
/// send or receive timeout.
pub fn timeout_event_system(dtls_server: &mut DtlsServer, limit: usize) -> (evs: Vec<
    DtlsServerEvent,
>)
    ensures
        final(dtls_server)@ == old(dtls_server)@,
        evs@.len() <= limit,
        forall|i: int|
            0 <= i < evs@.len() ==> ((#[trigger] evs@[i]) is SendTimeout || evs@[i] is RecvTimeout),
{
    let mut evs: Vec<DtlsServerEvent> = Vec::new();
    let mut budget: usize = limit;
    while budget > 0
        invariant
            dtls_server@ == old(dtls_server)@,
            evs@.len() + budget <= limit,
            forall|i: int|
                0 <= i < evs@.len() ==> ((#[trigger] evs@[i]) is SendTimeout
                    || evs@[i] is RecvTimeout),
        decreases budget,
    {
        let t = match dtls_server.timeout_check() {
            Ok(()) => break,
            Err(t) => t,
        };
        evs.push(event_of_timeout(t));
        budget = budget - 1;
    }
    evs
}

/// Runs one health check and maps its outcome to events: the accepter's
/// first, then — per connection — each fatal worker error followed by the
/// connection's closed notice, so observers can correlate cause and
/// finality. The events are exactly the image of one health report, and the
/// server changes only as that report says.
pub fn health_event_system(dtls_server: &mut DtlsServer) -> (evs: Vec<DtlsServerEvent>)
    requires
        old(dtls_server)@.inv(),
    ensures
        final(dtls_server)@.inv(),
        exists|h: DtlsServerHealth|
            {
                &&& evs@ == spec_health_events(h.listener, h.conns@)
                &&& final(dtls_server)@ == old(dtls_server)@.acpt_reaped(
                    h.listener is Some,
                ).with_registry(final(dtls_server)@.registry)
                &&& (h.listener is Some ==> old(dtls_server)@.has_acpt_handle)
            },
{
    let health = dtls_server.health_check();
    let ghost gh = health;
    let evs = events_of_health(health);
    proof {
        assert(evs@ == spec_health_events(gh.listener, gh.conns@));
        assert(dtls_server@ == old(dtls_server)@.acpt_reaped(gh.listener is Some).with_registry(
            dtls_server@.registry,
        ));
    }
    evs
}

} // verus!
