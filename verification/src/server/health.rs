//! Error-flavoured event adapter of the server: like the event adapter, but
//! surfacing timeouts and worker failures as error values, with a separate
//! closed notice for the listener.

use vstd::prelude::*;

use crate::error::{DtlsError, WorkerResult};
use crate::server::dtls_server::{
    ConnIndex, DtlsConnHealth, DtlsServer, DtlsServerHealth, DtlsServerTimeout,
};

verus! {

/// Error-style reports of the server.
pub enum DtlsServerError {
    /// A datagram's send deadline elapsed; carries back the exact bytes.
    SendTimeout { conn_index: ConnIndex, bytes: Vec<u8> },
    /// Nothing arrived on this connection within the inactivity timeout.
    RecvTimeout { conn_index: ConnIndex },
    /// The accepter finished with a fatal error.
    Error { err: DtlsError },
    /// One connection's worker finished with a fatal error.
    ConnError { conn_index: ConnIndex, err: DtlsError },
}

/// Notice that the accepter finished and the listener is closed.
pub struct DtlsServerClosed;

/// The report a single soft timeout maps to.
pub fn error_of_timeout(t: DtlsServerTimeout) -> (ev: DtlsServerError)
    ensures
        t matches DtlsServerTimeout::Send { conn_index, bytes } ==> (ev matches
            DtlsServerError::SendTimeout { conn_index: ci, bytes: b } && ci == conn_index && b
            == bytes),
        t matches DtlsServerTimeout::Recv(conn_index) ==> (ev matches
            DtlsServerError::RecvTimeout { conn_index: ci } && ci == conn_index),
{
    match t {
        DtlsServerTimeout::Send { conn_index, bytes } => DtlsServerError::SendTimeout {
            conn_index,
            bytes,
        },
        DtlsServerTimeout::Recv(conn_index) => DtlsServerError::RecvTimeout { conn_index },
    }
}

/// The error reports one connection's health maps to: one per failed worker,
/// sender first.
pub open spec fn spec_conn_errors(ch: DtlsConnHealth) -> Seq<DtlsServerError> {
    let sender_evs: Seq<DtlsServerError> = match ch.sender {
        Some(Err(e)) => seq![
            DtlsServerError::ConnError { conn_index: ch.conn_index, err: e },
        ],
        _ => seq![],
    };
    let recver_evs: Seq<DtlsServerError> = match ch.recver {
        Some(Err(e)) => seq![
            DtlsServerError::ConnError { conn_index: ch.conn_index, err: e },
        ],
        _ => seq![],
    };
    sender_evs + recver_evs
}

pub open spec fn spec_conns_errors(cs: Seq<DtlsConnHealth>) -> Seq<DtlsServerError>
    decreases cs.len(),
{
    if cs.len() == 0 {
        seq![]
    } else {
        spec_conns_errors(cs.drop_last()) + spec_conn_errors(cs.last())
    }
}

/// The error reports one health report maps to: the accepter's fatal error
/// first, if any, then each connection's.
pub open spec fn spec_health_errors(
    listener: Option<WorkerResult>,
    cs: Seq<DtlsConnHealth>,
) -> Seq<DtlsServerError> {
    (match listener {
        Some(Err(e)) => seq![DtlsServerError::Error { err: e }],
        _ => seq![],
    }) + spec_conns_errors(cs)
}

/// Maps one health report to error reports, and tells whether the listener
/// closed.
pub fn errors_of_health(h: DtlsServerHealth) -> (r: (Vec<DtlsServerError>, Option<
    DtlsServerClosed,
>))
    ensures
        r.0@ == spec_health_errors(h.listener, h.conns@),
        r.1 is Some <==> h.listener is Some,
{
    let DtlsServerHealth { listener, conns } = h;
    let ghost orig = conns@;
    let ghost listener0 = listener;
    let mut evs: Vec<DtlsServerError> = Vec::new();
    let closed: Option<DtlsServerClosed> = match listener {
        None => None,
        Some(Ok(())) => Some(DtlsServerClosed),
        Some(Err(e)) => {
            evs.push(DtlsServerError::Error { err: e });
            Some(DtlsServerClosed)
        },
    };
    proof {
        assert(evs@ =~= (match listener0 {
            Some(Err(e)) => seq![DtlsServerError::Error { err: e }],
            _ => Seq::<DtlsServerError>::empty(),
        }));
        assert(orig.take(0) =~= Seq::<DtlsConnHealth>::empty());
    }
    let mut cs = conns;
    let total: usize = cs.len();
    let mut done: usize = 0;
    while cs.len() > 0
        invariant
            total == orig.len(),
            done + cs@.len() == orig.len(),
            cs@ == orig.skip(done as int),
            evs@ == spec_health_errors(listener0, orig.take(done as int)),
        decreases cs@.len(),
    {
        let ch = cs.remove(0);
        proof {
            assert(ch == orig[done as int]);
            assert(cs@ =~= orig.skip(done + 1 as int));
        }
        let DtlsConnHealth { conn_index, sender, recver, closed: _ } = ch;
        if let Some(Err(e)) = sender {
            evs.push(DtlsServerError::ConnError { conn_index, err: e });
        }
        if let Some(Err(e)) = recver {
            evs.push(DtlsServerError::ConnError { conn_index, err: e });
        }
        proof {
            assert(orig.take(done + 1 as int).drop_last() =~= orig.take(done as int));
            assert(orig.take(done + 1 as int).last() == ch);
            assert(evs@ =~= spec_health_errors(listener0, orig.take(done + 1 as int)));
        }
        done = done + 1;
    }
    proof {
        assert(orig.take(done as int) =~= orig);
    }
    (evs, closed)
}

/// Drains up to `limit` pending soft timeouts into error reports.
pub fn timeout_event_system(dtls_server: &mut DtlsServer, limit: usize) -> (evs: Vec<
    DtlsServerError,
>)
    ensures
        final(dtls_server)@ == old(dtls_server)@,
        evs@.len() <= limit,
        forall|i: int|
            0 <= i < evs@.len() ==> ((#[trigger] evs@[i]) is SendTimeout || evs@[i] is RecvTimeout),
{
    let mut evs: Vec<DtlsServerError> = Vec::new();
    let mut budget: usize = limit;
    while budget > 0
        invariant
            dtls_server@ == old(dtls_server)@,
            evs@.len() + budget <= limit,
            forall|i: int|
                0 <= i < evs@.len() ==> ((#[trigger] evs@[i]) is SendTimeout
                    || evs@[i] is RecvTimeout),
        decreases budget,
    {
        let t = match dtls_server.timeout_check() {
            Ok(()) => break,
            Err(t) => t,
        };
        evs.push(error_of_timeout(t));
        budget = budget - 1;
    }
    evs
}

/// Runs one health check and reports each fatal worker result, together with
/// a closed notice when the accepter finished. The reports are exactly the
/// image of one health report, and the server changes only as that report
/// says.
pub fn fatal_event_system(dtls_server: &mut DtlsServer) -> (r: (Vec<DtlsServerError>, Option<
    DtlsServerClosed,
>))
    requires
        old(dtls_server)@.inv(),
    ensures
        final(dtls_server)@.inv(),
        r.1 is Some ==> old(dtls_server)@.has_acpt_handle,
        exists|h: DtlsServerHealth|
            {
                &&& r.0@ == spec_health_errors(h.listener, h.conns@)
                &&& (r.1 is Some <==> h.listener is Some)
                &&& final(dtls_server)@ == old(dtls_server)@.acpt_reaped(
                    h.listener is Some,
                ).with_registry(final(dtls_server)@.registry)
            },
{
    let health = dtls_server.health_check();
    let ghost gh = health;
    let r = errors_of_health(health);
    proof {
        assert(r.0@ == spec_health_errors(gh.listener, gh.conns@));
        assert(dtls_server@ == old(dtls_server)@.acpt_reaped(gh.listener is Some).with_registry(
            dtls_server@.registry,
        ));
    }
    r
}

} // verus!
