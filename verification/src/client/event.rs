//! Per-frame event adapter of the client: drains the timeout queue and the
//! worker health and maps them to user-visible events. The adapter never
//! modifies transport state beyond the drain itself; it is purely a reporter.

use vstd::prelude::*;

use crate::client::dtls_client::{DtlsClient, DtlsClientHealth, DtlsClientTimeout};
use crate::error::DtlsError;

verus! {

/// User-visible events of the client.
pub enum DtlsClientEvent {
    /// A datagram's send deadline elapsed; carries back the exact bytes.
    SendTimeout { bytes: Vec<u8> },
    /// A worker finished with a fatal error.
    Error { err: DtlsError },
    /// Both workers are gone; the connection is fully closed.
    ConnClosed,
}

/// The event a single soft timeout maps to.
pub fn event_of_timeout(t: DtlsClientTimeout) -> (ev: DtlsClientEvent)
    ensures
        t matches DtlsClientTimeout::Send(b) ==> (ev matches DtlsClientEvent::SendTimeout {
            bytes,
        } && bytes == b),
{
    match t {
        DtlsClientTimeout::Send(bytes) => DtlsClientEvent::SendTimeout { bytes },
    }
}

/// The events one health report maps to: an error event per failed worker,
/// then — last, so observers can correlate cause and finality — the closed
/// event.
pub open spec fn spec_health_events(h: DtlsClientHealth) -> Seq<DtlsClientEvent> {
    let sender_evs: Seq<DtlsClientEvent> = match h.sender {
        Some(Err(e)) => seq![DtlsClientEvent::Error { err: e }],
        _ => seq![],
    };
    let recver_evs: Seq<DtlsClientEvent> = match h.recver {
        Some(Err(e)) => seq![DtlsClientEvent::Error { err: e }],
        _ => seq![],
    };
    let closed_evs: Seq<DtlsClientEvent> = if h.closed {
        seq![DtlsClientEvent::ConnClosed]
    } else {
        seq![]
    };
    sender_evs + recver_evs + closed_evs
}

/// Maps one health report to events, the errors first and the closed event
/// last.
pub fn events_of_health(h: DtlsClientHealth) -> (evs: Vec<DtlsClientEvent>)
    ensures
        evs@ == spec_health_events(h),
{
    let DtlsClientHealth { sender, recver, closed } = h;
    let mut evs: Vec<DtlsClientEvent> = Vec::new();
    if let Some(Err(e)) = sender {
        evs.push(DtlsClientEvent::Error { err: e });
    }
    if let Some(Err(e)) = recver {
        evs.push(DtlsClientEvent::Error { err: e });
    }
    if closed {
        evs.push(DtlsClientEvent::ConnClosed);
    }
    proof {
        assert(evs@ =~= spec_health_events(h));
    }
    evs
}

/// Drains up to `limit` pending soft timeouts into events. Every event is a
/// send timeout carrying the original bytes.
pub fn timeout_event_system(dtls_client: &mut DtlsClient, limit: usize) -> (evs: Vec<
    DtlsClientEvent,
>)
    ensures
        final(dtls_client)@ == old(dtls_client)@,
        evs@.len() <= limit,
        forall|i: int| 0 <= i < evs@.len() ==> evs@[i] is SendTimeout,
{
    let mut evs: Vec<DtlsClientEvent> = Vec::new();
    let mut budget: usize = limit;
    while budget > 0
        invariant
            dtls_client@ == old(dtls_client)@,
            evs@.len() + budget <= limit,
            forall|i: int| 0 <= i < evs@.len() ==> evs@[i] is SendTimeout,
        decreases budget,
    {
        let t = match dtls_client.timeout_check() {
            Ok(()) => break,
            Err(t) => t,
        };
        evs.push(event_of_timeout(t));
        budget = budget - 1;
    }
    evs
}

/// Runs one health check and maps its outcome to events: per-worker fatal
/// errors first, then the closed event, so observers can correlate cause and
/// finality. The events are exactly the image of one health report, and the
/// client changes only as that report says.
pub fn health_event_system(dtls_client: &mut DtlsClient) -> (evs: Vec<DtlsClientEvent>)
    ensures
        exists|h: DtlsClientHealth|
            {
                &&& evs@ == spec_health_events(h)
                &&& final(dtls_client)@ == old(dtls_client)@.reaped(
                    h.sender is Some,
                    h.recver is Some,
                )
                &&& h.closed == old(dtls_client)@.reap_closes(h.sender is Some, h.recver is Some)
                &&& (h.sender is Some ==> old(dtls_client)@.has_send_handle)
                &&& (h.recver is Some ==> old(dtls_client)@.has_recv_handle)
            },
        forall|i: int, j: int|
            0 <= i < evs@.len() && 0 <= j < evs@.len() && evs@[i] is ConnClosed
                && evs@[j] is Error ==> j < i,
{
    let health = dtls_client.health_check();
    let ghost gh = health;
    let evs = events_of_health(health);
    proof {
        assert(evs@ == spec_health_events(gh));
        assert(dtls_client@ == old(dtls_client)@.reaped(gh.sender is Some, gh.recver is Some));
    }
    evs
}

} // verus!
