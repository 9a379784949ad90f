//! Error-flavoured event adapter of the client: like the event adapter, but
//! surfacing timeouts and worker failures as error values only, without a
//! closed notification.

use vstd::prelude::*;

use crate::client::dtls_client::{DtlsClient, DtlsClientHealth, DtlsClientTimeout};
use crate::error::DtlsError;

verus! {

/// Error-style reports of the client.
pub enum DtlsClientError {
    /// A datagram's send deadline elapsed; carries back the exact bytes.
    SendTimeout { bytes: Vec<u8> },
    /// A worker finished with a fatal error.
    Fatal { err: DtlsError },
}

/// The report a single soft timeout maps to.
pub fn error_of_timeout(t: DtlsClientTimeout) -> (ev: DtlsClientError)
    ensures
        t matches DtlsClientTimeout::Send(b) ==> (ev matches DtlsClientError::SendTimeout {
            bytes,
        } && bytes == b),
{
    match t {
        DtlsClientTimeout::Send(bytes) => DtlsClientError::SendTimeout { bytes },
    }
}

/// The reports one health check maps to: one fatal report per failed worker,
/// sender first.
pub open spec fn spec_health_errors(h: DtlsClientHealth) -> Seq<DtlsClientError> {
    let sender_evs: Seq<DtlsClientError> = match h.sender {
        Some(Err(e)) => seq![DtlsClientError::Fatal { err: e }],
        _ => seq![],
    };
    let recver_evs: Seq<DtlsClientError> = match h.recver {
        Some(Err(e)) => seq![DtlsClientError::Fatal { err: e }],
        _ => seq![],
    };
    sender_evs + recver_evs
}

/// Maps one health report to error reports.
pub fn errors_of_health(h: DtlsClientHealth) -> (evs: Vec<DtlsClientError>)
    ensures
        evs@ == spec_health_errors(h),
{
    let DtlsClientHealth { sender, recver, closed: _ } = h;
    let mut evs: Vec<DtlsClientError> = Vec::new();
    if let Some(Err(e)) = sender {
        evs.push(DtlsClientError::Fatal { err: e });
    }
    if let Some(Err(e)) = recver {
        evs.push(DtlsClientError::Fatal { err: e });
    }
    proof {
        assert(evs@ =~= spec_health_errors(h));
    }
    evs
}

/// Drains up to `limit` pending soft timeouts into error reports.
pub fn timeout_event_system(dtls_client: &mut DtlsClient, limit: usize) -> (evs: Vec<
    DtlsClientError,
>)
    ensures
        final(dtls_client)@ == old(dtls_client)@,
        evs@.len() <= limit,
        forall|i: int| 0 <= i < evs@.len() ==> evs@[i] is SendTimeout,
{
    let mut evs: Vec<DtlsClientError> = Vec::new();
    let mut budget: usize = limit;
    while budget > 0
        invariant
            dtls_client@ == old(dtls_client)@,
            evs@.len() + budget <= limit,
            forall|i: int| 0 <= i < evs@.len() ==> evs@[i] is SendTimeout,
        decreases budget,
    {
        let t = match dtls_client.timeout_check() {
            Ok(()) => break,
            Err(t) => t,
        };
        evs.push(error_of_timeout(t));
        budget = budget - 1;
    }
    evs
}

/// Runs one health check and reports each worker that finished with a fatal
/// error. The reports are exactly the image of one health report, and the
/// client changes only as that report says.
pub fn fatal_event_system(dtls_client: &mut DtlsClient) -> (evs: Vec<DtlsClientError>)
    ensures
        exists|h: DtlsClientHealth|
            {
                &&& evs@ == spec_health_errors(h)
                &&& final(dtls_client)@ == old(dtls_client)@.reaped(
                    h.sender is Some,
                    h.recver is Some,
                )
                &&& (h.sender is Some ==> old(dtls_client)@.has_send_handle)
                &&& (h.recver is Some ==> old(dtls_client)@.has_recv_handle)
            },
        forall|i: int| 0 <= i < evs@.len() ==> evs@[i] is Fatal,
{
    let health = dtls_client.health_check();
    let ghost gh = health;
    let evs = errors_of_health(health);
    proof {
        assert(evs@ == spec_health_errors(gh));
        assert(dtls_client@ == old(dtls_client)@.reaped(gh.sender is Some, gh.recver is Some));
        assert(forall|i: int|
            0 <= i < spec_health_errors(gh).len() ==> spec_health_errors(gh)[i] is Fatal);
    }
    evs
}

} // verus!
