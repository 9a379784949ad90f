//! Error taxonomy of the transport.

use vstd::prelude::*;

verus! {

/// Every failure the transport reports, at `start` time, on the polling
/// surface, or as a worker's terminal result.
#[derive(Debug, Clone)]
pub enum DtlsError {
    /// PEM parse or file I/O failure while loading certificate material.
    CertLoad { path: String, cause: String },
    /// Socket binding failed at `start`.
    Bind(String),
    /// The DTLS handshake or dial failed at `start`.
    Dial(String),
    /// `start` was invoked while the facade is not in the closed state.
    NotClosed,
    /// The client's `send` was invoked with no active sender worker.
    NotConnected,
    /// A server operation could not find the named connection or its send
    /// endpoint: the index is not registered, or its send queue is gone.
    NoSuchConn(u64),
    /// A worker for this connection is already attached; `health_check` has
    /// not reaped it yet.
    AlreadyStarted(u64),
    /// A per-connection worker was requested before the server itself started.
    NotStarted,
    /// A transport read or write error observed inside a worker; terminates
    /// that worker.
    Io(String),
    /// The task runtime could not be built.
    Runtime(String),
    /// The connection index space is exhausted; the accepter terminates.
    IndexExhausted,
}

/// A worker's terminal result, observed through `health_check`.
pub type WorkerResult = Result<(), DtlsError>;

} // verus!
