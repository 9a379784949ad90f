//! A DTLS 1.2 datagram transport layer bridging UDP-based DTLS connections to
//! a frame-driven host application.
//!
//! The crate models the concurrent connection manager of such a transport: the
//! per-connection state machines driven by background send/recv/accept
//! workers, their lifecycle (start, close, health check, timeout reporting),
//! and the foreground facades that a single-threaded frame loop polls.
//! The actual DTLS handshake, record crypto and socket I/O are performed by an
//! unverified shell around this crate; every decision the shell takes is a
//! call into a verified function here.

use vstd::prelude::*;

pub mod chan;
pub mod client;
pub mod error;
pub mod server;
pub mod worker;

verus! {

/// Labels for the three scheduling phases a host frame loop runs the
/// transport in: draining accepted peers, draining inbound datagrams, and
/// submitting outbound datagrams.
#[derive(Clone, Copy, Debug, PartialEq, Eq, Hash, Structural)]
pub enum DtlsSet {
    Acpt,
    Recv,
    Send,
}

} // verus!
