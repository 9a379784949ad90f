//! Shared vocabulary of the background workers.
//!
//! The unverified shell runs each worker loop (it alone can await the
//! transport); every decision inside a loop iteration is a verified function
//! here or on the facades. The shell reports what the outside world did as an
//! outcome value and performs the action the verified step hands back.

use vstd::prelude::*;

verus! {

/// Outcome of one attempt by the shell to push a datagram into the DTLS
/// connection under the send deadline.
pub enum SendOutcome {
    /// The transport accepted the datagram; carries the byte count it reported.
    Sent(usize),
    /// The send deadline elapsed before the transport accepted the datagram.
    TimedOut,
    /// The transport failed; carries its error as text.
    Failed(String),
}

/// Outcome of one wait by the shell for inbound traffic on a connection.
pub enum RecvOutcome {
    /// A record arrived; carries how many leading buffer bytes it filled.
    Datagram(usize),
    /// The inactivity timer elapsed before any record arrived.
    TimerElapsed,
    /// The transport failed; carries its error as text.
    Failed(String),
}

/// Copies the first `n` bytes of the receive buffer out as the delivered
/// datagram. The buffer itself is left for the transport to overwrite, so
/// delivered datagrams never alias it.
pub fn take_record(buf: &Vec<u8>, n: usize) -> (r: Vec<u8>)
    requires
        n <= buf.len(),
    ensures
        r@ == buf@.take(n as int),
{
    let mut out: Vec<u8> = Vec::new();
    let mut i: usize = 0;
    while i < n
        invariant
            i <= n,
            n <= buf.len(),
            out@ == buf@.take(i as int),
        decreases n - i,
    {
        out.push(buf[i]);
        proof {
            assert(out@ =~= buf@.take(i + 1 as int));
        }
        i = i + 1;
    }
    out
}

} // verus!
