//! What the listener does when accepting a connection fails.

use vstd::prelude::*;

verus! {

/// How many connections may wait to be picked up.
pub const DEFAULT_ON_CONNECTION_QUEUE: usize = 1024;

/// The wait before the first retry, in seconds.
pub const FIRST_BACKOFF_SECS: u64 = 1;

/// The longest wait before a retry, in seconds.
pub const MAX_BACKOFF_SECS: u64 = 64;

/// Why accepting a connection failed.
#[derive(Clone, Copy, Debug, PartialEq, Eq, Structural)]
pub enum AcceptError {
    /// The peer gave the connection up before it was accepted.
    ConnectionAborted,
    /// The peer reset the connection before it was accepted.
    ConnectionReset,
    /// Nothing to accept right now.
    WouldBlock,
    /// Anything else.
    Other,
}

/// What to do after a failed accept.
#[derive(Clone, Copy, Debug, PartialEq, Eq, Structural)]
pub enum AcceptDecision {
    /// Wait, then accept again; the wait after that is twice as long.
    Retry { wait_secs: u64, next_backoff: u64 },
    /// Stop listening.
    GiveUp,
}

/// Whether the error may pass by itself.
pub open spec fn transient(error: AcceptError) -> bool {
    error is ConnectionAborted || error is ConnectionReset || error is WouldBlock
}

/// Decides what follows a failed accept, where `backoff` is the wait that
/// is due: the listener retries after an error that may pass, with waits of
/// 1, 2, 4 and so on up to 64 seconds, and gives up after any other error
/// and when the waits are used up.
pub fn accept(error: AcceptError, backoff: u64) -> (r: AcceptDecision)
    ensures
        r == (if transient(error) && backoff <= MAX_BACKOFF_SECS {
            AcceptDecision::Retry { wait_secs: backoff, next_backoff: (backoff * 2) as u64 }
        } else {
            AcceptDecision::GiveUp
        }),
{
    match error {
        AcceptError::ConnectionAborted | AcceptError::ConnectionReset | AcceptError::WouldBlock => {
            if backoff > MAX_BACKOFF_SECS {
                AcceptDecision::GiveUp
            } else {
                AcceptDecision::Retry { wait_secs: backoff, next_backoff: backoff * 2 }
            }
        },
        AcceptError::Other => AcceptDecision::GiveUp,
    }
}

} // verus!
