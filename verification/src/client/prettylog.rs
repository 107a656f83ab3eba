//! How the state of the connections reads to a person: what the periodic
//! status print and the status page say of a slot and of a peer.

use vstd::prelude::*;
use crate::network::addr::SocketAddress;

verus! {

/// Seconds within which a slot that was heard counts as active.
pub const ACTIVE_WITHIN_SECS: u64 = 15;

/// Seconds within which a peer that sent a keepalive counts as online.
pub const ONLINE_WITHIN_SECS: u64 = 30;

/// Seconds within which a peer that sent a keepalive is not yet inactive.
pub const WARNING_WITHIN_SECS: u64 = 120;

/// How a transport slot reads.
#[derive(Clone, Copy, Debug, PartialEq, Eq, Structural)]
pub enum SlotState {
    /// No address is known.
    NoAddress,
    /// An address is known, and nothing came from it yet.
    Connecting,
    /// A frame came from the address this many seconds ago, not long ago.
    Active { seconds_ago: u64 },
    /// A frame came from the address this many seconds ago, too long ago.
    Inactive { seconds_ago: u64 },
}

/// The whole seconds from `then` to `now`, both in milliseconds; 0 when
/// `then` is not before `now`.
pub open spec fn seconds_between(then: u64, now: u64) -> u64 {
    if now <= then {
        0
    } else {
        ((now - then) / 1000) as u64
    }
}

/// How a slot reads at `now`, clocks in milliseconds.
pub open spec fn slot_state_of(addr: Option<SocketAddress>, last_active: Option<u64>, now: u64) -> SlotState {
    match (addr, last_active) {
        (None, _) => SlotState::NoAddress,
        (Some(_), None) => SlotState::Connecting,
        (Some(_), Some(then)) => if seconds_between(then, now) < ACTIVE_WITHIN_SECS {
            SlotState::Active { seconds_ago: seconds_between(then, now) }
        } else {
            SlotState::Inactive { seconds_ago: seconds_between(then, now) }
        },
    }
}

/// How a slot reads at `now`, clocks in milliseconds.
pub fn slot_state(addr: Option<SocketAddress>, last_active: Option<u64>, now: u64) -> (r: SlotState)
    ensures
        r == slot_state_of(addr, last_active, now),
{
    match (addr, last_active) {
        (None, _) => SlotState::NoAddress,
        (Some(_), None) => SlotState::Connecting,
        (Some(_), Some(then)) => {
            let seconds_ago: u64 = if now <= then {
                0
            } else {
                (now - then) / 1000
            };
            if seconds_ago < ACTIVE_WITHIN_SECS {
                SlotState::Active { seconds_ago }
            } else {
                SlotState::Inactive { seconds_ago }
            }
        },
    }
}

/// How a peer of the cluster reads, by the last keepalive that the server
/// had from it.
#[derive(Clone, Copy, Debug, PartialEq, Eq, Structural)]
pub enum PeerPresence {
    /// The server never had a keepalive from the peer.
    Offline,
    /// The last keepalive is less than 30 seconds old.
    Online,
    /// The last keepalive is less than 2 minutes old.
    Warning,
    /// The last keepalive is older.
    Inactive,
}

/// How a peer reads at `now`, both in Unix seconds.
pub open spec fn presence_of(last_active: u64, now: u64) -> PeerPresence {
    if last_active == 0 {
        PeerPresence::Offline
    } else if now - last_active < ONLINE_WITHIN_SECS {
        PeerPresence::Online
    } else if now - last_active < WARNING_WITHIN_SECS {
        PeerPresence::Warning
    } else {
        PeerPresence::Inactive
    }
}

/// How a peer reads at `now`, both in Unix seconds.
pub fn peer_presence(last_active: u64, now: u64) -> (r: PeerPresence)
    ensures
        r == presence_of(last_active, now),
{
    if last_active == 0 {
        return PeerPresence::Offline;
    }
    let elapsed: u64 = if now <= last_active {
        0
    } else {
        now - last_active
    };
    if elapsed < ONLINE_WITHIN_SECS {
        PeerPresence::Online
    } else if elapsed < WARNING_WITHIN_SECS {
        PeerPresence::Warning
    } else {
        PeerPresence::Inactive
    }
}

impl PeerPresence {
    /// The word for the status page.
    pub fn label(&self) -> (r: &'static str)
        ensures
            r@ == (match self {
                PeerPresence::Offline => "offline"@,
                PeerPresence::Online => "online"@,
                PeerPresence::Warning => "warning"@,
                PeerPresence::Inactive => "inactive"@,
            }),
    {
        match self {
            PeerPresence::Offline => "offline",
            PeerPresence::Online => "online",
            PeerPresence::Warning => "warning",
            PeerPresence::Inactive => "inactive",
        }
    }
}

/// Whole megabytes in a number of bytes.
pub fn megabytes(bytes: u64) -> (r: u64)
    ensures
        r == bytes / 1048576,
{
    bytes / 1024 / 1024
}

} // verus!
