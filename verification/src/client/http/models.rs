//! What the status page shows.

use vstd::prelude::*;
use vstd::string::*;
use crate::client::prettylog::peer_presence;
use crate::client::prettylog::presence_of;
use crate::client::prettylog::PeerPresence;
use crate::client::prettylog::SlotState;
use crate::client::relay::RelayStatus;
use crate::codec::frame::clone_texts;
use crate::codec::frame::texts;
use crate::codec::frame::PeerDetail;

verus! {

/// This client's place in the overlay.
#[derive(Debug, Clone)]
pub struct SelfInfo {
    pub identity: String,
    pub private_ip: String,
    pub mask: String,
    pub gateway: String,
    pub ciders: Vec<String>,
    pub ipv6: String,
    pub port: u16,
    pub stun_ip: String,
    pub stun_port: u16,
}

/// What went through the relay.
#[derive(Debug, Clone, Copy, PartialEq, Eq, Structural)]
pub struct RelayStatusInfo {
    pub rx_frames: u64,
    pub rx_errors: u64,
    pub tx_frames: u64,
    pub tx_errors: u64,
}

impl RelayStatusInfo {
    /// The counters of the relay, under the names of the status page.
    pub fn from_status(status: &RelayStatus) -> (r: Self)
        ensures
            r == (RelayStatusInfo {
                rx_frames: status.rx_frame,
                rx_errors: status.rx_error,
                tx_frames: status.tx_frame,
                tx_errors: status.tx_error,
            }),
    {
        RelayStatusInfo {
            rx_frames: status.rx_frame,
            rx_errors: status.rx_error,
            tx_frames: status.tx_frame,
            tx_errors: status.tx_error,
        }
    }
}

/// The direct IPv6 path to a peer.
#[derive(Debug, Clone)]
pub struct IPv6ConnectionInfo {
    pub address: String,
    pub connected: bool,
    pub last_active_seconds_ago: Option<u64>,
}

/// The hole-punched IPv4 path to a peer.
#[derive(Debug, Clone)]
pub struct STUNConnectionInfo {
    pub address: String,
    pub connected: bool,
    pub last_active_seconds_ago: Option<u64>,
}

/// Whether a slot in this state counts as connected.
pub open spec fn connected_in(state: SlotState) -> bool {
    state is Active
}

/// The seconds since a slot in this state was heard, if it ever was.
pub open spec fn seconds_ago_in(state: SlotState) -> Option<u64> {
    match state {
        SlotState::Active { seconds_ago } => Some(seconds_ago),
        SlotState::Inactive { seconds_ago } => Some(seconds_ago),
        _ => None,
    }
}

fn seconds_ago(state: SlotState) -> (r: Option<u64>)
    ensures
        r == seconds_ago_in(state),
{
    match state {
        SlotState::Active { seconds_ago } => Some(seconds_ago),
        SlotState::Inactive { seconds_ago } => Some(seconds_ago),
        _ => None,
    }
}

fn is_connected(state: SlotState) -> (r: bool)
    ensures
        r == connected_in(state),
{
    match state {
        SlotState::Active { .. } => true,
        _ => false,
    }
}

impl IPv6ConnectionInfo {
    /// What the page shows of a slot with the address text `address` in
    /// `state`; nothing for a slot without an address.
    pub fn new(address: String, state: SlotState) -> (r: Option<Self>)
        ensures
            state is NoAddress ==> r is None,
            !(state is NoAddress) ==> (r matches Some(info) && info.address@ == address@
                && info.connected == connected_in(state) && info.last_active_seconds_ago
                == seconds_ago_in(state)),
    {
        match state {
            SlotState::NoAddress => None,
            _ => Some(
                IPv6ConnectionInfo {
                    address,
                    connected: is_connected(state),
                    last_active_seconds_ago: seconds_ago(state),
                },
            ),
        }
    }
}

impl STUNConnectionInfo {
    /// What the page shows of a slot with the address text `address` in
    /// `state`; nothing for a slot without an address.
    pub fn new(address: String, state: SlotState) -> (r: Option<Self>)
        ensures
            state is NoAddress ==> r is None,
            !(state is NoAddress) ==> (r matches Some(info) && info.address@ == address@
                && info.connected == connected_in(state) && info.last_active_seconds_ago
                == seconds_ago_in(state)),
    {
        match state {
            SlotState::NoAddress => None,
            _ => Some(
                STUNConnectionInfo {
                    address,
                    connected: is_connected(state),
                    last_active_seconds_ago: seconds_ago(state),
                },
            ),
        }
    }
}

/// The two direct paths to one peer.
#[derive(Debug, Clone)]
pub struct P2PPeerInfo {
    pub identity: String,
    pub ipv6: Option<IPv6ConnectionInfo>,
    pub stun: Option<STUNConnectionInfo>,
}

/// The direct paths to all peers.
#[derive(Debug, Clone)]
pub struct P2PStatus {
    pub enabled: bool,
    pub peers: Vec<P2PPeerInfo>,
}

/// One peer of the cluster, as the server last reported it.
#[derive(Debug, Clone)]
pub struct ClusterPeerInfo {
    pub identity: String,
    pub private_ip: String,
    pub ciders: Vec<String>,
    pub ipv6: Option<String>,
    pub ipv6_port: Option<u16>,
    pub stun_ip: Option<String>,
    pub stun_port: Option<u16>,
    pub last_active: u64,
    /// `online`, `warning`, `inactive` or `offline`.
    pub status: String,
}

/// The word for a peer that was last active at `last_active`, at `now`.
pub open spec fn status_word(last_active: u64, now: u64) -> Seq<char> {
    match presence_of(last_active, now) {
        PeerPresence::Offline => "offline"@,
        PeerPresence::Online => "online"@,
        PeerPresence::Warning => "warning"@,
        PeerPresence::Inactive => "inactive"@,
    }
}

impl ClusterPeerInfo {
    /// What the page shows of a peer at `now`, in Unix seconds: an address
    /// and its port only where the address is known, and the word for how
    /// long ago the peer was active.
    pub fn from_detail(detail: &PeerDetail, now: u64) -> (r: Self)
        ensures
            r.identity@ == detail.identity@,
            r.private_ip@ == detail.private_ip@,
            texts(r.ciders@) == texts(detail.ciders@),
            detail.ipv6@.len() == 0 ==> r.ipv6 is None && r.ipv6_port is None,
            detail.ipv6@.len() > 0 ==> (r.ipv6 matches Some(ip) && ip@ == detail.ipv6@
                && r.ipv6_port == Some(detail.port)),
            detail.stun_ip@.len() == 0 ==> r.stun_ip is None && r.stun_port is None,
            detail.stun_ip@.len() > 0 ==> (r.stun_ip matches Some(ip) && ip@ == detail.stun_ip@
                && r.stun_port == Some(detail.stun_port)),
            r.last_active == detail.last_active,
            r.status@ == status_word(detail.last_active, now),
    {
        let (ipv6, ipv6_port) = if detail.ipv6.as_str().is_empty() {
            (None, None)
        } else {
            (Some(detail.ipv6.clone()), Some(detail.port))
        };
        let (stun_ip, stun_port) = if detail.stun_ip.as_str().is_empty() {
            (None, None)
        } else {
            (Some(detail.stun_ip.clone()), Some(detail.stun_port))
        };
        ClusterPeerInfo {
            identity: detail.identity.clone(),
            private_ip: detail.private_ip.clone(),
            ciders: clone_texts(&detail.ciders),
            ipv6,
            ipv6_port,
            stun_ip,
            stun_port,
            last_active: detail.last_active,
            status: String::from_str(peer_presence(detail.last_active, now).label()),
        }
    }
}

} // verus!
