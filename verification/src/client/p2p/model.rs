//! The registry of peers as a mathematical value: a sequence of entries in
//! the order in which their identities first came, and what each operation
//! makes of it.

use vstd::prelude::*;
use crate::client::p2p::CONNECTION_TIMEOUT_MS;
use crate::network::addr::SocketAddress;
use crate::network::cidr::serves;

verus! {

/// One of the two direct transports.
#[derive(Clone, Copy, Debug, PartialEq, Eq, Structural)]
pub enum Transport {
    /// UDP between public IPv6 addresses.
    Ipv6,
    /// UDP between the public IPv4 addresses that STUN found.
    Stun,
}

/// Why a transport slot cannot be used.
#[derive(Clone, Copy, Debug, PartialEq, Eq, Structural)]
pub enum SlotFault {
    /// No address is known.
    NoAddress,
    /// An address is known, and no frame ever came from it.
    NeverResponded,
    /// The last frame from the address is older than the timeout.
    SlotExpired,
}

/// One transport endpoint of a peer: where to reach it, and when a frame
/// last came from there, in milliseconds of the caller's monotonic clock.
#[derive(Clone, Copy, Debug, PartialEq, Eq, Structural)]
pub struct Slot {
    pub addr: Option<SocketAddress>,
    pub last_seen: Option<u64>,
}

impl Slot {
    /// A slot without an address has never been seen.
    pub open spec fn wf(&self) -> bool {
        self.addr is None ==> self.last_seen is None
    }

    /// Whether the slot is live at `now`: its address is known and a frame
    /// came from it no more than the timeout ago.
    pub open spec fn is_live(&self, now: u64) -> bool {
        &&& self.addr is Some
        &&& self.last_seen is Some
        &&& now - self.last_seen->0 <= CONNECTION_TIMEOUT_MS
    }

    /// The slot after the server reported `addr` for it: nothing changes
    /// when none is reported or the address is the same; a new address
    /// takes the place of the old one and has not been seen yet.
    pub open spec fn moved_to(&self, addr: Option<SocketAddress>) -> Slot {
        match addr {
            Some(a) => if self.addr == Some(a) {
                *self
            } else {
                Slot { addr: Some(a), last_seen: None }
            },
            None => *self,
        }
    }

    /// Why a slot that is not live is not: it has no address, or nothing
    /// ever came from its address, or what came is too long ago.
    pub open spec fn spec_fault(&self) -> SlotFault {
        if self.addr is None {
            SlotFault::NoAddress
        } else if self.last_seen is None {
            SlotFault::NeverResponded
        } else {
            SlotFault::SlotExpired
        }
    }

    /// A slot with an address that has not been seen yet.
    pub open spec fn unseen(addr: Option<SocketAddress>) -> Slot {
        Slot { addr, last_seen: None }
    }

    /// Why a slot that is not live is not.
    pub fn fault(&self) -> (r: SlotFault)
        ensures
            r == self.spec_fault(),
    {
        match (self.addr, self.last_seen) {
            (None, _) => SlotFault::NoAddress,
            (Some(_), None) => SlotFault::NeverResponded,
            (Some(_), Some(_)) => SlotFault::SlotExpired,
        }
    }

    /// Whether the slot is live at `now`.
    pub fn live(&self, now: u64) -> (r: bool)
        ensures
            r == self.is_live(now),
    {
        match (self.addr, self.last_seen) {
            (Some(_), Some(seen)) => now <= seen || now - seen <= CONNECTION_TIMEOUT_MS,
            _ => false,
        }
    }
}

/// The mathematical value of a registry entry.
pub ghost struct PeerEntryView {
    pub identity: Seq<char>,
    pub private_ip: Seq<char>,
    pub ciders: Seq<Seq<char>>,
    pub ipv6_slot: Slot,
    pub stun_slot: Slot,
}

impl PeerEntryView {
    /// The slot of a transport.
    pub open spec fn slot(&self, via: Transport) -> Slot {
        match via {
            Transport::Ipv6 => self.ipv6_slot,
            Transport::Stun => self.stun_slot,
        }
    }

    /// The entry with the slot of a transport replaced.
    pub open spec fn with_slot(&self, via: Transport, slot: Slot) -> PeerEntryView {
        match via {
            Transport::Ipv6 => PeerEntryView { ipv6_slot: slot, ..*self },
            Transport::Stun => PeerEntryView { stun_slot: slot, ..*self },
        }
    }

    /// Whether packets for `dst` go to this peer.
    pub open spec fn serves(&self, dst: u32) -> bool {
        serves(self.private_ip, self.ciders, dst)
    }
}

/// The mathematical value of what the server reports of a peer, with the
/// addresses already read from their text.
pub ghost struct PeerRouteView {
    pub identity: Seq<char>,
    pub private_ip: Seq<char>,
    pub ciders: Seq<Seq<char>>,
    pub ipv6: Option<SocketAddress>,
    pub stun: Option<SocketAddress>,
}

impl PeerRouteView {
    /// The entry that a report makes for a peer not known before.
    pub open spec fn fresh(&self) -> PeerEntryView {
        PeerEntryView {
            identity: self.identity,
            private_ip: self.private_ip,
            ciders: self.ciders,
            ipv6_slot: Slot::unseen(self.ipv6),
            stun_slot: Slot::unseen(self.stun),
        }
    }

    /// The entry of a known peer after this report: only addresses that
    /// changed are touched.
    pub open spec fn applied_to(&self, entry: PeerEntryView) -> PeerEntryView {
        PeerEntryView {
            ipv6_slot: entry.ipv6_slot.moved_to(self.ipv6),
            stun_slot: entry.stun_slot.moved_to(self.stun),
            ..entry
        }
    }
}

/// Whether no identity occurs twice and every slot is well-formed.
pub open spec fn registry_wf(peers: Seq<PeerEntryView>) -> bool {
    &&& forall|i: int, j: int|
        0 <= i < j < peers.len() ==> (#[trigger] peers[i]).identity != (#[trigger] peers[j]).identity
    &&& forall|i: int|
        0 <= i < peers.len() ==> (#[trigger] peers[i]).ipv6_slot.wf() && peers[i].stun_slot.wf()
}

/// Whether an entry for `identity` is in the registry.
pub open spec fn known(peers: Seq<PeerEntryView>, identity: Seq<char>) -> bool {
    exists|i: int| 0 <= i < peers.len() && (#[trigger] peers[i]).identity == identity
}

/// The place of the entry for `identity`, when there is one.
pub open spec fn position(peers: Seq<PeerEntryView>, identity: Seq<char>) -> int {
    choose|i: int| 0 <= i < peers.len() && (#[trigger] peers[i]).identity == identity
}

/// The registry after one report was merged in: a known peer has its
/// changed addresses updated, an unknown one is added at the end.
pub open spec fn merge_one(peers: Seq<PeerEntryView>, route: PeerRouteView) -> Seq<PeerEntryView> {
    if known(peers, route.identity) {
        let i = position(peers, route.identity);
        peers.update(i, route.applied_to(peers[i]))
    } else {
        peers.push(route.fresh())
    }
}

/// The registry after a list of reports was merged in, one after the other.
pub open spec fn merged(peers: Seq<PeerEntryView>, routes: Seq<PeerRouteView>) -> Seq<
    PeerEntryView,
>
    decreases routes.len(),
{
    if routes.len() == 0 {
        peers
    } else {
        merge_one(merged(peers, routes.drop_last()), routes.last())
    }
}

/// The registry after one report was written into it: the entry for the
/// identity is made anew, in its old place or at the end.
pub open spec fn write_one(peers: Seq<PeerEntryView>, route: PeerRouteView) -> Seq<PeerEntryView> {
    if known(peers, route.identity) {
        peers.update(position(peers, route.identity), route.fresh())
    } else {
        peers.push(route.fresh())
    }
}

/// The registry after a list of reports was written into it.
pub open spec fn written(peers: Seq<PeerEntryView>, routes: Seq<PeerRouteView>) -> Seq<
    PeerEntryView,
>
    decreases routes.len(),
{
    if routes.len() == 0 {
        peers
    } else {
        write_one(written(peers, routes.drop_last()), routes.last())
    }
}

/// The registry that a list of reports makes from nothing: what a rewrite
/// leaves.
pub open spec fn rewritten(routes: Seq<PeerRouteView>) -> Seq<PeerEntryView> {
    written(Seq::empty(), routes)
}

/// The registry after a rewrite with `routes`: whatever it held before,
/// it holds what the reports make from nothing.
pub open spec fn after_rewrite(peers: Seq<PeerEntryView>, routes: Seq<PeerRouteView>) -> Seq<
    PeerEntryView,
> {
    rewritten(routes)
}

/// Whether `i` is the first entry that serves `dst`.
pub open spec fn is_first_serving(peers: Seq<PeerEntryView>, dst: u32, i: int) -> bool {
    &&& 0 <= i < peers.len()
    &&& peers[i].serves(dst)
    &&& forall|k: int| 0 <= k < i ==> !(#[trigger] peers[k]).serves(dst)
}

/// Whether no entry serves `dst`.
pub open spec fn none_serves(peers: Seq<PeerEntryView>, dst: u32) -> bool {
    forall|i: int| 0 <= i < peers.len() ==> !(#[trigger] peers[i]).serves(dst)
}

/// Whether a slot of the entry has the address `source`.
pub open spec fn hears(entry: PeerEntryView, source: SocketAddress) -> bool {
    entry.ipv6_slot.addr == Some(source) || entry.stun_slot.addr == Some(source)
}

/// The entry after a frame came from `source` at `now`: the clock of the
/// slot with that address is set, the IPv6 slot first.
pub open spec fn heard(entry: PeerEntryView, source: SocketAddress, now: u64) -> PeerEntryView {
    if entry.ipv6_slot.addr == Some(source) {
        PeerEntryView { ipv6_slot: Slot { last_seen: Some(now), ..entry.ipv6_slot }, ..entry }
    } else if entry.stun_slot.addr == Some(source) {
        PeerEntryView { stun_slot: Slot { last_seen: Some(now), ..entry.stun_slot }, ..entry }
    } else {
        entry
    }
}

/// Whether `i` is the first entry with a slot at `source`.
pub open spec fn is_first_hearing(peers: Seq<PeerEntryView>, source: SocketAddress, i: int) -> bool {
    &&& 0 <= i < peers.len()
    &&& hears(peers[i], source)
    &&& forall|k: int| 0 <= k < i ==> !hears(#[trigger] peers[k], source)
}

/// Whether no entry has a slot at `source`.
pub open spec fn none_hears(peers: Seq<PeerEntryView>, source: SocketAddress) -> bool {
    forall|i: int| 0 <= i < peers.len() ==> !hears(#[trigger] peers[i], source)
}

/// The registry after a probe of `identity` came from `source` at `now` on
/// a transport: the slot is bound to the source and its clock is set. An
/// unknown identity changes nothing.
pub open spec fn probed(
    peers: Seq<PeerEntryView>,
    via: Transport,
    identity: Seq<char>,
    source: SocketAddress,
    now: u64,
) -> Seq<PeerEntryView> {
    if known(peers, identity) {
        let i = position(peers, identity);
        peers.update(i, peers[i].with_slot(via, Slot { addr: Some(source), last_seen: Some(now) }))
    } else {
        peers
    }
}

/// The addresses to probe on a transport: the slot address of every entry
/// that has one, in the order of the entries.
pub open spec fn probe_targets(peers: Seq<PeerEntryView>, via: Transport) -> Seq<SocketAddress>
    decreases peers.len(),
{
    if peers.len() == 0 {
        Seq::empty()
    } else {
        let rest = probe_targets(peers.drop_last(), via);
        match peers.last().slot(via).addr {
            Some(addr) => rest.push(addr),
            None => rest,
        }
    }
}

/// Why a packet goes by the relay.
#[derive(Clone, Copy, Debug, PartialEq, Eq, Structural)]
pub enum RelayReason {
    /// No peer serves the destination.
    NoDestination,
    /// The peer is known, and neither of its slots is live.
    NoLiveSlot { ipv6: SlotFault, stun: SlotFault },
}

/// Where an outbound packet goes.
#[derive(Clone, Copy, Debug, PartialEq, Eq, Structural)]
pub enum PathDecision {
    /// To the peer itself, at this address.
    Direct { addr: SocketAddress, via: Transport },
    /// To the relay server.
    Relay { reason: RelayReason },
}

/// The path for a packet to the peer `entry` at `now`: the IPv6 slot if it
/// is live, else the STUN slot if it is live, else the relay.
pub open spec fn path_to(entry: PeerEntryView, now: u64) -> PathDecision {
    if entry.ipv6_slot.is_live(now) {
        PathDecision::Direct { addr: entry.ipv6_slot.addr->0, via: Transport::Ipv6 }
    } else if entry.stun_slot.is_live(now) {
        PathDecision::Direct { addr: entry.stun_slot.addr->0, via: Transport::Stun }
    } else {
        PathDecision::Relay {
            reason: RelayReason::NoLiveSlot {
                ipv6: entry.ipv6_slot.spec_fault(),
                stun: entry.stun_slot.spec_fault(),
            },
        }
    }
}

} // verus!
