//! The registry of peers and the choice of a path for an outbound packet.

use vstd::prelude::*;
use vstd::string::*;
use crate::client::p2p::model::after_rewrite;
use crate::client::p2p::model::heard;
use crate::client::p2p::model::hears;
use crate::client::p2p::model::is_first_hearing;
use crate::client::p2p::model::is_first_serving;
use crate::client::p2p::model::known;
use crate::client::p2p::model::merge_one;
use crate::client::p2p::model::merged;
use crate::client::p2p::model::none_hears;
use crate::client::p2p::model::none_serves;
use crate::client::p2p::model::path_to;
use crate::client::p2p::model::position;
use crate::client::p2p::model::probe_targets;
use crate::client::p2p::model::probed;
use crate::client::p2p::model::registry_wf;
use crate::client::p2p::model::write_one;
use crate::client::p2p::model::written;
use crate::client::p2p::model::PathDecision;
use crate::client::p2p::model::PeerEntryView;
use crate::client::p2p::model::PeerRouteView;
use crate::client::p2p::model::RelayReason;
use crate::client::p2p::model::Slot;
use crate::client::p2p::model::Transport;
use crate::codec::frame::clone_texts;
use crate::codec::frame::texts;
use crate::codec::frame::Frame;
use crate::codec::frame::FrameView;
use crate::codec::frame::ProbeHolePunchFrame;
use crate::codec::frame::ProbeIPv6Frame;
use crate::network::addr::ipv4_text;
use crate::network::addr::same_addr;
use crate::network::addr::SocketAddress;
use crate::network::cidr::match_route;

verus! {

/// What the client knows of one peer.
#[derive(Debug, Clone)]
pub struct PeerEntry {
    /// The peer's identity, by which the registry is keyed.
    pub identity: String,
    /// The peer's address inside the overlay.
    pub private_ip: String,
    /// The CIDR ranges reached through the peer.
    pub ciders: Vec<String>,
    /// The direct IPv6 path.
    pub ipv6_slot: Slot,
    /// The hole-punched IPv4 path.
    pub stun_slot: Slot,
}

impl View for PeerEntry {
    type V = PeerEntryView;

    open spec fn view(&self) -> PeerEntryView {
        PeerEntryView {
            identity: self.identity@,
            private_ip: self.private_ip@,
            ciders: texts(self.ciders@),
            ipv6_slot: self.ipv6_slot,
            stun_slot: self.stun_slot,
        }
    }
}

/// The views of a sequence of entries.
pub open spec fn entries(v: Seq<PeerEntry>) -> Seq<PeerEntryView> {
    Seq::new(v.len(), |i: int| v[i]@)
}

/// What the server reports of a peer, with the two addresses already read
/// from their text: `None` where the text was empty or no address.
#[derive(Debug, Clone)]
pub struct PeerRoute {
    pub identity: String,
    pub private_ip: String,
    pub ciders: Vec<String>,
    pub ipv6: Option<SocketAddress>,
    pub stun: Option<SocketAddress>,
}

impl View for PeerRoute {
    type V = PeerRouteView;

    open spec fn view(&self) -> PeerRouteView {
        PeerRouteView {
            identity: self.identity@,
            private_ip: self.private_ip@,
            ciders: texts(self.ciders@),
            ipv6: self.ipv6,
            stun: self.stun,
        }
    }
}

/// The views of a sequence of reports.
pub open spec fn routes(v: Seq<PeerRoute>) -> Seq<PeerRouteView> {
    Seq::new(v.len(), |i: int| v[i]@)
}

impl PeerRoute {
    /// The entry for a peer not known before: both slots unseen.
    pub fn fresh(&self) -> (r: PeerEntry)
        ensures
            r@ == self@.fresh(),
    {
        PeerEntry {
            identity: self.identity.clone(),
            private_ip: self.private_ip.clone(),
            ciders: clone_texts(&self.ciders),
            ipv6_slot: Slot { addr: self.ipv6, last_seen: None },
            stun_slot: Slot { addr: self.stun, last_seen: None },
        }
    }
}

/// The state of one peer's two slots, for display.
#[derive(Debug, Clone)]
pub struct PeerStatus {
    pub identity: String,
    pub ipv6_addr: Option<SocketAddress>,
    pub ipv6_last_active: Option<u64>,
    pub stun_addr: Option<SocketAddress>,
    pub stun_last_active: Option<u64>,
}

impl PeerStatus {
    /// Whether this is the state of `entry`.
    pub open spec fn shows(&self, entry: PeerEntryView) -> bool {
        &&& self.identity@ == entry.identity
        &&& self.ipv6_addr == entry.ipv6_slot.addr
        &&& self.ipv6_last_active == entry.ipv6_slot.last_seen
        &&& self.stun_addr == entry.stun_slot.addr
        &&& self.stun_last_active == entry.stun_slot.last_seen
    }
}

/// The peers of this client, each with its two transport slots, in the
/// order in which their identities first came.
pub struct PeerHandler {
    peers: Vec<PeerEntry>,
    identity: String,
}

impl View for PeerHandler {
    type V = Seq<PeerEntryView>;

    closed spec fn view(&self) -> Seq<PeerEntryView> {
        entries(self.peers@)
    }
}

impl PeerHandler {
    /// The identity of this client.
    pub closed spec fn identity(&self) -> Seq<char> {
        self.identity@
    }

    /// No identity is held twice, and a slot without an address has no
    /// clock.
    pub open spec fn wf(&self) -> bool {
        registry_wf(self@)
    }

    /// An empty registry for the client `identity`.
    pub fn new(identity: String) -> (r: Self)
        ensures
            r.wf(),
            r@ == Seq::<PeerEntryView>::empty(),
            r.identity() == identity@,
    {
        let r = PeerHandler { peers: Vec::new(), identity };
        assert(r@ =~= Seq::<PeerEntryView>::empty());
        r
    }

    /// The number of peers.
    pub fn len(&self) -> (n: usize)
        ensures
            n == self@.len(),
    {
        self.peers.len()
    }

    /// The place of the entry for `identity`.
    fn find(&self, identity: &String) -> (r: Option<usize>)
        requires
            self.wf(),
        ensures
            match r {
                Some(i) => known(self@, identity@) && i == position(self@, identity@) && i
                    < self@.len() && self@[i as int].identity == identity@,
                None => !known(self@, identity@),
            },
    {
        let mut i: usize = 0;
        while i < self.peers.len()
            invariant
                i <= self.peers@.len(),
                self.wf(),
                forall|k: int| 0 <= k < i ==> (#[trigger] self@[k]).identity != identity@,
            decreases self.peers.len() - i,
        {
            if self.peers[i].identity == *identity {
                proof {
                    assert(self@[i as int].identity == identity@);
                    let j = position(self@, identity@);
                    assert(self@[j].identity == identity@);
                    if j < i {
                        assert(self@[j].identity != self@[i as int].identity);
                    }
                    if i < j {
                        assert(self@[i as int].identity != self@[j].identity);
                    }
                }
                return Some(i);
            }
            i += 1;
        }
        None
    }

    /// Whether an entry for `identity` is held.
    pub fn contains(&self, identity: &String) -> (r: bool)
        requires
            self.wf(),
        ensures
            r == known(self@, identity@),
    {
        self.find(identity).is_some()
    }

    /// Writes one report in: the entry for its identity is made anew.
    fn write(&mut self, route: &PeerRoute)
        requires
            old(self).wf(),
        ensures
            final(self).wf(),
            final(self)@ == write_one(old(self)@, route@),
            final(self).identity() == old(self).identity(),
    {
        match self.find(&route.identity) {
            Some(i) => {
                let entry = route.fresh();
                self.peers[i] = entry;
                assert(self@ =~= write_one(old(self)@, route@));
            },
            None => {
                self.peers.push(route.fresh());
                assert(self@ =~= write_one(old(self)@, route@));
            },
        }
    }

    /// Replaces the whole registry by what the reports describe. Every
    /// entry that was held is dropped with its addresses and clocks; the
    /// new entries have not been seen on either slot. Of two reports for
    /// one identity the later one counts.
    pub fn rewrite_peers(&mut self, peer_details: Vec<PeerRoute>)
        ensures
            final(self).wf(),
            final(self)@ == after_rewrite(old(self)@, routes(peer_details@)),
            peer_details@.len() == 0 ==> final(self)@.len() == 0,
            final(self).identity() == old(self).identity(),
    {
        self.peers = Vec::new();
        assert(self@ =~= Seq::<PeerEntryView>::empty());
        let mut k: usize = 0;
        while k < peer_details.len()
            invariant
                k <= peer_details@.len(),
                self.wf(),
                self@ == written(Seq::empty(), routes(peer_details@).take(k as int)),
                self.identity() == old(self).identity(),
            decreases peer_details.len() - k,
        {
            proof {
                let next = routes(peer_details@).take(k + 1);
                assert(next.drop_last() =~= routes(peer_details@).take(k as int));
                assert(next.last() == peer_details@[k as int]@);
            }
            self.write(&peer_details[k]);
            k += 1;
        }
        assert(routes(peer_details@).take(k as int) =~= routes(peer_details@));
    }

    /// Merges one report in.
    fn merge(&mut self, route: &PeerRoute)
        requires
            old(self).wf(),
        ensures
            final(self).wf(),
            final(self)@ == merge_one(old(self)@, route@),
            final(self).identity() == old(self).identity(),
    {
        match self.find(&route.identity) {
            Some(i) => {
                if let Some(addr) = route.ipv6 {
                    if !same_addr(self.peers[i].ipv6_slot.addr, Some(addr)) {
                        self.peers[i].ipv6_slot = Slot { addr: Some(addr), last_seen: None };
                    }
                }
                if let Some(addr) = route.stun {
                    if !same_addr(self.peers[i].stun_slot.addr, Some(addr)) {
                        self.peers[i].stun_slot = Slot { addr: Some(addr), last_seen: None };
                    }
                }
                assert(self@ =~= merge_one(old(self)@, route@));
            },
            None => {
                self.peers.push(route.fresh());
                assert(self@ =~= merge_one(old(self)@, route@));
            },
        }
    }

    /// Merges the reports into the registry, one after the other. A known
    /// peer keeps its entry; a reported address that differs from the one
    /// held takes its place, and the clock of that slot is cleared. An
    /// unknown peer is added with both slots unseen. No clock is ever set.
    pub fn insert_or_update(&mut self, peer_details: Vec<PeerRoute>)
        requires
            old(self).wf(),
        ensures
            final(self).wf(),
            final(self)@ == merged(old(self)@, routes(peer_details@)),
            final(self).identity() == old(self).identity(),
    {
        let mut k: usize = 0;
        assert(routes(peer_details@).take(0) =~= Seq::<PeerRouteView>::empty());
        while k < peer_details.len()
            invariant
                k <= peer_details@.len(),
                self.wf(),
                self@ == merged(old(self)@, routes(peer_details@).take(k as int)),
                self.identity() == old(self).identity(),
            decreases peer_details.len() - k,
        {
            proof {
                let next = routes(peer_details@).take(k + 1);
                assert(next.drop_last() =~= routes(peer_details@).take(k as int));
                assert(next.last() == peer_details@[k as int]@);
            }
            self.merge(&peer_details[k]);
            k += 1;
        }
        assert(routes(peer_details@).take(k as int) =~= routes(peer_details@));
    }

    /// Applies news of one peer's addresses: as a merge does for a known
    /// peer. News of an unknown peer changes nothing.
    pub fn update_peer(
        &mut self,
        identity: &String,
        ipv6: Option<SocketAddress>,
        stun: Option<SocketAddress>,
    ) -> (found: bool)
        requires
            old(self).wf(),
        ensures
            final(self).wf(),
            found == known(old(self)@, identity@),
            final(self).identity() == old(self).identity(),
            final(self)@ == (if found {
                let i = position(old(self)@, identity@);
                old(self)@.update(
                    i,
                    PeerEntryView {
                        ipv6_slot: old(self)@[i].ipv6_slot.moved_to(ipv6),
                        stun_slot: old(self)@[i].stun_slot.moved_to(stun),
                        ..old(self)@[i]
                    },
                )
            } else {
                old(self)@
            }),
    {
        match self.find(identity) {
            Some(i) => {
                if let Some(addr) = ipv6 {
                    if !same_addr(self.peers[i].ipv6_slot.addr, Some(addr)) {
                        self.peers[i].ipv6_slot = Slot { addr: Some(addr), last_seen: None };
                    }
                }
                if let Some(addr) = stun {
                    if !same_addr(self.peers[i].stun_slot.addr, Some(addr)) {
                        self.peers[i].stun_slot = Slot { addr: Some(addr), last_seen: None };
                    }
                }
                assert(self@ =~= old(self)@.update(
                    i as int,
                    PeerEntryView {
                        ipv6_slot: old(self)@[i as int].ipv6_slot.moved_to(ipv6),
                        stun_slot: old(self)@[i as int].stun_slot.moved_to(stun),
                        ..old(self)@[i as int]
                    },
                ));
                true
            },
            None => false,
        }
    }

    /// The peer that packets for `dst` go to: the first entry whose private
    /// address is `dst` or one of whose CIDR ranges holds `dst`. `None` if
    /// and only if there is no such entry.
    pub fn lookup_by_dst(&self, dst: u32) -> (r: Option<&PeerEntry>)
        ensures
            match r {
                Some(entry) => exists|i: int|
                    is_first_serving(self@, dst, i) && entry@ == self@[i],
                None => none_serves(self@, dst),
            },
    {
        let dst_text = ipv4_text(dst);
        let mut i: usize = 0;
        while i < self.peers.len()
            invariant
                i <= self.peers@.len(),
                dst_text@ == crate::network::addr::dotted(dst),
                forall|k: int| 0 <= k < i ==> !(#[trigger] self@[k]).serves(dst),
            decreases self.peers.len() - i,
        {
            if match_route(&self.peers[i].private_ip, &self.peers[i].ciders, dst, &dst_text) {
                assert(is_first_serving(self@, dst, i as int));
                return Some(&self.peers[i]);
            }
            i += 1;
        }
        None
    }

    /// Notes that a frame came from `source` at `now`: the first entry with
    /// a slot at that address has the clock of that slot set, the IPv6 slot
    /// before the STUN slot. A source that no slot has changes nothing and
    /// gives `false`.
    pub fn record_recv(&mut self, source: SocketAddress, now: u64) -> (found: bool)
        requires
            old(self).wf(),
        ensures
            final(self).wf(),
            final(self).identity() == old(self).identity(),
            found == !none_hears(old(self)@, source),
            found ==> exists|i: int|
                is_first_hearing(old(self)@, source, i) && final(self)@ == old(self)@.update(
                    i,
                    heard(old(self)@[i], source, now),
                ),
            !found ==> final(self)@ == old(self)@,
    {
        let mut i: usize = 0;
        while i < self.peers.len()
            invariant
                i <= self.peers@.len(),
                self@ == old(self)@,
                self.wf(),
                self.identity() == old(self).identity(),
                forall|k: int| 0 <= k < i ==> !hears(#[trigger] self@[k], source),
            decreases self.peers.len() - i,
        {
            if same_addr(self.peers[i].ipv6_slot.addr, Some(source)) {
                self.peers[i].ipv6_slot.last_seen = Some(now);
                proof {
                    assert(is_first_hearing(old(self)@, source, i as int));
                    assert(self@ =~= old(self)@.update(
                        i as int,
                        heard(old(self)@[i as int], source, now),
                    ));
                }
                return true;
            }
            if same_addr(self.peers[i].stun_slot.addr, Some(source)) {
                self.peers[i].stun_slot.last_seen = Some(now);
                proof {
                    assert(is_first_hearing(old(self)@, source, i as int));
                    assert(self@ =~= old(self)@.update(
                        i as int,
                        heard(old(self)@[i as int], source, now),
                    ));
                }
                return true;
            }
            i += 1;
        }
        false
    }

    /// Notes a probe of `identity` from `source` at `now` on a transport:
    /// the slot is bound to `source`, whatever address it had, and its
    /// clock is set. A probe of an unknown identity changes nothing and
    /// gives `false`.
    pub fn record_probe(
        &mut self,
        via: Transport,
        identity: &String,
        source: SocketAddress,
        now: u64,
    ) -> (found: bool)
        requires
            old(self).wf(),
        ensures
            final(self).wf(),
            final(self).identity() == old(self).identity(),
            found == known(old(self)@, identity@),
            final(self)@ == probed(old(self)@, via, identity@, source, now),
    {
        match self.find(identity) {
            Some(i) => {
                let slot = Slot { addr: Some(source), last_seen: Some(now) };
                match via {
                    Transport::Ipv6 => {
                        self.peers[i].ipv6_slot = slot;
                    },
                    Transport::Stun => {
                        self.peers[i].stun_slot = slot;
                    },
                }
                assert(self@ =~= probed(old(self)@, via, identity@, source, now));
                true
            },
            None => false,
        }
    }

    /// Notes a probe on the IPv6 path.
    pub fn record_probe_ipv6(
        &mut self,
        identity: &String,
        source: SocketAddress,
        now: u64,
    ) -> (found: bool)
        requires
            old(self).wf(),
        ensures
            final(self).wf(),
            final(self).identity() == old(self).identity(),
            found == known(old(self)@, identity@),
            final(self)@ == probed(old(self)@, Transport::Ipv6, identity@, source, now),
    {
        self.record_probe(Transport::Ipv6, identity, source, now)
    }

    /// Notes a probe on the hole-punched path.
    pub fn record_probe_stun(
        &mut self,
        identity: &String,
        source: SocketAddress,
        now: u64,
    ) -> (found: bool)
        requires
            old(self).wf(),
        ensures
            final(self).wf(),
            final(self).identity() == old(self).identity(),
            found == known(old(self)@, identity@),
            final(self)@ == probed(old(self)@, Transport::Stun, identity@, source, now),
    {
        self.record_probe(Transport::Stun, identity, source, now)
    }

    /// Takes a frame that came from `source` at `now` over UDP. A probe
    /// updates the registry and goes no further. Any other frame refreshes
    /// the clock of the slot it came from and is handed on.
    pub fn recv_frame(&mut self, frame: Frame, source: SocketAddress, now: u64) -> (r: Option<Frame>)
        requires
            old(self).wf(),
        ensures
            final(self).wf(),
            final(self).identity() == old(self).identity(),
            match frame@ {
                FrameView::ProbeIPv6 { identity } => r is None && final(self)@ == probed(
                    old(self)@,
                    Transport::Ipv6,
                    identity,
                    source,
                    now,
                ),
                FrameView::ProbeHolePunch { identity } => r is None && final(self)@ == probed(
                    old(self)@,
                    Transport::Stun,
                    identity,
                    source,
                    now,
                ),
                _ => {
                    &&& r == Some(frame)
                    &&& if none_hears(old(self)@, source) {
                        final(self)@ == old(self)@
                    } else {
                        exists|i: int|
                            is_first_hearing(old(self)@, source, i) && final(self)@ == old(
                                self,
                            )@.update(i, heard(old(self)@[i], source, now))
                    }
                },
            },
    {
        match frame {
            Frame::ProbeIPv6(probe) => {
                self.record_probe(Transport::Ipv6, &probe.identity, source, now);
                None
            },
            Frame::ProbeHolePunch(probe) => {
                self.record_probe(Transport::Stun, &probe.identity, source, now);
                None
            },
            other => {
                self.record_recv(source, now);
                Some(other)
            },
        }
    }

    /// Chooses the path for a packet to `dst` at `now`. With no peer for
    /// `dst` the packet goes by the relay. Else the peer's IPv6 slot is
    /// taken if it is live, else its STUN slot if that is live, else the
    /// relay.
    pub fn select_path(&self, dst: u32, now: u64) -> (r: PathDecision)
        ensures
            if none_serves(self@, dst) {
                r == (PathDecision::Relay { reason: RelayReason::NoDestination })
            } else {
                exists|i: int| is_first_serving(self@, dst, i) && r == path_to(self@[i], now)
            },
    {
        match self.lookup_by_dst(dst) {
            None => PathDecision::Relay { reason: RelayReason::NoDestination },
            Some(entry) => {
                let unusable = PathDecision::Relay {
                    reason: RelayReason::NoLiveSlot {
                        ipv6: entry.ipv6_slot.fault(),
                        stun: entry.stun_slot.fault(),
                    },
                };
                if entry.ipv6_slot.live(now) {
                    match entry.ipv6_slot.addr {
                        Some(addr) => PathDecision::Direct { addr, via: Transport::Ipv6 },
                        None => unusable,
                    }
                } else if entry.stun_slot.live(now) {
                    match entry.stun_slot.addr {
                        Some(addr) => PathDecision::Direct { addr, via: Transport::Stun },
                        None => unusable,
                    }
                } else {
                    unusable
                }
            },
        }
    }

    /// The addresses to probe on a transport: the slot address of every
    /// peer that has one.
    pub fn probe_addrs(&self, via: Transport) -> (r: Vec<SocketAddress>)
        ensures
            r@ == probe_targets(self@, via),
    {
        let mut out: Vec<SocketAddress> = Vec::new();
        let mut i: usize = 0;
        assert(self@.take(0) =~= Seq::<PeerEntryView>::empty());
        while i < self.peers.len()
            invariant
                i <= self.peers@.len(),
                out@ == probe_targets(self@.take(i as int), via),
            decreases self.peers.len() - i,
        {
            proof {
                let next = self@.take(i + 1);
                assert(next.drop_last() =~= self@.take(i as int));
                assert(next.last() == self@[i as int]);
            }
            let slot = match via {
                Transport::Ipv6 => self.peers[i].ipv6_slot,
                Transport::Stun => self.peers[i].stun_slot,
            };
            if let Some(addr) = slot.addr {
                out.push(addr);
            }
            i += 1;
        }
        assert(self@.take(i as int) =~= self@);
        out
    }

    /// The probe to send on a transport: it names this client.
    pub fn probe_frame(&self, via: Transport) -> (r: Frame)
        ensures
            r@ == (match via {
                Transport::Ipv6 => FrameView::ProbeIPv6 { identity: self.identity() },
                Transport::Stun => FrameView::ProbeHolePunch { identity: self.identity() },
            }),
    {
        match via {
            Transport::Ipv6 => Frame::ProbeIPv6(ProbeIPv6Frame { identity: self.identity.clone() }),
            Transport::Stun => Frame::ProbeHolePunch(
                ProbeHolePunchFrame { identity: self.identity.clone() },
            ),
        }
    }

    /// The state of every peer's slots, in the order of the registry.
    pub fn get_status(&self) -> (r: Vec<PeerStatus>)
        ensures
            r@.len() == self@.len(),
            forall|i: int| 0 <= i < r@.len() ==> (#[trigger] r@[i]).shows(self@[i]),
    {
        let mut out: Vec<PeerStatus> = Vec::new();
        let mut i: usize = 0;
        while i < self.peers.len()
            invariant
                i <= self.peers@.len(),
                out@.len() == i,
                forall|k: int| 0 <= k < i ==> (#[trigger] out@[k]).shows(self@[k]),
            decreases self.peers.len() - i,
        {
            let peer = &self.peers[i];
            out.push(
                PeerStatus {
                    identity: peer.identity.clone(),
                    ipv6_addr: peer.ipv6_slot.addr,
                    ipv6_last_active: peer.ipv6_slot.last_seen,
                    stun_addr: peer.stun_slot.addr,
                    stun_last_active: peer.stun_slot.last_seen,
                },
            );
            i += 1;
        }
        out
    }
}

} // verus!
