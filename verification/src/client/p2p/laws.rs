//! What holds of the registry whatever it holds: a probe makes a slot live,
//! a rewrite forgets everything, and merging or rewriting twice is the same
//! as doing it once.

use vstd::prelude::*;
use crate::client::p2p::model::after_rewrite;
use crate::client::p2p::model::known;
use crate::client::p2p::model::merge_one;
use crate::client::p2p::model::merged;
use crate::client::p2p::model::position;
use crate::client::p2p::model::probed;
use crate::client::p2p::model::registry_wf;
use crate::client::p2p::model::rewritten;
use crate::client::p2p::model::write_one;
use crate::client::p2p::model::PeerEntryView;
use crate::client::p2p::model::PeerRouteView;
use crate::client::p2p::model::Slot;
use crate::client::p2p::model::Transport;
use crate::client::p2p::CONNECTION_TIMEOUT_MS;
use crate::network::addr::SocketAddress;

verus! {

/// After a probe of a known peer came from `source` at time `at`, the slot
/// of that transport is bound to `source` and is live at every time from
/// `at` to `at` plus the timeout, as long as nothing else touches it.
pub proof fn lemma_probe_makes_live(
    peers: Seq<PeerEntryView>,
    via: Transport,
    identity: Seq<char>,
    source: SocketAddress,
    at: u64,
    later: u64,
)
    requires
        registry_wf(peers),
        known(peers, identity),
        at <= later <= at + CONNECTION_TIMEOUT_MS,
    ensures
        known(probed(peers, via, identity, source, at), identity),
        probed(peers, via, identity, source, at)[position(peers, identity)].identity == identity,
        probed(peers, via, identity, source, at)[position(peers, identity)].slot(via).addr == Some(
            source,
        ),
        probed(peers, via, identity, source, at)[position(peers, identity)].slot(via).is_live(
            later,
        ),
{
    let i = position(peers, identity);
    let after = probed(peers, via, identity, source, at);
    assert(after[i].identity == identity);
}

/// A rewrite with no reports leaves an empty registry: no entry, and with
/// it no address and no clock, outlives it.
pub proof fn lemma_rewrite_empty_forgets(peers: Seq<PeerEntryView>)
    ensures
        after_rewrite(peers, Seq::empty()) == Seq::<PeerEntryView>::empty(),
{
}

/// Rewriting twice with the same reports leaves what rewriting once leaves.
pub proof fn lemma_rewrite_idempotent(peers: Seq<PeerEntryView>, routes: Seq<PeerRouteView>)
    ensures
        after_rewrite(after_rewrite(peers, routes), routes) == after_rewrite(peers, routes),
{
}

/// The entry without addresses that stands for a peer before its first
/// report is applied.
spec fn blank(route: PeerRouteView) -> PeerEntryView {
    PeerEntryView {
        identity: route.identity,
        private_ip: route.private_ip,
        ciders: route.ciders,
        ipv6_slot: Slot { addr: None, last_seen: None },
        stun_slot: Slot { addr: None, last_seen: None },
    }
}

/// The address that a report states for a transport.
spec fn reported(route: PeerRouteView, via: Transport) -> Option<SocketAddress> {
    match via {
        Transport::Ipv6 => route.ipv6,
        Transport::Stun => route.stun,
    }
}

/// Whether no identity occurs twice.
spec fn distinct(peers: Seq<PeerEntryView>) -> bool {
    forall|i: int, j: int|
        0 <= i < j < peers.len() ==> (#[trigger] peers[i]).identity != (#[trigger] peers[j]).identity
}

/// Whether a report for `identity` is among `routes`.
spec fn mentions(routes: Seq<PeerRouteView>, identity: Seq<char>) -> bool {
    exists|k: int| 0 <= k < routes.len() && (#[trigger] routes[k]).identity == identity
}

/// The registry with a blank entry added for each identity that the
/// reports bring in, in the order of their first report.
spec fn extended(peers: Seq<PeerEntryView>, routes: Seq<PeerRouteView>) -> Seq<PeerEntryView>
    decreases routes.len(),
{
    if routes.len() == 0 {
        peers
    } else {
        let before = extended(peers, routes.drop_last());
        if known(before, routes.last().identity) {
            before
        } else {
            before.push(blank(routes.last()))
        }
    }
}

/// One entry after every report for its identity was applied to it, in
/// order.
spec fn settled(entry: PeerEntryView, routes: Seq<PeerRouteView>) -> PeerEntryView
    decreases routes.len(),
{
    if routes.len() == 0 {
        entry
    } else {
        let before = settled(entry, routes.drop_last());
        if routes.last().identity == entry.identity {
            routes.last().applied_to(before)
        } else {
            before
        }
    }
}

/// Every entry of `peers` settled under `routes`.
spec fn all_settled(peers: Seq<PeerEntryView>, routes: Seq<PeerRouteView>) -> Seq<PeerEntryView> {
    Seq::new(peers.len(), |i: int| settled(peers[i], routes))
}

/// The last address that the reports state for an identity on a transport.
spec fn last_reported(routes: Seq<PeerRouteView>, identity: Seq<char>, via: Transport) -> Option<
    SocketAddress,
>
    decreases routes.len(),
{
    if routes.len() == 0 {
        None
    } else if routes.last().identity == identity && reported(routes.last(), via) is Some {
        reported(routes.last(), via)
    } else {
        last_reported(routes.drop_last(), identity, via)
    }
}

/// Whether every address that the reports state for an identity on a
/// transport is `addr`.
spec fn all_reported_are(
    routes: Seq<PeerRouteView>,
    identity: Seq<char>,
    via: Transport,
    addr: Option<SocketAddress>,
) -> bool
    decreases routes.len(),
{
    if routes.len() == 0 {
        true
    } else {
        &&& all_reported_are(routes.drop_last(), identity, via, addr)
        &&& (routes.last().identity == identity && reported(routes.last(), via) is Some
            ==> reported(routes.last(), via) == addr)
    }
}

proof fn lemma_last_is_one_of_all(
    routes: Seq<PeerRouteView>,
    identity: Seq<char>,
    via: Transport,
    addr: Option<SocketAddress>,
)
    requires
        all_reported_are(routes, identity, via, addr),
        last_reported(routes, identity, via) is Some,
    ensures
        last_reported(routes, identity, via) == addr,
    decreases routes.len(),
{
    if routes.len() > 0 {
        if !(routes.last().identity == identity && reported(routes.last(), via) is Some) {
            lemma_last_is_one_of_all(routes.drop_last(), identity, via, addr);
        }
    }
}

/// What settling makes of an entry: the identity and the routes stay, each
/// slot ends at the last reported address, and keeps its clock only if no
/// report stated another address than the one it had.
proof fn lemma_settled_slot(entry: PeerEntryView, routes: Seq<PeerRouteView>, via: Transport)
    ensures
        settled(entry, routes).identity == entry.identity,
        settled(entry, routes).private_ip == entry.private_ip,
        settled(entry, routes).ciders == entry.ciders,
        settled(entry, routes).slot(via).addr == (match last_reported(
            routes,
            entry.identity,
            via,
        ) {
            Some(a) => Some(a),
            None => entry.slot(via).addr,
        }),
        settled(entry, routes).slot(via).last_seen == (if all_reported_are(
            routes,
            entry.identity,
            via,
            entry.slot(via).addr,
        ) {
            entry.slot(via).last_seen
        } else {
            None
        }),
    decreases routes.len(),
{
    if routes.len() > 0 {
        let head = routes.drop_last();
        lemma_settled_slot(entry, head, via);
        let before = settled(entry, head);
        if routes.last().identity == entry.identity {
            if all_reported_are(head, entry.identity, via, entry.slot(via).addr)
                && last_reported(head, entry.identity, via) is Some {
                lemma_last_is_one_of_all(head, entry.identity, via, entry.slot(via).addr);
            }
        }
    }
}

/// Settling an entry twice under the same reports is settling it once.
proof fn lemma_settled_twice(entry: PeerEntryView, routes: Seq<PeerRouteView>)
    ensures
        settled(settled(entry, routes), routes) == settled(entry, routes),
{
    let once = settled(entry, routes);
    let twice = settled(once, routes);
    lemma_settled_slot(entry, routes, Transport::Ipv6);
    lemma_settled_slot(entry, routes, Transport::Stun);
    lemma_settled_slot(once, routes, Transport::Ipv6);
    lemma_settled_slot(once, routes, Transport::Stun);
    lemma_settled_slot_twice(entry, routes, Transport::Ipv6);
    lemma_settled_slot_twice(entry, routes, Transport::Stun);
    assert(twice.ipv6_slot == once.ipv6_slot);
    assert(twice.stun_slot == once.stun_slot);
}

proof fn lemma_settled_slot_twice(entry: PeerEntryView, routes: Seq<PeerRouteView>, via: Transport)
    ensures
        settled(settled(entry, routes), routes).slot(via) == settled(entry, routes).slot(via),
{
    let once = settled(entry, routes);
    lemma_settled_slot(entry, routes, via);
    lemma_settled_slot(once, routes, via);
    let id = entry.identity;
    if all_reported_are(routes, id, via, entry.slot(via).addr) && last_reported(routes, id, via)
        is Some {
        lemma_last_is_one_of_all(routes, id, via, entry.slot(via).addr);
    }
    if all_reported_are(routes, id, via, once.slot(via).addr) {
    } else {
        if all_reported_are(routes, id, via, entry.slot(via).addr) {
            assert(once.slot(via).addr == entry.slot(via).addr);
        }
    }
}

/// An entry that no report mentions stays as it is.
proof fn lemma_settled_untouched(entry: PeerEntryView, routes: Seq<PeerRouteView>)
    requires
        !mentions(routes, entry.identity),
    ensures
        settled(entry, routes) == entry,
    decreases routes.len(),
{
    if routes.len() > 0 {
        let head = routes.drop_last();
        assert(routes[routes.len() - 1].identity != entry.identity);
        assert(!mentions(head, entry.identity)) by {
            if mentions(head, entry.identity) {
                let k = choose|k: int| 0 <= k < head.len() && (#[trigger] head[k]).identity
                    == entry.identity;
                assert(routes[k].identity == entry.identity);
            }
        }
        lemma_settled_untouched(entry, head);
    }
}

/// The extended registry starts with the registry, holds no identity
/// twice, and knows exactly the identities of the registry and of the
/// reports.
proof fn lemma_extended(peers: Seq<PeerEntryView>, routes: Seq<PeerRouteView>)
    requires
        distinct(peers),
    ensures
        distinct(extended(peers, routes)),
        extended(peers, routes).len() >= peers.len(),
        forall|i: int| 0 <= i < peers.len() ==> extended(peers, routes)[i] == peers[i],
        forall|id: Seq<char>|
            known(extended(peers, routes), id) <==> known(peers, id) || mentions(routes, id),
        forall|i: int|
            peers.len() <= i < extended(peers, routes).len() ==> (#[trigger] extended(
                peers,
                routes,
            )[i]).ipv6_slot == Slot::unseen(None) && extended(peers, routes)[i].stun_slot
                == Slot::unseen(None),
    decreases routes.len(),
{
    let ext = extended(peers, routes);
    if routes.len() == 0 {
        assert forall|id: Seq<char>| known(ext, id) <==> known(peers, id) || mentions(routes, id) by {
        }
    } else {
        let head = routes.drop_last();
        let last = routes.last();
        let before = extended(peers, head);
        lemma_extended(peers, head);
        assert forall|id: Seq<char>| known(ext, id) <==> known(peers, id) || mentions(routes, id) by {
            if known(ext, id) {
                let i = choose|i: int| 0 <= i < ext.len() && (#[trigger] ext[i]).identity == id;
                if i < before.len() {
                    assert(before[i].identity == id);
                    assert(known(before, id));
                    if mentions(head, id) {
                        let k = choose|k: int| 0 <= k < head.len() && (#[trigger] head[k]).identity
                            == id;
                        assert(routes[k].identity == id);
                    }
                } else {
                    assert(routes[routes.len() - 1].identity == id);
                }
            }
            if known(peers, id) || mentions(routes, id) {
                if known(before, id) {
                    let i = choose|i: int| 0 <= i < before.len() && (#[trigger] before[i]).identity
                        == id;
                    assert(ext[i].identity == id);
                } else {
                    // Not known before: the last report brings it in.
                    if mentions(routes, id) {
                        let k = choose|k: int| 0 <= k < routes.len() && (
                        #[trigger] routes[k]).identity == id;
                        if k < head.len() {
                            assert(head[k].identity == id);
                            assert(mentions(head, id));
                        }
                        assert(last.identity == id);
                        assert(ext[before.len() as int].identity == id);
                    }
                }
            }
        }
        if !known(before, last.identity) {
            assert forall|i: int, j: int| 0 <= i < j < ext.len() implies (#[trigger] ext[i]).identity
                != (#[trigger] ext[j]).identity by {
                if j == before.len() {
                    assert(before[i].identity != last.identity);
                } else {
                    assert(before[i].identity != before[j].identity);
                }
            }
        }
    }
}

/// Merging is settling every entry of the extended registry.
proof fn lemma_merged_is_settled(peers: Seq<PeerEntryView>, routes: Seq<PeerRouteView>)
    requires
        distinct(peers),
    ensures
        merged(peers, routes) == all_settled(extended(peers, routes), routes),
    decreases routes.len(),
{
    let ext = extended(peers, routes);
    if routes.len() == 0 {
        assert(merged(peers, routes) =~= all_settled(ext, routes));
    } else {
        let head = routes.drop_last();
        let last = routes.last();
        let before = extended(peers, head);
        let m = merged(peers, head);
        lemma_merged_is_settled(peers, head);
        lemma_extended(peers, head);
        lemma_extended(peers, routes);
        assert forall|k: int| 0 <= k < before.len() implies (#[trigger] m[k]).identity
            == before[k].identity by {
            lemma_settled_slot(before[k], head, Transport::Ipv6);
        }
        // Both know the same identities.
        assert(known(m, last.identity) == known(before, last.identity)) by {
            if known(m, last.identity) {
                let i = choose|i: int| 0 <= i < m.len() && (#[trigger] m[i]).identity
                    == last.identity;
                assert(before[i].identity == last.identity);
            }
            if known(before, last.identity) {
                let i = choose|i: int| 0 <= i < before.len() && (#[trigger] before[i]).identity
                    == last.identity;
                assert(m[i].identity == last.identity);
            }
        }
        if known(m, last.identity) {
            let i = position(m, last.identity);
            assert(m[i].identity == last.identity);
            assert(before[i].identity == last.identity);
            let target = all_settled(ext, routes);
            let got = merge_one(m, last);
            assert forall|k: int| 0 <= k < got.len() implies got[k] == target[k] by {
                if k != i {
                    if k < i {
                        assert(before[k].identity != before[i].identity);
                    } else {
                        assert(before[i].identity != before[k].identity);
                    }
                }
            }
            assert(got =~= target);
        } else {
            let target = all_settled(ext, routes);
            let got = merge_one(m, last);
            assert(!mentions(head, last.identity));
            lemma_settled_untouched(blank(last), head);
            assert(last.applied_to(blank(last)) == last.fresh());
            assert forall|k: int| 0 <= k < got.len() implies got[k] == target[k] by {
                if k < before.len() {
                    assert(before[k].identity != last.identity) by {
                        if before[k].identity == last.identity {
                            assert(known(before, last.identity));
                        }
                    }
                }
            }
            assert(got =~= target);
        }
    }
}

/// A registry that knows every identity of the reports is not extended by
/// them.
proof fn lemma_extended_of_known(peers: Seq<PeerEntryView>, routes: Seq<PeerRouteView>)
    requires
        forall|k: int| 0 <= k < routes.len() ==> known(peers, (#[trigger] routes[k]).identity),
    ensures
        extended(peers, routes) == peers,
    decreases routes.len(),
{
    if routes.len() > 0 {
        let head = routes.drop_last();
        assert forall|k: int| 0 <= k < head.len() implies known(
            peers,
            (#[trigger] head[k]).identity,
        ) by {
            assert(head[k] == routes[k]);
        }
        lemma_extended_of_known(peers, head);
        assert(known(peers, routes[routes.len() - 1].identity));
    }
}

/// A merge sets no clock: after it, the clock of a slot is the one that the
/// entry had before, or none.
pub proof fn lemma_merge_sets_no_clock(
    peers: Seq<PeerEntryView>,
    routes: Seq<PeerRouteView>,
    via: Transport,
    i: int,
)
    requires
        registry_wf(peers),
        0 <= i < merged(peers, routes).len(),
    ensures
        merged(peers, routes)[i].slot(via).last_seen is None || (i < peers.len() && merged(
            peers,
            routes,
        )[i].slot(via).last_seen == peers[i].slot(via).last_seen),
{
    assert(distinct(peers));
    lemma_merged_is_settled(peers, routes);
    lemma_extended(peers, routes);
    let ext = extended(peers, routes);
    lemma_settled_slot(ext[i], routes, via);
    if i >= peers.len() {
        assert(ext[i].ipv6_slot == Slot::unseen(None));
        assert(ext[i].stun_slot == Slot::unseen(None));
    }
}

/// A merge of reports that tell nothing new changes nothing: when every
/// reported peer is known and every reported address is the one held, the
/// registry stays as it is, clocks included.
pub proof fn lemma_merge_of_held_addresses(peers: Seq<PeerEntryView>, routes: Seq<PeerRouteView>)
    requires
        registry_wf(peers),
        forall|k: int|
            0 <= k < routes.len() ==> {
                let entry = peers[position(peers, (#[trigger] routes[k]).identity)];
                &&& known(peers, routes[k].identity)
                &&& routes[k].ipv6 is Some ==> routes[k].ipv6 == entry.ipv6_slot.addr
                &&& routes[k].stun is Some ==> routes[k].stun == entry.stun_slot.addr
            },
    ensures
        merged(peers, routes) == peers,
    decreases routes.len(),
{
    if routes.len() > 0 {
        let head = routes.drop_last();
        let last = routes.last();
        assert forall|k: int| 0 <= k < head.len() implies {
            let entry = peers[position(peers, (#[trigger] head[k]).identity)];
            &&& known(peers, head[k].identity)
            &&& head[k].ipv6 is Some ==> head[k].ipv6 == entry.ipv6_slot.addr
            &&& head[k].stun is Some ==> head[k].stun == entry.stun_slot.addr
        } by {
            assert(head[k] == routes[k]);
        }
        lemma_merge_of_held_addresses(peers, head);
        assert(last == routes[routes.len() - 1]);
        let i = position(peers, last.identity);
        assert(last.applied_to(peers[i]) == peers[i]);
        assert(merge_one(peers, last) =~= peers);
    }
}

/// A rewrite sets no clock: every entry that it leaves has two unseen
/// slots.
pub proof fn lemma_rewrite_sets_no_clock(routes: Seq<PeerRouteView>, i: int)
    requires
        0 <= i < rewritten(routes).len(),
    ensures
        rewritten(routes)[i].ipv6_slot.last_seen is None,
        rewritten(routes)[i].stun_slot.last_seen is None,
{
    lemma_written_unseen(routes);
}

proof fn lemma_written_unseen(routes: Seq<PeerRouteView>)
    ensures
        forall|i: int|
            0 <= i < rewritten(routes).len() ==> (#[trigger] rewritten(
                routes,
            )[i]).ipv6_slot.last_seen is None && rewritten(routes)[i].stun_slot.last_seen is None,
    decreases routes.len(),
{
    if routes.len() > 0 {
        lemma_written_unseen(routes.drop_last());
        let before = rewritten(routes.drop_last());
        assert(rewritten(routes) == write_one(before, routes.last()));
    }
}

/// Merging the same reports twice leaves what merging them once leaves:
/// the second merge finds every peer known and every address as reported,
/// so it changes no address and clears no clock that the first did not
/// clear.
pub proof fn lemma_merge_idempotent(peers: Seq<PeerEntryView>, routes: Seq<PeerRouteView>)
    requires
        registry_wf(peers),
    ensures
        merged(merged(peers, routes), routes) == merged(peers, routes),
{
    assert(distinct(peers));
    let ext = extended(peers, routes);
    let once = merged(peers, routes);
    lemma_merged_is_settled(peers, routes);
    lemma_extended(peers, routes);
    assert forall|k: int| 0 <= k < ext.len() implies (#[trigger] once[k]).identity
        == ext[k].identity by {
        lemma_settled_slot(ext[k], routes, Transport::Ipv6);
    }
    assert(distinct(once)) by {
        assert forall|i: int, j: int| 0 <= i < j < once.len() implies (#[trigger] once[i]).identity
            != (#[trigger] once[j]).identity by {
            assert(ext[i].identity != ext[j].identity);
        }
    }
    assert forall|k: int| 0 <= k < routes.len() implies known(
        once,
        (#[trigger] routes[k]).identity,
    ) by {
        let id = routes[k].identity;
        assert(mentions(routes, id));
        assert(known(ext, id));
        let i = choose|i: int| 0 <= i < ext.len() && (#[trigger] ext[i]).identity == id;
        assert(once[i].identity == id);
    }
    lemma_extended_of_known(once, routes);
    lemma_merged_is_settled(once, routes);
    let twice = merged(once, routes);
    assert forall|k: int| 0 <= k < once.len() implies twice[k] == once[k] by {
        lemma_settled_twice(ext[k], routes);
    }
    assert(twice =~= once);
}

} // verus!
