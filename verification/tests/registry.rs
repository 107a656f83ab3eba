use rustun::client::p2p::model::PathDecision;
use rustun::client::p2p::model::RelayReason;
use rustun::client::p2p::model::Slot;
use rustun::client::p2p::model::SlotFault;
use rustun::client::p2p::model::Transport;
use rustun::client::p2p::peer::PeerHandler;
use rustun::client::p2p::peer::PeerRoute;
use rustun::client::p2p::CONNECTION_TIMEOUT_MS;
use rustun::codec::frame::DataFrame;
use rustun::codec::frame::Frame;
use rustun::codec::frame::KeepAliveFrame;
use rustun::codec::frame::ProbeHolePunchFrame;
use rustun::codec::frame::ProbeIPv6Frame;
use rustun::network::addr::ipv4_from_octets;
use rustun::network::addr::IpAddress;
use rustun::network::addr::SocketAddress;

fn v6(n: u128, port: u16) -> SocketAddress {
    SocketAddress { ip: IpAddress::V6(n), port }
}

fn v4(a: u8, b: u8, c: u8, d: u8, port: u16) -> SocketAddress {
    SocketAddress { ip: IpAddress::V4(ipv4_from_octets(a, b, c, d)), port }
}

fn route(
    identity: &str,
    private_ip: &str,
    ciders: &[&str],
    ipv6: Option<SocketAddress>,
    stun: Option<SocketAddress>,
) -> PeerRoute {
    PeerRoute {
        identity: identity.to_string(),
        private_ip: private_ip.to_string(),
        ciders: ciders.iter().map(|c| c.to_string()).collect(),
        ipv6,
        stun,
    }
}

fn slots(registry: &PeerHandler) -> Vec<(String, Slot, Slot)> {
    registry
        .get_status()
        .into_iter()
        .map(|s| {
            (
                s.identity,
                Slot { addr: s.ipv6_addr, last_seen: s.ipv6_last_active },
                Slot { addr: s.stun_addr, last_seen: s.stun_last_active },
            )
        })
        .collect()
}

#[test]
fn peer_lookup_by_private_ip_and_cidr() {
    let mut registry = PeerHandler::new("me".to_string());
    registry.rewrite_peers(vec![route("peer", "10.0.1.5", &["192.168.10.0/24"], None, None)]);

    let found = registry.lookup_by_dst(ipv4_from_octets(10, 0, 1, 5)).unwrap();
    assert_eq!(found.identity, "peer");
    let found = registry.lookup_by_dst(ipv4_from_octets(192, 168, 10, 77)).unwrap();
    assert_eq!(found.identity, "peer");
    assert!(registry.lookup_by_dst(ipv4_from_octets(8, 8, 8, 8)).is_none());
    // The edges of the range.
    assert!(registry.lookup_by_dst(ipv4_from_octets(192, 168, 10, 0)).is_some());
    assert!(registry.lookup_by_dst(ipv4_from_octets(192, 168, 10, 255)).is_some());
    assert!(registry.lookup_by_dst(ipv4_from_octets(192, 168, 11, 0)).is_none());
    assert!(registry.lookup_by_dst(ipv4_from_octets(192, 168, 9, 255)).is_none());
}

#[test]
fn lookup_is_none_exactly_when_nothing_matches() {
    let mut registry = PeerHandler::new("me".to_string());
    assert!(registry.lookup_by_dst(ipv4_from_octets(10, 0, 0, 1)).is_none());
    registry.rewrite_peers(vec![
        route("a", "10.0.0.1", &[], None, None),
        route("b", "10.0.0.2", &["172.16.0.0/12", "not a cidr", "fd00::/8"], None, None),
        route("c", "10.0.0.3", &["0.0.0.0/0"], None, None),
    ]);
    assert_eq!(registry.lookup_by_dst(ipv4_from_octets(10, 0, 0, 1)).unwrap().identity, "a");
    assert_eq!(registry.lookup_by_dst(ipv4_from_octets(10, 0, 0, 2)).unwrap().identity, "b");
    assert_eq!(registry.lookup_by_dst(ipv4_from_octets(172, 31, 255, 255)).unwrap().identity, "b");
    // The default route of c takes everything else.
    assert_eq!(registry.lookup_by_dst(ipv4_from_octets(172, 32, 0, 0)).unwrap().identity, "c");
    assert_eq!(registry.lookup_by_dst(ipv4_from_octets(8, 8, 8, 8)).unwrap().identity, "c");
}

#[test]
fn lookup_takes_the_first_of_overlapping_peers() {
    let mut registry = PeerHandler::new("me".to_string());
    registry.rewrite_peers(vec![
        route("first", "10.0.0.1", &["192.168.0.0/16"], None, None),
        route("second", "10.0.0.2", &["192.168.1.0/24"], None, None),
    ]);
    for _ in 0..3 {
        assert_eq!(
            registry.lookup_by_dst(ipv4_from_octets(192, 168, 1, 9)).unwrap().identity,
            "first"
        );
    }
}

#[test]
fn selector_prefers_live_p2p() {
    // ipv6 slot live (seen 2 s ago), stun slot stale (seen 30 s ago).
    let now: u64 = 100_000;
    let ipv6 = v6(0x2001_0db8_0000_0000_0000_0000_0000_0001, 51258);
    let stun = v4(203, 0, 113, 7, 51259);
    let mut registry = PeerHandler::new("me".to_string());
    registry.rewrite_peers(vec![route("peer", "10.0.1.5", &[], None, None)]);
    assert!(registry.record_probe_stun(&"peer".to_string(), stun, now - 30_000));
    assert!(registry.record_probe_ipv6(&"peer".to_string(), ipv6, now - 2_000));
    assert_eq!(
        registry.select_path(ipv4_from_octets(10, 0, 1, 5), now),
        PathDecision::Direct { addr: ipv6, via: Transport::Ipv6 }
    );
}

#[test]
fn selector_falls_back_to_relay() {
    // Both slots have an address and never responded.
    let ipv6 = v6(1, 51258);
    let stun = v4(203, 0, 113, 7, 51259);
    let mut registry = PeerHandler::new("me".to_string());
    registry.rewrite_peers(vec![route("peer", "10.0.1.5", &[], Some(ipv6), Some(stun))]);
    assert_eq!(
        registry.select_path(ipv4_from_octets(10, 0, 1, 5), 1_000),
        PathDecision::Relay {
            reason: RelayReason::NoLiveSlot {
                ipv6: SlotFault::NeverResponded,
                stun: SlotFault::NeverResponded
            }
        }
    );
}

#[test]
fn selector_uses_stun_when_ipv6_is_stale() {
    let now: u64 = 100_000;
    let ipv6 = v6(1, 51258);
    let stun = v4(203, 0, 113, 7, 51259);
    let mut registry = PeerHandler::new("me".to_string());
    registry.rewrite_peers(vec![route("peer", "10.0.1.5", &[], None, None)]);
    registry.record_probe_ipv6(&"peer".to_string(), ipv6, now - 15_001);
    registry.record_probe_stun(&"peer".to_string(), stun, now - 15_000);
    assert_eq!(
        registry.select_path(ipv4_from_octets(10, 0, 1, 5), now),
        PathDecision::Direct { addr: stun, via: Transport::Stun }
    );
    // One millisecond later the stun slot is stale too.
    assert_eq!(
        registry.select_path(ipv4_from_octets(10, 0, 1, 5), now + 1),
        PathDecision::Relay {
            reason: RelayReason::NoLiveSlot {
                ipv6: SlotFault::SlotExpired,
                stun: SlotFault::SlotExpired
            }
        }
    );
}

#[test]
fn selector_reasons_for_the_relay() {
    let mut registry = PeerHandler::new("me".to_string());
    registry.rewrite_peers(vec![route("peer", "10.0.1.5", &[], None, None)]);
    assert_eq!(
        registry.select_path(ipv4_from_octets(10, 0, 1, 6), 0),
        PathDecision::Relay { reason: RelayReason::NoDestination }
    );
    assert_eq!(
        registry.select_path(ipv4_from_octets(10, 0, 1, 5), 0),
        PathDecision::Relay {
            reason: RelayReason::NoLiveSlot {
                ipv6: SlotFault::NoAddress,
                stun: SlotFault::NoAddress
            }
        }
    );
    registry.update_peer(&"peer".to_string(), None, Some(v4(9, 9, 9, 9, 9)));
    assert_eq!(
        registry.select_path(ipv4_from_octets(10, 0, 1, 5), 0),
        PathDecision::Relay {
            reason: RelayReason::NoLiveSlot {
                ipv6: SlotFault::NoAddress,
                stun: SlotFault::NeverResponded
            }
        }
    );
}

#[test]
fn a_probe_makes_the_slot_live_for_the_whole_window() {
    let t: u64 = 5_000;
    let a = v6(7, 51258);
    let mut registry = PeerHandler::new("me".to_string());
    registry.rewrite_peers(vec![route("peer", "10.0.1.5", &[], None, None)]);
    assert!(registry.record_probe_ipv6(&"peer".to_string(), a, t));
    let (_, ipv6, stun) = slots(&registry)[0].clone();
    assert_eq!(ipv6, Slot { addr: Some(a), last_seen: Some(t) });
    assert_eq!(stun, Slot { addr: None, last_seen: None });
    for later in [t, t + 1, t + 7_500, t + CONNECTION_TIMEOUT_MS] {
        assert!(ipv6.live(later));
        assert_eq!(
            registry.select_path(ipv4_from_octets(10, 0, 1, 5), later),
            PathDecision::Direct { addr: a, via: Transport::Ipv6 }
        );
    }
    assert!(!ipv6.live(t + CONNECTION_TIMEOUT_MS + 1));
    assert_eq!(CONNECTION_TIMEOUT_MS, 15_000);
}

#[test]
fn a_probe_from_another_address_rebinds_the_slot() {
    let mut registry = PeerHandler::new("me".to_string());
    registry.rewrite_peers(vec![route("peer", "10.0.1.5", &[], Some(v6(1, 1)), None)]);
    assert!(registry.record_probe_ipv6(&"peer".to_string(), v6(2, 2), 10));
    assert_eq!(slots(&registry)[0].1, Slot { addr: Some(v6(2, 2)), last_seen: Some(10) });
    // A probe of an unknown peer changes nothing.
    let before = slots(&registry);
    assert!(!registry.record_probe_ipv6(&"stranger".to_string(), v6(3, 3), 20));
    assert!(!registry.record_probe_stun(&"stranger".to_string(), v4(1, 2, 3, 4, 5), 20));
    assert_eq!(slots(&registry), before);
    assert_eq!(registry.len(), 1);
}

#[test]
fn rewrite_with_an_empty_list_forgets_everything() {
    let mut registry = PeerHandler::new("me".to_string());
    registry.rewrite_peers(vec![
        route("a", "10.0.0.1", &["192.168.1.0/24"], Some(v6(1, 1)), Some(v4(1, 1, 1, 1, 1))),
        route("b", "10.0.0.2", &[], None, None),
    ]);
    registry.record_probe_ipv6(&"a".to_string(), v6(1, 1), 100);
    assert_eq!(registry.len(), 2);
    registry.rewrite_peers(Vec::new());
    assert_eq!(registry.len(), 0);
    assert!(registry.get_status().is_empty());
    assert!(registry.lookup_by_dst(ipv4_from_octets(10, 0, 0, 1)).is_none());
    assert!(registry.probe_addrs(Transport::Ipv6).is_empty());
    assert!(!registry.record_recv(v6(1, 1), 200));
    assert!(!registry.contains(&"a".to_string()));
}

#[test]
fn rewrite_starts_every_slot_unseen() {
    let mut registry = PeerHandler::new("me".to_string());
    registry.rewrite_peers(vec![route("a", "10.0.0.1", &[], Some(v6(1, 1)), None)]);
    registry.record_probe_ipv6(&"a".to_string(), v6(1, 1), 100);
    registry.rewrite_peers(vec![route("a", "10.0.0.1", &[], Some(v6(1, 1)), None)]);
    assert_eq!(
        slots(&registry),
        vec![(
            "a".to_string(),
            Slot { addr: Some(v6(1, 1)), last_seen: None },
            Slot { addr: None, last_seen: None }
        )]
    );
}

#[test]
fn rewrite_twice_is_rewrite_once() {
    let list = || {
        vec![
            route("a", "10.0.0.1", &["192.168.1.0/24"], Some(v6(1, 1)), None),
            route("b", "10.0.0.2", &[], None, Some(v4(9, 9, 9, 9, 9))),
            route("a", "10.0.0.9", &[], Some(v6(2, 2)), None),
        ]
    };
    let mut once = PeerHandler::new("me".to_string());
    once.rewrite_peers(list());
    let mut twice = PeerHandler::new("me".to_string());
    twice.rewrite_peers(list());
    twice.rewrite_peers(list());
    assert_eq!(slots(&once), slots(&twice));
    // Of two reports for one identity the later one counts, in the place of
    // the first.
    assert_eq!(once.len(), 2);
    assert_eq!(slots(&once)[0].0, "a");
    assert_eq!(slots(&once)[0].1, Slot { addr: Some(v6(2, 2)), last_seen: None });
    assert_eq!(once.lookup_by_dst(ipv4_from_octets(10, 0, 0, 9)).unwrap().identity, "a");
    assert!(once.lookup_by_dst(ipv4_from_octets(10, 0, 0, 1)).is_none());
}

#[test]
fn merge_twice_is_merge_once() {
    let list = || {
        vec![
            route("a", "10.0.0.1", &[], Some(v6(5, 5)), None),
            route("c", "10.0.0.3", &[], None, Some(v4(3, 3, 3, 3, 3))),
            route("a", "10.0.0.1", &[], Some(v6(6, 6)), Some(v4(4, 4, 4, 4, 4))),
        ]
    };
    let start = || {
        let mut registry = PeerHandler::new("me".to_string());
        registry.rewrite_peers(vec![
            route("a", "10.0.0.1", &[], Some(v6(6, 6)), None),
            route("b", "10.0.0.2", &[], Some(v6(7, 7)), None),
        ]);
        registry.record_probe_ipv6(&"a".to_string(), v6(6, 6), 50);
        registry.record_probe_ipv6(&"b".to_string(), v6(7, 7), 60);
        registry
    };
    let mut once = start();
    once.insert_or_update(list());
    let mut twice = start();
    twice.insert_or_update(list());
    twice.insert_or_update(list());
    assert_eq!(slots(&once), slots(&twice));
    assert_eq!(
        slots(&once),
        vec![
            (
                "a".to_string(),
                Slot { addr: Some(v6(6, 6)), last_seen: None },
                Slot { addr: Some(v4(4, 4, 4, 4, 4)), last_seen: None }
            ),
            (
                "b".to_string(),
                Slot { addr: Some(v6(7, 7)), last_seen: Some(60) },
                Slot { addr: None, last_seen: None }
            ),
            (
                "c".to_string(),
                Slot { addr: None, last_seen: None },
                Slot { addr: Some(v4(3, 3, 3, 3, 3)), last_seen: None }
            ),
        ]
    );
}

#[test]
fn merge_keeps_the_clock_of_an_unchanged_address() {
    let mut registry = PeerHandler::new("me".to_string());
    registry.rewrite_peers(vec![route("a", "10.0.0.1", &[], Some(v6(1, 1)), None)]);
    registry.record_probe_ipv6(&"a".to_string(), v6(1, 1), 77);
    // The same address, and no address at all: nothing changes.
    registry.insert_or_update(vec![route("a", "10.0.0.1", &[], Some(v6(1, 1)), None)]);
    registry.insert_or_update(vec![route("a", "10.0.0.1", &[], None, None)]);
    assert_eq!(slots(&registry)[0].1, Slot { addr: Some(v6(1, 1)), last_seen: Some(77) });
    // Another address clears the clock.
    registry.insert_or_update(vec![route("a", "10.0.0.1", &[], Some(v6(1, 2)), None)]);
    assert_eq!(slots(&registry)[0].1, Slot { addr: Some(v6(1, 2)), last_seen: None });
    // A merge does not touch the private address or the ranges of a known peer.
    registry.insert_or_update(vec![route("a", "10.9.9.9", &["1.0.0.0/8"], None, None)]);
    assert!(registry.lookup_by_dst(ipv4_from_octets(10, 0, 0, 1)).is_some());
    assert!(registry.lookup_by_dst(ipv4_from_octets(10, 9, 9, 9)).is_none());
    assert!(registry.lookup_by_dst(ipv4_from_octets(1, 2, 3, 4)).is_none());
}

#[test]
fn update_peer_changes_known_peers_only() {
    let mut registry = PeerHandler::new("me".to_string());
    registry.rewrite_peers(vec![route("a", "10.0.0.1", &[], Some(v6(1, 1)), None)]);
    registry.record_probe_ipv6(&"a".to_string(), v6(1, 1), 5);
    assert!(!registry.update_peer(&"zz".to_string(), Some(v6(9, 9)), None));
    assert_eq!(registry.len(), 1);
    assert!(registry.update_peer(&"a".to_string(), Some(v6(1, 1)), Some(v4(1, 2, 3, 4, 5))));
    assert_eq!(
        slots(&registry),
        vec![(
            "a".to_string(),
            Slot { addr: Some(v6(1, 1)), last_seen: Some(5) },
            Slot { addr: Some(v4(1, 2, 3, 4, 5)), last_seen: None }
        )]
    );
}

#[test]
fn record_recv_sets_the_clock_of_the_matching_slot() {
    let mut registry = PeerHandler::new("me".to_string());
    registry.rewrite_peers(vec![
        route("a", "10.0.0.1", &[], Some(v6(1, 1)), Some(v4(1, 1, 1, 1, 1))),
        route("b", "10.0.0.2", &[], Some(v6(2, 2)), Some(v4(1, 1, 1, 1, 1))),
    ]);
    assert!(registry.record_recv(v6(2, 2), 10));
    assert!(registry.record_recv(v4(1, 1, 1, 1, 1), 20));
    assert!(!registry.record_recv(v4(8, 8, 8, 8, 8), 30));
    assert_eq!(
        slots(&registry),
        vec![
            (
                "a".to_string(),
                Slot { addr: Some(v6(1, 1)), last_seen: None },
                Slot { addr: Some(v4(1, 1, 1, 1, 1)), last_seen: Some(20) }
            ),
            (
                "b".to_string(),
                Slot { addr: Some(v6(2, 2)), last_seen: Some(10) },
                Slot { addr: Some(v4(1, 1, 1, 1, 1)), last_seen: None }
            ),
        ]
    );
}

#[test]
fn probes_are_swallowed_and_other_frames_handed_on() {
    let mut registry = PeerHandler::new("me".to_string());
    registry.rewrite_peers(vec![route("a", "10.0.0.1", &[], None, None)]);
    let out = registry.recv_frame(
        Frame::ProbeIPv6(ProbeIPv6Frame { identity: "a".to_string() }),
        v6(1, 1),
        10,
    );
    assert!(out.is_none());
    let out = registry.recv_frame(
        Frame::ProbeHolePunch(ProbeHolePunchFrame { identity: "a".to_string() }),
        v4(1, 2, 3, 4, 5),
        11,
    );
    assert!(out.is_none());
    assert_eq!(
        slots(&registry)[0],
        (
            "a".to_string(),
            Slot { addr: Some(v6(1, 1)), last_seen: Some(10) },
            Slot { addr: Some(v4(1, 2, 3, 4, 5)), last_seen: Some(11) }
        )
    );
    let out = registry.recv_frame(Frame::Data(DataFrame { payload: vec![1, 2] }), v6(1, 1), 99);
    match out {
        Some(Frame::Data(data)) => assert_eq!(data.payload, vec![1, 2]),
        other => panic!("unexpected {:?}", other),
    }
    assert_eq!(slots(&registry)[0].1.last_seen, Some(99));
    let out = registry.recv_frame(
        Frame::KeepAlive(KeepAliveFrame {
            identity: "x".to_string(),
            ipv6: String::new(),
            port: 0,
            stun_ip: String::new(),
            stun_port: 0,
            peer_details: Vec::new(),
        }),
        v6(8, 8),
        120,
    );
    assert!(matches!(out, Some(Frame::KeepAlive(_))));
    assert_eq!(slots(&registry)[0].1.last_seen, Some(99));
}

#[test]
fn probe_targets_and_probe_frames() {
    let mut registry = PeerHandler::new("me".to_string());
    registry.rewrite_peers(vec![
        route("a", "10.0.0.1", &[], Some(v6(1, 1)), None),
        route("b", "10.0.0.2", &[], None, Some(v4(2, 2, 2, 2, 2))),
        route("c", "10.0.0.3", &[], Some(v6(3, 3)), Some(v4(3, 3, 3, 3, 3))),
    ]);
    assert_eq!(registry.probe_addrs(Transport::Ipv6), vec![v6(1, 1), v6(3, 3)]);
    assert_eq!(
        registry.probe_addrs(Transport::Stun),
        vec![v4(2, 2, 2, 2, 2), v4(3, 3, 3, 3, 3)]
    );
    match registry.probe_frame(Transport::Ipv6) {
        Frame::ProbeIPv6(probe) => assert_eq!(probe.identity, "me"),
        other => panic!("unexpected {:?}", other),
    }
    match registry.probe_frame(Transport::Stun) {
        Frame::ProbeHolePunch(probe) => assert_eq!(probe.identity, "me"),
        other => panic!("unexpected {:?}", other),
    }
}

#[test]
fn slot_liveness() {
    let slot = Slot { addr: Some(v6(1, 1)), last_seen: Some(1_000) };
    assert!(slot.live(1_000));
    assert!(slot.live(16_000));
    assert!(!slot.live(16_001));
    // A clock that reads earlier than the last frame still counts as live.
    assert!(slot.live(999));
    assert!(!Slot { addr: Some(v6(1, 1)), last_seen: None }.live(0));
    assert!(!Slot { addr: None, last_seen: None }.live(0));
    assert!(Slot { addr: Some(v6(1, 1)), last_seen: Some(u64::MAX - 5) }.live(u64::MAX));
}
