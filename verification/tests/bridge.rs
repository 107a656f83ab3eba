use rustun::client::bridge::on_device_packet;
use rustun::client::bridge::on_peer_frame;
use rustun::client::bridge::on_relay_frame;
use rustun::client::bridge::Inbound;
use rustun::client::bridge::Outbound;
use rustun::client::bridge::PacketError;
use rustun::client::p2p::model::Transport;
use rustun::client::p2p::peer::PeerHandler;
use rustun::client::p2p::peer::PeerRoute;
use rustun::codec::frame::DataFrame;
use rustun::codec::frame::Frame;
use rustun::codec::frame::HandshakeFrame;
use rustun::codec::frame::KeepAliveFrame;
use rustun::codec::frame::PeerDetail;
use rustun::codec::frame::PeerUpdateFrame;
use rustun::codec::frame::ProbeIPv6Frame;
use rustun::network::addr::IpAddress;
use rustun::network::addr::SocketAddress;
use rustun::utils::device::DeviceHandler;

fn packet(dst: [u8; 4]) -> Vec<u8> {
    let mut p = vec![0u8; 40];
    p[0] = 0x45;
    p[12..16].copy_from_slice(&[10, 0, 0, 2]);
    p[16..20].copy_from_slice(&dst);
    p
}

fn registry() -> PeerHandler {
    let mut registry = PeerHandler::new("me".to_string());
    registry.rewrite_peers(vec![PeerRoute {
        identity: "peer".to_string(),
        private_ip: "10.0.1.5".to_string(),
        ciders: vec!["192.168.10.0/24".to_string()],
        ipv6: None,
        stun: None,
    }]);
    registry
}

#[test]
fn packets_that_are_no_ipv4_fall() {
    let registry = registry();
    assert!(matches!(
        on_device_packet(Some(&registry), vec![0x45; 19], 0),
        Outbound::Drop(PacketError::TooShort)
    ));
    assert!(matches!(
        on_device_packet(None, Vec::new(), 0),
        Outbound::Drop(PacketError::TooShort)
    ));
    let mut v6 = packet([10, 0, 1, 5]);
    v6[0] = 0x60;
    assert!(matches!(
        on_device_packet(Some(&registry), v6, 0),
        Outbound::Drop(PacketError::NotIpv4)
    ));
}

#[test]
fn packets_go_direct_while_a_slot_is_live() {
    let mut registry = registry();
    let addr = SocketAddress { ip: IpAddress::V6(0x2001_0db8 << 96 | 5), port: 51258 };
    registry.record_probe_ipv6(&"peer".to_string(), addr, 100_000);
    match on_device_packet(Some(&registry), packet([192, 168, 10, 77]), 102_000) {
        Outbound::Direct { addr: to, via, frame: Frame::Data(data) } => {
            assert_eq!(to, addr);
            assert_eq!(via, Transport::Ipv6);
            assert_eq!(data.payload, packet([192, 168, 10, 77]));
        }
        other => panic!("unexpected {:?}", other),
    }
    // Stale after the window: the relay takes over.
    match on_device_packet(Some(&registry), packet([192, 168, 10, 77]), 115_001) {
        Outbound::Relay(Frame::Data(data)) => assert_eq!(data.payload, packet([192, 168, 10, 77])),
        other => panic!("unexpected {:?}", other),
    }
}

#[test]
fn packets_go_by_the_relay_otherwise() {
    let registry = registry();
    // No peer for the destination.
    assert!(matches!(
        on_device_packet(Some(&registry), packet([8, 8, 8, 8]), 0),
        Outbound::Relay(Frame::Data(_))
    ));
    // A peer without a live slot.
    assert!(matches!(
        on_device_packet(Some(&registry), packet([10, 0, 1, 5]), 0),
        Outbound::Relay(Frame::Data(_))
    ));
    // Direct paths switched off.
    match on_device_packet(None, packet([10, 0, 1, 5]), 0) {
        Outbound::Relay(Frame::Data(data)) => assert_eq!(data.payload, packet([10, 0, 1, 5])),
        other => panic!("unexpected {:?}", other),
    }
}

fn detail(identity: &str, ciders: &[&str]) -> PeerDetail {
    PeerDetail {
        identity: identity.to_string(),
        private_ip: "10.0.0.9".to_string(),
        ciders: ciders.iter().map(|c| c.to_string()).collect(),
        ipv6: String::new(),
        port: 0,
        stun_ip: String::new(),
        stun_port: 0,
        last_active: 0,
    }
}

#[test]
fn relay_frames_are_dispatched() {
    match on_relay_frame(Frame::Data(DataFrame { payload: vec![1, 2] }), true) {
        Inbound::WriteDevice(p) => assert_eq!(p, vec![1, 2]),
        other => panic!("unexpected {:?}", other),
    }
    let keepalive = || {
        Frame::KeepAlive(KeepAliveFrame {
            identity: "me".to_string(),
            ipv6: String::new(),
            port: 0,
            stun_ip: String::new(),
            stun_port: 0,
            peer_details: vec![detail("bob", &[])],
        })
    };
    for p2p in [true, false] {
        match on_relay_frame(keepalive(), p2p) {
            Inbound::MergePeers(peers) => {
                assert_eq!(peers.len(), 1);
                assert_eq!(peers[0].identity, "bob");
            }
            other => panic!("unexpected {:?}", other),
        }
    }
    let update = || {
        Frame::PeerUpdate(PeerUpdateFrame {
            identity: "bob".to_string(),
            ipv6: "::2".to_string(),
            port: 2,
            stun_ip: "2.2.2.2".to_string(),
            stun_port: 22,
        })
    };
    match on_relay_frame(update(), true) {
        Inbound::UpdatePeer(u) => {
            assert_eq!(u.identity, "bob");
            assert_eq!(u.ipv6, "::2");
            assert_eq!(u.stun_port, 22);
        }
        other => panic!("unexpected {:?}", other),
    }
    assert!(matches!(on_relay_frame(update(), false), Inbound::Ignore));
    assert!(matches!(
        on_relay_frame(Frame::Handshake(HandshakeFrame { identity: "x".to_string() }), true),
        Inbound::Ignore
    ));
}

#[test]
fn peer_frames_are_dispatched() {
    match on_peer_frame(Frame::Data(DataFrame { payload: vec![7] })) {
        Inbound::WriteDevice(p) => assert_eq!(p, vec![7]),
        other => panic!("unexpected {:?}", other),
    }
    assert!(matches!(
        on_peer_frame(Frame::ProbeIPv6(ProbeIPv6Frame { identity: "x".to_string() })),
        Inbound::Ignore
    ));
}

#[test]
fn traffic_counters_wrap() {
    let mut dev = DeviceHandler::new();
    assert_eq!((dev.rx_bytes(), dev.tx_bytes()), (0, 0));
    dev.recv(1500);
    dev.recv(40);
    dev.send(28);
    assert_eq!((dev.rx_bytes(), dev.tx_bytes()), (1540, 28));
    for _ in 0..2 {
        dev.send(usize::MAX);
    }
    assert_eq!(dev.tx_bytes(), 28u64.wrapping_add(usize::MAX as u64).wrapping_add(usize::MAX as u64));
    assert_eq!(dev.rx_bytes(), 1540);
}

#[test]
fn route_reload_says_what_changes() {
    let mut dev = DeviceHandler::default();
    let changes = dev.reload_route(vec![
        detail("a", &["192.168.1.0/24", "192.168.2.0/24"]),
        detail("b", &["192.168.2.0/24", "10.8.0.0/16"]),
    ]);
    assert!(changes.to_delete.is_empty());
    assert_eq!(changes.to_add, vec!["192.168.1.0/24", "192.168.2.0/24", "10.8.0.0/16"]);
    assert_eq!(dev.get_peer_details().len(), 2);

    let changes = dev.reload_route(vec![
        detail("b", &["10.8.0.0/16", "172.16.0.0/12"]),
        detail("c", &["172.16.0.0/12"]),
    ]);
    assert_eq!(changes.to_delete, vec!["192.168.1.0/24", "192.168.2.0/24"]);
    assert_eq!(changes.to_add, vec!["172.16.0.0/12"]);

    // The same peers again: nothing changes.
    let changes = dev.reload_route(vec![
        detail("b", &["10.8.0.0/16", "172.16.0.0/12"]),
        detail("c", &["172.16.0.0/12"]),
    ]);
    assert!(changes.to_delete.is_empty());
    assert!(changes.to_add.is_empty());

    let changes = dev.reload_route(Vec::new());
    assert_eq!(changes.to_delete, vec!["10.8.0.0/16", "172.16.0.0/12"]);
    assert!(changes.to_add.is_empty());
    assert!(dev.get_peer_details().is_empty());
}

#[test]
fn device_setup_comes_from_the_handshake_reply() {
    let mut dev = DeviceHandler::new();
    let cfg = dev.run(&rustun::codec::frame::HandshakeReplyFrame {
        private_ip: "10.0.0.2".to_string(),
        mask: "255.255.255.0".to_string(),
        gateway: "10.0.0.1".to_string(),
        peer_details: Vec::new(),
    });
    assert_eq!(cfg.ip, "10.0.0.2");
    assert_eq!(cfg.mask, "255.255.255.0");
    assert_eq!(cfg.gateway, "10.0.0.1");
    assert_eq!(cfg.mtu, 1430);
    dev.set_tun_index(Some(3));
    assert_eq!(dev.rx_bytes(), 0);
}
