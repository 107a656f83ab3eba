use rustun::codec::frame::DataFrame;
use rustun::codec::frame::Frame;
use rustun::codec::frame::HandshakeFrame;
use rustun::codec::frame::KeepAliveFrame;
use rustun::codec::frame::ProbeIPv6Frame;
use rustun::network::addr::ipv4_from_octets;
use rustun::network::connection_manager::ConnectionManager;
use rustun::network::connection_manager::ConnectionMeta;
use rustun::server::client_manager::ClientConfig;
use rustun::server::client_manager::ClientManager;
use rustun::server::conf_agent::accepted;
use rustun::server::conf_agent::report_connections;
use rustun::server::server::DropReason;
use rustun::server::server::Handler;
use rustun::server::server::ProtocolError;
use rustun::server::server::ServerAction;

fn client(cluster: &str, identity: &str, private_ip: &str, ciders: &[&str]) -> ClientConfig {
    ClientConfig {
        cluster: cluster.to_string(),
        identity: identity.to_string(),
        private_ip: private_ip.to_string(),
        mask: "255.255.255.0".to_string(),
        gateway: "10.0.1.1".to_string(),
        ciders: ciders.iter().map(|c| c.to_string()).collect(),
        cider_mapping: Vec::new(),
    }
}

fn meta(cluster: &str, identity: &str, private_ip: &str, ciders: &[&str], conn_id: u64) -> ConnectionMeta {
    ConnectionMeta {
        cluster: cluster.to_string(),
        identity: identity.to_string(),
        private_ip: private_ip.to_string(),
        mask: "255.255.255.0".to_string(),
        gateway: "10.0.1.1".to_string(),
        ciders: ciders.iter().map(|c| c.to_string()).collect(),
        ipv6: String::new(),
        port: 0,
        stun_ip: String::new(),
        stun_port: 0,
        last_active: 0,
        conn_id,
    }
}

fn packet(dst: [u8; 4]) -> Vec<u8> {
    let mut p = vec![0u8; 28];
    p[0] = 0x45;
    p[12..16].copy_from_slice(&[10, 0, 1, 2]);
    p[16..20].copy_from_slice(&dst);
    p
}

fn keepalive(identity: &str, ipv6: &str, port: u16, stun_ip: &str, stun_port: u16) -> Frame {
    Frame::KeepAlive(KeepAliveFrame {
        identity: identity.to_string(),
        ipv6: ipv6.to_string(),
        port,
        stun_ip: stun_ip.to_string(),
        stun_port,
        peer_details: Vec::new(),
    })
}

fn handshake(
    handler: &mut Handler,
    identity: &str,
    clients: &ClientManager,
    connections: &mut ConnectionManager,
    now: u64,
) -> Option<rustun::codec::frame::HandshakeReplyFrame> {
    handler.accept(&HandshakeFrame { identity: identity.to_string() }, clients, connections, now)
}

#[test]
fn server_cluster_isolation() {
    // A (cluster 1) and B (cluster 2) hold the same private address. A sends
    // a packet to that address: no other peer of cluster 1 has it, so the
    // packet falls, and B gets nothing.
    let mut clients = ClientManager::new();
    clients.add_clients_config(vec![
        client("1", "A", "10.0.1.2", &[]),
        client("2", "B", "10.0.1.2", &[]),
    ]);
    let mut connections = ConnectionManager::new();
    let mut a = Handler::new(1);
    let mut b = Handler::new(2);
    assert!(handshake(&mut a, "A", &clients, &mut connections, 100).is_some());
    assert!(handshake(&mut b, "B", &clients, &mut connections, 100).is_some());

    let action = a.handle_frame(
        Frame::Data(DataFrame { payload: packet([10, 0, 1, 2]) }),
        &clients,
        &mut connections,
        101,
    );
    assert!(matches!(action, ServerAction::Drop(DropReason::NoRoute)));
}

#[test]
fn data_is_routed_inside_the_cluster_only() {
    let mut clients = ClientManager::new();
    clients.add_clients_config(vec![
        client("1", "A", "10.0.1.2", &[]),
        client("2", "X", "10.0.1.3", &["192.168.0.0/16"]),
        client("1", "C", "10.0.1.3", &["192.168.7.0/24"]),
    ]);
    let mut connections = ConnectionManager::new();
    let mut a = Handler::new(11);
    let mut x = Handler::new(22);
    let mut c = Handler::new(33);
    handshake(&mut a, "A", &clients, &mut connections, 1);
    handshake(&mut x, "X", &clients, &mut connections, 1);
    handshake(&mut c, "C", &clients, &mut connections, 1);

    // X of cluster 2 connected before C and serves the address too, but the
    // packet of A stays in cluster 1.
    for dst in [[10, 0, 1, 3], [192, 168, 7, 9]] {
        let action = a.handle_frame(
            Frame::Data(DataFrame { payload: packet(dst) }),
            &clients,
            &mut connections,
            2,
        );
        match action {
            ServerAction::Forward { to, frame: Frame::Data(data) } => {
                assert_eq!(to, 33);
                assert_eq!(data.payload, packet(dst));
            }
            other => panic!("unexpected {:?}", other),
        }
    }
    // 192.168.8.9 is served in cluster 2 only.
    let action = a.handle_frame(
        Frame::Data(DataFrame { payload: packet([192, 168, 8, 9]) }),
        &clients,
        &mut connections,
        2,
    );
    assert!(matches!(action, ServerAction::Drop(DropReason::NoRoute)));
    // And from X it reaches nobody in its own cluster but itself.
    let action = x.handle_frame(
        Frame::Data(DataFrame { payload: packet([192, 168, 8, 9]) }),
        &clients,
        &mut connections,
        2,
    );
    assert!(matches!(action, ServerAction::Drop(DropReason::NoRoute)));
}

#[test]
fn malformed_data_falls() {
    let mut clients = ClientManager::new();
    clients.add_clients_config(vec![client("1", "A", "10.0.1.2", &[])]);
    let mut connections = ConnectionManager::new();
    let mut a = Handler::new(1);
    handshake(&mut a, "A", &clients, &mut connections, 1);
    let action = a.handle_frame(
        Frame::Data(DataFrame { payload: vec![0x45; 19] }),
        &clients,
        &mut connections,
        2,
    );
    assert!(matches!(action, ServerAction::Drop(DropReason::InvalidPacket)));
    let mut v6 = packet([10, 0, 1, 3]);
    v6[0] = 0x60;
    let action =
        a.handle_frame(Frame::Data(DataFrame { payload: v6 }), &clients, &mut connections, 2);
    assert!(matches!(action, ServerAction::Drop(DropReason::NotIpv4)));
    // Before the handshake nothing is routed.
    let fresh = Handler::new(9);
    let action = fresh.handle_frame(
        Frame::Data(DataFrame { payload: packet([10, 0, 1, 2]) }),
        &clients,
        &mut connections,
        2,
    );
    assert!(matches!(action, ServerAction::Drop(DropReason::NotReady)));
    // Frames that the server has no use for are ignored.
    let action = a.handle_frame(
        Frame::ProbeIPv6(ProbeIPv6Frame { identity: "A".to_string() }),
        &clients,
        &mut connections,
        2,
    );
    assert!(matches!(action, ServerAction::Ignore));
}

#[test]
fn first_frame_must_be_a_handshake() {
    let hs = Handler::handle_handshake(Frame::Handshake(HandshakeFrame {
        identity: "alice".to_string(),
    }))
    .unwrap();
    assert_eq!(hs.identity, "alice");
    assert_eq!(
        Handler::handle_handshake(keepalive("alice", "", 0, "", 0)).err(),
        Some(ProtocolError::UnexpectedFrame)
    );
    assert_eq!(
        Handler::handle_handshake(Frame::Data(DataFrame { payload: vec![] })).err(),
        Some(ProtocolError::UnexpectedFrame)
    );
}

#[test]
fn handshake_of_an_unknown_identity_gets_no_reply() {
    let mut clients = ClientManager::new();
    clients.add_clients_config(vec![client("1", "A", "10.0.1.2", &[])]);
    let mut connections = ConnectionManager::new();
    let mut h = Handler::new(1);
    assert!(handshake(&mut h, "nobody", &clients, &mut connections, 1).is_none());
    assert_eq!(connections.len(), 0);
    assert!(!h.close(&mut connections));
}

#[test]
fn handshake_reply_lists_the_other_members() {
    let mut clients = ClientManager::new();
    clients.add_clients_config(vec![
        client("1", "A", "10.0.1.2", &["192.168.1.0/24"]),
        client("1", "B", "10.0.1.3", &["192.168.2.0/24"]),
        client("2", "Z", "10.0.9.9", &[]),
        client("1", "C", "10.0.1.4", &[]),
    ]);
    let mut connections = ConnectionManager::new();
    let mut b = Handler::new(7);
    let reply = handshake(&mut b, "B", &clients, &mut connections, 1000).unwrap();
    assert_eq!(reply.private_ip, "10.0.1.3");
    assert_eq!(reply.mask, "255.255.255.0");
    assert_eq!(reply.gateway, "10.0.1.1");
    let ids: Vec<&str> = reply.peer_details.iter().map(|p| p.identity.as_str()).collect();
    assert_eq!(ids, vec!["A", "C"]);
    assert_eq!(reply.peer_details[0].private_ip, "10.0.1.2");
    assert_eq!(reply.peer_details[0].ciders, vec!["192.168.1.0/24".to_string()]);
    // Nobody else is connected yet.
    for p in &reply.peer_details {
        assert_eq!((p.ipv6.as_str(), p.port, p.stun_ip.as_str(), p.stun_port, p.last_active), ("", 0, "", 0, 0));
    }
    // B is registered as alive at the time of the handshake.
    let table = connections.dump_connection_info();
    assert_eq!(table.len(), 1);
    assert_eq!(table[0].identity, "B");
    assert_eq!(table[0].cluster, "1");
    assert_eq!(table[0].last_active, 1000);
    assert_eq!(table[0].conn_id, 7);
    assert_eq!(table[0].ipv6, "");

    // A connects later and learns of B's connection.
    b.handle_frame(
        keepalive("B", "2001:db8::2", 51258, "203.0.113.2", 40000),
        &clients,
        &mut connections,
        1010,
    );
    let mut a = Handler::new(8);
    let reply = handshake(&mut a, "A", &clients, &mut connections, 1020).unwrap();
    let b_detail = &reply.peer_details[0];
    assert_eq!(b_detail.identity, "B");
    assert_eq!(b_detail.ipv6, "2001:db8::2");
    assert_eq!(b_detail.port, 51258);
    assert_eq!(b_detail.stun_ip, "203.0.113.2");
    assert_eq!(b_detail.stun_port, 40000);
    assert_eq!(b_detail.last_active, 1010);
    assert_eq!(reply.peer_details[1].identity, "C");
    assert_eq!(reply.peer_details[1].last_active, 0);
}

#[test]
fn keepalive_is_echoed_with_the_current_peers() {
    let mut clients = ClientManager::new();
    clients.add_clients_config(vec![
        client("1", "A", "10.0.1.2", &[]),
        client("1", "B", "10.0.1.3", &[]),
    ]);
    let mut connections = ConnectionManager::new();
    let mut a = Handler::new(1);
    let mut b = Handler::new(2);
    handshake(&mut a, "A", &clients, &mut connections, 10);
    handshake(&mut b, "B", &clients, &mut connections, 10);
    b.handle_frame(keepalive("B", "::2", 2, "2.2.2.2", 22), &clients, &mut connections, 20);

    let action =
        a.handle_frame(keepalive("A", "::1", 1, "1.1.1.1", 11), &clients, &mut connections, 30);
    match action {
        ServerAction::Reply(Frame::KeepAlive(reply)) => {
            assert_eq!(reply.identity, "A");
            assert_eq!(reply.ipv6, "::1");
            assert_eq!(reply.port, 1);
            assert_eq!(reply.stun_ip, "1.1.1.1");
            assert_eq!(reply.stun_port, 11);
            assert_eq!(reply.peer_details.len(), 1);
            assert_eq!(reply.peer_details[0].identity, "B");
            assert_eq!(reply.peer_details[0].ipv6, "::2");
            assert_eq!(reply.peer_details[0].stun_port, 22);
            assert_eq!(reply.peer_details[0].last_active, 20);
        }
        other => panic!("unexpected {:?}", other),
    }
    let table = connections.dump_connection_info();
    assert_eq!(table[0].identity, "A");
    assert_eq!(table[0].ipv6, "::1");
    assert_eq!(table[0].last_active, 30);
    assert_eq!(table[1].last_active, 20);
}

#[test]
fn closing_takes_the_connection_out() {
    let mut clients = ClientManager::new();
    clients.add_clients_config(vec![
        client("1", "A", "10.0.1.2", &[]),
        client("1", "B", "10.0.1.3", &[]),
    ]);
    let mut connections = ConnectionManager::new();
    let mut a = Handler::new(1);
    let mut b = Handler::new(2);
    handshake(&mut a, "A", &clients, &mut connections, 10);
    handshake(&mut b, "B", &clients, &mut connections, 10);
    assert!(a.close(&mut connections));
    let table = connections.dump_connection_info();
    assert_eq!(table.len(), 1);
    assert_eq!(table[0].identity, "B");
    assert!(!a.close(&mut connections));
    // B no longer reaches A.
    let action = b.handle_frame(
        Frame::Data(DataFrame { payload: packet([10, 0, 1, 2]) }),
        &clients,
        &mut connections,
        11,
    );
    assert!(matches!(action, ServerAction::Drop(DropReason::NoRoute)));
}

#[test]
fn connection_manager_lookups() {
    let mut table = ConnectionManager::new();
    table.add_connection(meta("1", "A", "10.0.1.2", &["192.168.1.0/24"], 1));
    table.add_connection(meta("2", "B", "10.0.1.2", &[], 2));
    table.add_connection(meta("1", "C", "10.0.1.3", &["192.168.0.0/16"], 3));
    let dst = ipv4_from_octets(10, 0, 1, 2);
    assert_eq!(table.get_connection(&"1".to_string(), dst).unwrap().identity, "A");
    assert_eq!(table.get_connection(&"2".to_string(), dst).unwrap().identity, "B");
    assert!(table.get_connection(&"3".to_string(), dst).is_none());
    let dst = ipv4_from_octets(192, 168, 1, 1);
    assert_eq!(table.get_connection(&"1".to_string(), dst).unwrap().identity, "A");
    assert_eq!(table.route(&"1".to_string(), &"A".to_string(), dst).unwrap().identity, "C");
    assert!(table.route(&"2".to_string(), &"A".to_string(), dst).is_none());
    assert!(table
        .get_connection_by_identity(&"1".to_string(), &"B".to_string())
        .is_none());
    assert_eq!(
        table
            .get_connection_by_identity(&"2".to_string(), &"B".to_string())
            .unwrap()
            .conn_id,
        2
    );
    assert!(meta("1", "A", "10.0.1.2", &["192.168.1.0/24"], 1).match_dst(dst));
    assert!(!meta("1", "A", "10.0.1.2", &["192.168.1.0/24"], 1)
        .match_dst(ipv4_from_octets(192, 168, 2, 1)));

    assert!(table.update_connection_info(
        &"1".to_string(),
        &"C".to_string(),
        "::3".to_string(),
        3,
        String::new(),
        0,
        50
    ));
    // The same addresses again: nothing changed but the time.
    assert!(!table.update_connection_info(
        &"1".to_string(),
        &"C".to_string(),
        "::3".to_string(),
        3,
        String::new(),
        0,
        60
    ));
    assert!(!table.update_connection_info(
        &"9".to_string(),
        &"C".to_string(),
        "::4".to_string(),
        4,
        String::new(),
        0,
        70
    ));
    let dump = table.dump_connection_info();
    assert_eq!(dump[2].ipv6, "::3");
    assert_eq!(dump[2].last_active, 60);

    assert!(table.del_connection(&"A".to_string()));
    assert!(!table.del_connection(&"A".to_string()));
    assert_eq!(table.len(), 2);
    let table = ConnectionManager::default();
    assert_eq!(table.len(), 0);
}

#[test]
fn client_manager_store() {
    let mut store = ClientManager::new();
    store.add_clients_config(vec![
        client("1", "A", "10.0.1.2", &[]),
        client("1", "B", "10.0.1.3", &[]),
        client("2", "C", "10.0.2.2", &[]),
    ]);
    assert_eq!(store.get_client(&"B".to_string()).unwrap().private_ip, "10.0.1.3");
    assert!(store.get_client(&"Z".to_string()).is_none());
    let others: Vec<String> = store
        .get_cluster_clients_exclude(&"A".to_string())
        .into_iter()
        .map(|c| c.identity)
        .collect();
    assert_eq!(others, vec!["B".to_string()]);
    assert!(store.get_cluster_clients_exclude(&"Z".to_string()).is_empty());
    assert!(store.get_cluster_clients_exclude(&"C".to_string()).is_empty());
    assert_eq!(store.get_cluster_clients(&"1".to_string()).len(), 2);
    assert_eq!(store.get_cluster_clients(&"3".to_string()).len(), 0);

    // A later record for an identity takes the place of the earlier one, in
    // the store and in the list of its cluster.
    store.add_clients_config(vec![client("1", "B", "10.0.1.33", &[])]);
    assert_eq!(store.get_client(&"B".to_string()).unwrap().private_ip, "10.0.1.33");
    let others: Vec<(String, String)> = store
        .get_cluster_clients_exclude(&"A".to_string())
        .into_iter()
        .map(|c| (c.identity, c.private_ip))
        .collect();
    assert_eq!(others, vec![("B".to_string(), "10.0.1.33".to_string())]);
    assert_eq!(store.get_cluster_clients(&"1".to_string()).len(), 2);

    store.del_client(&"B".to_string());
    assert!(store.get_client(&"B".to_string()).is_none());
    assert!(store.get_cluster_clients_exclude(&"A".to_string()).is_empty());
    store.del_client(&"B".to_string());

    store.rewrite_clients_config(vec![client("7", "Q", "10.7.0.1", &[])]);
    assert!(store.get_client(&"A".to_string()).is_none());
    assert_eq!(store.get_cluster_clients(&"1".to_string()).len(), 0);
    assert_eq!(store.get_cluster_clients(&"7".to_string()).len(), 1);
    let store = ClientManager::default();
    assert!(store.get_client(&"Q".to_string()).is_none());
}

#[test]
fn connections_are_reported_by_cluster_number() {
    let mut a = meta("12", "A", "10.0.1.2", &[], 1);
    a.last_active = 500;
    let b = meta("lab", "B", "10.0.1.3", &[], 2);
    let mut c = meta("007", "C", "10.0.1.4", &[], 3);
    c.last_active = 9;
    let report = report_connections(&vec![a, b, c]);
    assert_eq!(report.len(), 2);
    assert_eq!((report[0].cluster_id, report[0].identity.as_str(), report[0].last_active), (12, "A", Some(500)));
    assert_eq!((report[1].cluster_id, report[1].identity.as_str(), report[1].last_active), (7, "C", Some(9)));
    assert!(report_connections(&Vec::new()).is_empty());
    // The cluster number is read as the standard library reads a `u64`.
    let read = |cluster: &str| {
        report_connections(&vec![meta(cluster, "A", "10.0.1.2", &[], 1)])
            .first()
            .map(|u| u.cluster_id)
    };
    assert_eq!(read("0"), Some(0));
    assert_eq!(read("+5"), Some(5));
    assert_eq!(read("18446744073709551615"), Some(u64::MAX));
    assert_eq!(read("018446744073709551615"), Some(u64::MAX));
    assert_eq!(read("18446744073709551616"), None);
    assert_eq!(read(""), None);
    assert_eq!(read("+"), None);
    assert_eq!(read("-5"), None);
    assert_eq!(read("5 "), None);
    assert_eq!(read("1e3"), None);
    assert!(accepted(200));
    assert!(!accepted(201));
    assert!(!accepted(500));
}

#[test]
fn a_keepalive_updates_the_connection_it_came_on() {
    let mut clients = ClientManager::new();
    clients.add_clients_config(vec![
        client("1", "A", "10.0.1.2", &[]),
        client("1", "B", "10.0.1.3", &[]),
    ]);
    let mut connections = ConnectionManager::new();
    let mut a = Handler::new(1);
    let mut b = Handler::new(2);
    handshake(&mut a, "A", &clients, &mut connections, 10);
    handshake(&mut b, "B", &clients, &mut connections, 10);
    // A keepalive on A's connection that names B.
    let action =
        a.handle_frame(keepalive("B", "::66", 6, "6.6.6.6", 66), &clients, &mut connections, 30);
    let table = connections.dump_connection_info();
    assert_eq!((table[0].identity.as_str(), table[0].ipv6.as_str(), table[0].last_active), ("A", "::66", 30));
    assert_eq!((table[1].identity.as_str(), table[1].ipv6.as_str(), table[1].last_active), ("B", "", 10));
    match action {
        ServerAction::Reply(Frame::KeepAlive(reply)) => {
            // The frame is echoed, and the peers are those of A.
            assert_eq!(reply.identity, "B");
            assert_eq!(reply.ipv6, "::66");
            assert_eq!(reply.peer_details.len(), 1);
            assert_eq!(reply.peer_details[0].identity, "B");
        }
        other => panic!("unexpected {:?}", other),
    }
    // Before the handshake a keepalive is echoed with no peers.
    let fresh = Handler::new(3);
    match fresh.handle_frame(keepalive("C", "", 0, "", 0), &clients, &mut connections, 40) {
        ServerAction::Reply(Frame::KeepAlive(reply)) => assert!(reply.peer_details.is_empty()),
        other => panic!("unexpected {:?}", other),
    }
}

#[test]
fn a_client_added_again_is_listed_once() {
    let mut store = ClientManager::new();
    store.add_clients_config(vec![
        client("1", "a", "10.0.1.2", &[]),
        client("1", "b", "10.0.1.3", &[]),
        client("1", "b", "10.0.1.4", &["192.168.4.0/24"]),
    ]);
    store.add_clients_config(vec![client("1", "b", "10.0.1.5", &[])]);
    let others = store.get_cluster_clients_exclude(&"a".to_string());
    assert_eq!(others.len(), 1);
    assert_eq!(others[0].identity, "b");
    assert_eq!(others[0].private_ip, store.get_client(&"b".to_string()).unwrap().private_ip);
    assert_eq!(others[0].private_ip, "10.0.1.5");
    assert!(others[0].ciders.is_empty());

    // A client that moves to another cluster leaves the first one.
    store.add_clients_config(vec![client("2", "b", "10.0.2.5", &[])]);
    assert!(store.get_cluster_clients_exclude(&"a".to_string()).is_empty());
    assert_eq!(store.get_cluster_clients(&"1".to_string()).len(), 1);
    assert_eq!(store.get_cluster_clients(&"2".to_string()).len(), 1);
    assert!(store.get_cluster_clients_exclude(&"b".to_string()).is_empty());

    // The handshake reply lists each peer once, as the store holds it.
    let mut store = ClientManager::new();
    store.add_clients_config(vec![
        client("1", "a", "10.0.1.2", &[]),
        client("1", "b", "10.0.1.3", &[]),
    ]);
    store.add_clients_config(vec![client("1", "b", "10.0.1.9", &[])]);
    let mut connections = ConnectionManager::new();
    let mut a = Handler::new(1);
    let reply = handshake(&mut a, "a", &store, &mut connections, 5).unwrap();
    assert_eq!(reply.peer_details.len(), 1);
    assert_eq!(reply.peer_details[0].identity, "b");
    assert_eq!(reply.peer_details[0].private_ip, "10.0.1.9");
}
