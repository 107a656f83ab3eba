use rustun::client::config::default_connect_timeout_secs;
use rustun::client::config::default_keep_alive_interval;
use rustun::client::config::default_keep_alive_thresh;
use rustun::client::config::default_server_protocol;
use rustun::client::config::ClientConfig;
use rustun::client::http::models::ClusterPeerInfo;
use rustun::client::http::models::IPv6ConnectionInfo;
use rustun::client::http::models::RelayStatusInfo;
use rustun::client::http::models::STUNConnectionInfo;
use rustun::client::prettylog::megabytes;
use rustun::client::prettylog::peer_presence;
use rustun::client::prettylog::slot_state;
use rustun::client::prettylog::PeerPresence;
use rustun::client::prettylog::SlotState;
use rustun::client::relay::RelayStatus;
use rustun::client::P2P_HOLE_PUNCH_PORT;
use rustun::client::P2P_UDP_PORT;
use rustun::codec::frame::PeerDetail;
use rustun::crypto::parse_crypto_config;
use rustun::crypto::CryptoConfig;
use rustun::crypto::CryptoConfigError;
use rustun::network::addr::IpAddress;
use rustun::network::addr::SocketAddress;
use rustun::utils::sys_route::Platform;
use rustun::utils::sys_route::RouteError;
use rustun::utils::sys_route::SysRoute;

#[test]
fn client_config_defaults() {
    assert_eq!(default_server_protocol(), "tcp");
    assert_eq!(default_connect_timeout_secs(), 5);
    assert_eq!(default_keep_alive_thresh(), 5);
    assert_eq!(default_keep_alive_interval(), 10);
    let cfg = ClientConfig::with_defaults("127.0.0.1:8080".to_string(), "alice".to_string());
    assert_eq!(cfg.server_protocol, "tcp");
    assert_eq!(cfg.server_addr, "127.0.0.1:8080");
    assert_eq!(cfg.connect_timeout_secs, 5);
    assert_eq!(cfg.keep_alive_thresh, 5);
    assert_eq!(cfg.keep_alive_interval, 10);
    assert_eq!(cfg.identity, "alice");
    assert_eq!(P2P_UDP_PORT, 51258);
    assert_eq!(P2P_HOLE_PUNCH_PORT, 51259);
}

#[test]
fn cipher_settings_are_read() {
    assert!(matches!(parse_crypto_config("plain"), Ok(CryptoConfig::Plain)));
    match parse_crypto_config("aes256:secret") {
        Ok(CryptoConfig::Aes256(key)) => assert_eq!(key, "secret"),
        other => panic!("unexpected {:?}", other),
    }
    match parse_crypto_config("chacha20:rustun") {
        Ok(CryptoConfig::ChaCha20Poly1305(key)) => assert_eq!(key, "rustun"),
        other => panic!("unexpected {:?}", other),
    }
    match parse_crypto_config("xor:a:b") {
        Ok(CryptoConfig::Xor(key)) => assert_eq!(key, "a:b"),
        other => panic!("unexpected {:?}", other),
    }
    match parse_crypto_config("aes256:") {
        Ok(CryptoConfig::Aes256(key)) => assert_eq!(key, ""),
        other => panic!("unexpected {:?}", other),
    }
    match parse_crypto_config("chacha20:schlüssel") {
        Ok(CryptoConfig::ChaCha20Poly1305(key)) => assert_eq!(key, "schlüssel"),
        other => panic!("unexpected {:?}", other),
    }
    assert_eq!(parse_crypto_config("xor:").err(), Some(CryptoConfigError::EmptyKey));
    for bad in ["", "plain:", "Plain", "plai", "plainx", "aes256", "aes:key", "xor", "des:key"] {
        assert_eq!(parse_crypto_config(bad).err(), Some(CryptoConfigError::UnknownCipher));
    }
}

#[test]
fn slot_states_for_display() {
    let addr = Some(SocketAddress { ip: IpAddress::V6(1), port: 1 });
    assert_eq!(slot_state(None, None, 0), SlotState::NoAddress);
    assert_eq!(slot_state(None, Some(5), 10), SlotState::NoAddress);
    assert_eq!(slot_state(addr, None, 10), SlotState::Connecting);
    assert_eq!(slot_state(addr, Some(1_000), 3_999), SlotState::Active { seconds_ago: 2 });
    assert_eq!(slot_state(addr, Some(1_000), 15_999), SlotState::Active { seconds_ago: 14 });
    assert_eq!(slot_state(addr, Some(1_000), 16_000), SlotState::Inactive { seconds_ago: 15 });
    assert_eq!(slot_state(addr, Some(1_000), 500), SlotState::Active { seconds_ago: 0 });
}

#[test]
fn peer_presence_for_display() {
    assert_eq!(peer_presence(0, 1_000), PeerPresence::Offline);
    assert_eq!(peer_presence(1_000, 1_000), PeerPresence::Online);
    assert_eq!(peer_presence(1_000, 1_029), PeerPresence::Online);
    assert_eq!(peer_presence(1_000, 1_030), PeerPresence::Warning);
    assert_eq!(peer_presence(1_000, 1_119), PeerPresence::Warning);
    assert_eq!(peer_presence(1_000, 1_120), PeerPresence::Inactive);
    assert_eq!(peer_presence(1_000, 900), PeerPresence::Online);
    assert_eq!(PeerPresence::Offline.label(), "offline");
    assert_eq!(PeerPresence::Online.label(), "online");
    assert_eq!(PeerPresence::Warning.label(), "warning");
    assert_eq!(PeerPresence::Inactive.label(), "inactive");
    assert_eq!(megabytes(0), 0);
    assert_eq!(megabytes(1_048_575), 0);
    assert_eq!(megabytes(1_048_576), 1);
    assert_eq!(megabytes(u64::MAX), 17_592_186_044_415);
}

#[test]
fn status_page_models() {
    let info = RelayStatusInfo::from_status(&RelayStatus {
        rx_error: 1,
        rx_frame: 2,
        tx_frame: 3,
        tx_error: 4,
    });
    assert_eq!(info, RelayStatusInfo { rx_frames: 2, rx_errors: 1, tx_frames: 3, tx_errors: 4 });

    assert!(IPv6ConnectionInfo::new("[::1]:1".to_string(), SlotState::NoAddress).is_none());
    let c = IPv6ConnectionInfo::new("[::1]:1".to_string(), SlotState::Connecting).unwrap();
    assert_eq!((c.address.as_str(), c.connected, c.last_active_seconds_ago), ("[::1]:1", false, None));
    let c = IPv6ConnectionInfo::new("[::1]:1".to_string(), SlotState::Active { seconds_ago: 3 }).unwrap();
    assert_eq!((c.connected, c.last_active_seconds_ago), (true, Some(3)));
    let c = STUNConnectionInfo::new("1.2.3.4:5".to_string(), SlotState::Inactive { seconds_ago: 40 }).unwrap();
    assert_eq!((c.address.as_str(), c.connected, c.last_active_seconds_ago), ("1.2.3.4:5", false, Some(40)));
    assert!(STUNConnectionInfo::new(String::new(), SlotState::NoAddress).is_none());

    let detail = PeerDetail {
        identity: "bob".to_string(),
        private_ip: "10.0.0.3".to_string(),
        ciders: vec!["192.168.3.0/24".to_string()],
        ipv6: "2001:db8::3".to_string(),
        port: 51258,
        stun_ip: String::new(),
        stun_port: 7,
        last_active: 1_000,
    };
    let info = ClusterPeerInfo::from_detail(&detail, 1_050);
    assert_eq!(info.identity, "bob");
    assert_eq!(info.private_ip, "10.0.0.3");
    assert_eq!(info.ciders, vec!["192.168.3.0/24".to_string()]);
    assert_eq!(info.ipv6.as_deref(), Some("2001:db8::3"));
    assert_eq!(info.ipv6_port, Some(51258));
    assert_eq!(info.stun_ip, None);
    assert_eq!(info.stun_port, None);
    assert_eq!(info.last_active, 1_000);
    assert_eq!(info.status, "warning");
    assert_eq!(ClusterPeerInfo::from_detail(&detail, 1_001).status, "online");
    assert_eq!(ClusterPeerInfo::from_detail(&detail, 9_000).status, "inactive");
    let never = PeerDetail { last_active: 0, ..detail };
    assert_eq!(ClusterPeerInfo::from_detail(&never, 9_000).status, "offline");
}

#[test]
fn netmasks_of_prefix_lengths() {
    assert_eq!(SysRoute::prefix_to_netmask(0).unwrap(), "0.0.0.0");
    assert_eq!(SysRoute::prefix_to_netmask(1).unwrap(), "128.0.0.0");
    assert_eq!(SysRoute::prefix_to_netmask(8).unwrap(), "255.0.0.0");
    assert_eq!(SysRoute::prefix_to_netmask(20).unwrap(), "255.255.240.0");
    assert_eq!(SysRoute::prefix_to_netmask(24).unwrap(), "255.255.255.0");
    assert_eq!(SysRoute::prefix_to_netmask(31).unwrap(), "255.255.255.254");
    assert_eq!(SysRoute::prefix_to_netmask(32).unwrap(), "255.255.255.255");
    assert_eq!(SysRoute::prefix_to_netmask(33).err(), Some(RouteError::InvalidPrefixLength));
    assert_eq!(SysRoute::prefix_to_netmask(255).err(), Some(RouteError::InvalidPrefixLength));
}

#[test]
fn cidr_text_is_split() {
    let route = SysRoute::new(Platform::Windows);
    assert_eq!(
        route.parse_cidr("192.168.1.0/24").unwrap(),
        ("192.168.1.0".to_string(), "255.255.255.0".to_string())
    );
    assert_eq!(
        route.parse_cidr("10.0.0.0/8").unwrap(),
        ("10.0.0.0".to_string(), "255.0.0.0".to_string())
    );
    assert_eq!(route.parse_cidr("/0").unwrap(), (String::new(), "0.0.0.0".to_string()));
    // The prefix length is read as the standard library reads a `u8`.
    assert_eq!(
        route.parse_cidr("10.0.0.0/+8").unwrap(),
        ("10.0.0.0".to_string(), "255.0.0.0".to_string())
    );
    assert_eq!(
        route.parse_cidr("10.0.0.0/008").unwrap(),
        ("10.0.0.0".to_string(), "255.0.0.0".to_string())
    );
    for bad in ["+", "++8", "8 ", " 8", "8_", "0x8", "٨", "8.0"] {
        assert_eq!(
            route.parse_cidr(&format!("10.0.0.0/{}", bad)).err(),
            Some(RouteError::InvalidPrefixLength)
        );
    }
    assert_eq!(route.parse_cidr("10.0.0.0").err(), Some(RouteError::InvalidCidr));
    assert_eq!(route.parse_cidr("").err(), Some(RouteError::InvalidCidr));
    assert_eq!(route.parse_cidr("10.0.0.0/8/9").err(), Some(RouteError::InvalidCidr));
    assert_eq!(route.parse_cidr("10.0.0.0/").err(), Some(RouteError::InvalidPrefixLength));
    assert_eq!(route.parse_cidr("10.0.0.0/x").err(), Some(RouteError::InvalidPrefixLength));
    assert_eq!(route.parse_cidr("10.0.0.0/33").err(), Some(RouteError::InvalidPrefixLength));
    assert_eq!(route.parse_cidr("10.0.0.0/256").err(), Some(RouteError::InvalidPrefixLength));
    assert_eq!(route.parse_cidr("10.0.0.0/-1").err(), Some(RouteError::InvalidPrefixLength));
}

#[test]
fn route_commands() {
    let linux = SysRoute::new(Platform::Linux);
    let cmd = linux.add_route("192.168.1.0/24", "10.0.0.2", None).unwrap();
    assert_eq!(cmd.program, "ip");
    assert_eq!(cmd.args, vec!["route", "add", "192.168.1.0/24", "via", "10.0.0.2"]);
    let cmd = linux.del_route("192.168.1.0/24", "10.0.0.2", Some(4)).unwrap();
    assert_eq!(cmd.program, "ip");
    assert_eq!(cmd.args, vec!["route", "del", "192.168.1.0/24", "via", "10.0.0.2"]);

    let mac = SysRoute::new(Platform::MacOs);
    let cmd = mac.add_route("192.168.1.0/24", "10.0.0.2", None).unwrap();
    assert_eq!(cmd.program, "route");
    assert_eq!(cmd.args, vec!["-n", "add", "-net", "192.168.1.0/24", "10.0.0.2"]);
    let cmd = mac.del_route("192.168.1.0/24", "10.0.0.2", None).unwrap();
    assert_eq!(cmd.args, vec!["-n", "delete", "-net", "192.168.1.0/24", "10.0.0.2"]);

    let win = SysRoute::new(Platform::Windows);
    let cmd = win.add_route("192.168.1.0/24", "10.0.0.2", Some(17)).unwrap();
    assert_eq!(cmd.program, "route");
    assert_eq!(
        cmd.args,
        vec!["add", "192.168.1.0", "mask", "255.255.255.0", "10.0.0.2", "if", "17", "metric", "1"]
    );
    let cmd = win.add_route("192.168.1.0/24", "10.0.0.2", None).unwrap();
    assert_eq!(
        cmd.args,
        vec!["add", "192.168.1.0", "mask", "255.255.255.0", "10.0.0.2", "metric", "1"]
    );
    let cmd = win.add_route("10.0.0.0/8", "10.0.0.2", Some(-3)).unwrap();
    assert_eq!(cmd.args[6], "-3");
    for (idx, text) in [
        (0, "0"),
        (9, "9"),
        (10, "10"),
        (-10, "-10"),
        (1005, "1005"),
        (i32::MAX, "2147483647"),
        (i32::MIN, "-2147483648"),
    ] {
        let cmd = win.add_route("10.0.0.0/8", "10.0.0.2", Some(idx)).unwrap();
        assert_eq!(cmd.args[6], text);
    }
    let cmd = win.del_route("192.168.1.0/24", "10.0.0.2", Some(17)).unwrap();
    assert_eq!(cmd.args, vec!["delete", "192.168.1.0", "mask", "255.255.255.0"]);
    assert_eq!(win.add_route("bad", "10.0.0.2", None).err(), Some(RouteError::InvalidCidr));
    assert_eq!(
        win.del_route("1.2.3.4/40", "10.0.0.2", None).err(),
        Some(RouteError::InvalidPrefixLength)
    );
}

#[test]
fn route_commands_for_lists() {
    let linux = SysRoute::new(Platform::Linux);
    let dsts = vec!["192.168.1.0/24".to_string(), "anything".to_string()];
    let cmds = linux.add(dsts.clone(), "10.0.0.2".to_string(), None).unwrap();
    assert_eq!(cmds.len(), 2);
    assert_eq!(cmds[1].args, vec!["route", "add", "anything", "via", "10.0.0.2"]);
    let cmds = linux.del(dsts.clone(), "10.0.0.2".to_string(), None).unwrap();
    assert_eq!(cmds[0].args, vec!["route", "del", "192.168.1.0/24", "via", "10.0.0.2"]);
    assert!(linux.add(Vec::new(), "10.0.0.2".to_string(), None).unwrap().is_empty());

    let win = SysRoute::new(Platform::Windows);
    assert_eq!(
        win.add(dsts.clone(), "10.0.0.2".to_string(), None).err(),
        Some(RouteError::InvalidCidr)
    );
    let dsts = vec!["1.0.0.0/99".to_string(), "anything".to_string()];
    assert_eq!(
        win.del(dsts, "10.0.0.2".to_string(), None).err(),
        Some(RouteError::InvalidPrefixLength)
    );
    let cmds = win
        .add(vec!["1.0.0.0/8".to_string(), "2.0.0.0/16".to_string()], "10.0.0.2".to_string(), Some(2))
        .unwrap();
    assert_eq!(cmds.len(), 2);
    assert_eq!(cmds[1].args[1], "2.0.0.0");
    assert_eq!(cmds[1].args[3], "255.255.0.0");
}
