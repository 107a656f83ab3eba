use rustun::client::p2p::udp_server::handle_inbound;
use rustun::client::p2p::udp_server::handle_outbound;
use rustun::client::p2p::udp_server::SocketKind;
use rustun::codec::errors::FrameError;
use rustun::codec::frame::FrameType;
use rustun::codec::parser::Parser;
use rustun::codec::parser::RawFrame;
use rustun::crypto::chacha20::ChaCha20Poly1305Block;
use rustun::crypto::xor::XorBlock;
use rustun::network::addr::ipv4_from_octets;
use rustun::network::addr::ipv4_text;
use rustun::network::addr::same_addr;
use rustun::network::addr::IpAddress;
use rustun::network::addr::SocketAddress;
use rustun::network::cidr::cidr_contains;
use rustun::network::cidr::net_contains;
use rustun::network::connection_manager::ConnectionMeta;
use rustun::network::tcp_connection::FrameBuffer;
use rustun::network::tcp_connection::TransportError;
use rustun::network::tcp_listener::accept;
use rustun::network::tcp_listener::AcceptDecision;
use rustun::network::tcp_listener::AcceptError;

#[test]
fn dotted_text_of_addresses() {
    assert_eq!(ipv4_text(0), "0.0.0.0");
    assert_eq!(ipv4_text(u32::MAX), "255.255.255.255");
    assert_eq!(ipv4_text(ipv4_from_octets(10, 0, 1, 5)), "10.0.1.5");
    assert_eq!(ipv4_text(ipv4_from_octets(192, 168, 10, 77)), "192.168.10.77");
    assert_eq!(ipv4_text(ipv4_from_octets(1, 20, 100, 9)), "1.20.100.9");
    assert_eq!(ipv4_text(ipv4_from_octets(109, 99, 200, 10)), "109.99.200.10");
    assert_eq!(ipv4_from_octets(1, 2, 3, 4), 0x01020304);
    for n in 0..=255u8 {
        assert_eq!(ipv4_text(ipv4_from_octets(n, 0, 0, n)), format!("{}.0.0.{}", n, n));
    }
}

#[test]
fn socket_addresses() {
    let a = SocketAddress { ip: IpAddress::V4(1), port: 2 };
    let b = SocketAddress { ip: IpAddress::V6(1), port: 2 };
    assert!(a.is_ipv4());
    assert!(!b.is_ipv4());
    assert!(same_addr(Some(a), Some(a)));
    assert!(!same_addr(Some(a), Some(b)));
    assert!(!same_addr(Some(a), None));
    assert!(!same_addr(None, Some(a)));
    assert!(same_addr(None, None));
    assert!(!same_addr(Some(a), Some(SocketAddress { ip: IpAddress::V4(1), port: 3 })));
}

#[test]
fn cidr_matching() {
    let ip = ipv4_from_octets;
    assert!(cidr_contains("192.168.10.0/24", ip(192, 168, 10, 77)));
    assert!(!cidr_contains("192.168.10.0/24", ip(192, 168, 11, 77)));
    assert!(cidr_contains("10.0.0.0/8", ip(10, 255, 255, 255)));
    assert!(!cidr_contains("10.0.0.0/8", ip(11, 0, 0, 0)));
    assert!(cidr_contains("0.0.0.0/0", ip(8, 8, 8, 8)));
    assert!(cidr_contains("1.2.3.4/32", ip(1, 2, 3, 4)));
    assert!(!cidr_contains("1.2.3.4/32", ip(1, 2, 3, 5)));
    // The host bits of the network address do not count.
    assert!(cidr_contains("172.16.123.123/16", ip(172, 16, 0, 1)));
    // Text that is no IPv4 network holds nothing.
    assert!(!cidr_contains("", ip(1, 2, 3, 4)));
    assert!(!cidr_contains("1.2.3.4", ip(1, 2, 3, 4)));
    assert!(!cidr_contains("1.2.3.4/33", ip(1, 2, 3, 4)));
    assert!(!cidr_contains("::/0", ip(1, 2, 3, 4)));
    assert!(!cidr_contains("fd00::/8", ip(1, 2, 3, 4)));
    assert!(!cidr_contains(" 10.0.0.0/8", ip(10, 0, 0, 1)));

    assert!(net_contains(0xc0a80a00, 24, 0xc0a80a4d));
    assert!(!net_contains(0xc0a80a00, 24, 0xc0a80b4d));
    assert!(net_contains(0, 0, u32::MAX));
    assert!(net_contains(u32::MAX, 32, u32::MAX));
    assert!(!net_contains(u32::MAX, 32, u32::MAX - 1));
    assert!(net_contains(0x80000000, 1, 0xffffffff));
    assert!(!net_contains(0x80000000, 1, 0x7fffffff));
    assert!(!net_contains(0, 33, 0));
    assert!(!net_contains(0, 255, 0));
}

fn node(private_ip: &str, ciders: &[&str]) -> ConnectionMeta {
    ConnectionMeta {
        cluster: "1".to_string(),
        identity: "node".to_string(),
        private_ip: private_ip.to_string(),
        mask: String::new(),
        gateway: String::new(),
        ciders: ciders.iter().map(|c| c.to_string()).collect(),
        ipv6: String::new(),
        port: 0,
        stun_ip: String::new(),
        stun_port: 0,
        last_active: 0,
        conn_id: 0,
    }
}

#[test]
fn route_matching() {
    let dst = ipv4_from_octets(10, 0, 1, 5);
    assert!(node("10.0.1.5", &[]).match_dst(dst));
    assert!(!node("10.0.1.6", &[]).match_dst(dst));
    // The private address is compared as text.
    assert!(!node("010.0.1.5", &[]).match_dst(dst));
    assert!(!node("", &[]).match_dst(dst));
    assert!(node("10.0.1.6", &["bad", "10.0.1.0/24"]).match_dst(dst));
    assert!(!node("10.0.1.6", &["bad", "10.0.2.0/24"]).match_dst(dst));
}

#[test]
fn frames_come_out_of_the_stream_one_by_one() {
    let block = XorBlock::from_string("rustun");
    let first = Parser::marshal(
        RawFrame { frame_type: FrameType::Data, payload: vec![1, 2, 3] },
        &block,
    )
    .unwrap();
    let second = Parser::marshal(
        RawFrame { frame_type: FrameType::KeepAlive, payload: b"{}".to_vec() },
        &block,
    )
    .unwrap();
    let mut buffer = FrameBuffer::new();
    assert!(buffer.is_empty());
    assert_eq!(buffer.end_of_stream(), TransportError::Eof);
    assert!(matches!(buffer.parse_frame(&block), Ok(None)));

    // The bytes arrive in pieces.
    buffer.feed(&first[..5]);
    assert_eq!(buffer.len(), 5);
    assert!(matches!(buffer.parse_frame(&block), Ok(None)));
    assert_eq!(buffer.end_of_stream(), TransportError::ConnectionReset);
    buffer.feed(&first[5..10]);
    assert!(matches!(buffer.parse_frame(&block), Ok(None)));
    assert_eq!(buffer.len(), 10);
    buffer.feed(&first[10..]);
    buffer.feed(&second);
    buffer.feed(&first[..4]);

    let frame = buffer.parse_frame(&block).unwrap().unwrap();
    assert_eq!(frame.frame_type, FrameType::Data);
    assert_eq!(frame.payload, vec![1, 2, 3]);
    assert_eq!(buffer.len(), second.len() + 4);
    let frame = buffer.parse_frame(&block).unwrap().unwrap();
    assert_eq!(frame.frame_type, FrameType::KeepAlive);
    assert_eq!(frame.payload, b"{}".to_vec());
    assert_eq!(buffer.len(), 4);
    assert!(matches!(buffer.parse_frame(&block), Ok(None)));
    assert_eq!(buffer.end_of_stream(), TransportError::ConnectionReset);
}

#[test]
fn bad_bytes_end_the_stream_and_stay_in_the_buffer() {
    let block = ChaCha20Poly1305Block::from_string("rustun");
    let mut buffer = FrameBuffer::new();
    buffer.feed(&[0u8; 8]);
    assert_eq!(buffer.parse_frame(&block).err(), Some(FrameError::Invalid));
    assert_eq!(buffer.len(), 8);

    let mut buffer = FrameBuffer::new();
    let mut bytes = Parser::marshal(
        RawFrame { frame_type: FrameType::Data, payload: vec![1, 2, 3] },
        &block,
    )
    .unwrap();
    bytes[20] ^= 1;
    buffer.feed(&bytes);
    assert!(matches!(
        buffer.parse_frame(&block),
        Err(FrameError::DecryptionFailed(_))
    ));
    assert_eq!(buffer.len(), bytes.len());
}

#[test]
fn accept_backs_off_and_gives_up() {
    assert_eq!(
        accept(AcceptError::ConnectionAborted, 1),
        AcceptDecision::Retry { wait_secs: 1, next_backoff: 2 }
    );
    assert_eq!(
        accept(AcceptError::ConnectionReset, 8),
        AcceptDecision::Retry { wait_secs: 8, next_backoff: 16 }
    );
    assert_eq!(
        accept(AcceptError::WouldBlock, 64),
        AcceptDecision::Retry { wait_secs: 64, next_backoff: 128 }
    );
    assert_eq!(accept(AcceptError::WouldBlock, 128), AcceptDecision::GiveUp);
    assert_eq!(accept(AcceptError::WouldBlock, 65), AcceptDecision::GiveUp);
    assert_eq!(accept(AcceptError::Other, 1), AcceptDecision::GiveUp);
    // Seven retries in all.
    let mut backoff = 1;
    let mut waits = Vec::new();
    while let AcceptDecision::Retry { wait_secs, next_backoff } =
        accept(AcceptError::ConnectionReset, backoff)
    {
        waits.push(wait_secs);
        backoff = next_backoff;
    }
    assert_eq!(waits, vec![1, 2, 4, 8, 16, 32, 64]);
}

#[test]
fn datagrams_leave_by_the_socket_of_their_family() {
    assert_eq!(
        handle_outbound(&SocketAddress { ip: IpAddress::V4(0x01020304), port: 51259 }),
        SocketKind::Ipv4
    );
    assert_eq!(
        handle_outbound(&SocketAddress { ip: IpAddress::V6(1), port: 51258 }),
        SocketKind::Ipv6
    );
}

#[test]
fn received_datagrams_are_cut_to_what_was_read() {
    let buffer = [1u8, 2, 3, 4, 5];
    assert_eq!(handle_inbound(&buffer, 3), vec![1, 2, 3]);
    assert_eq!(handle_inbound(&buffer, 0), Vec::<u8>::new());
    assert_eq!(handle_inbound(&buffer, 5), vec![1, 2, 3, 4, 5]);
    assert_eq!(handle_inbound(&buffer, 9), vec![1, 2, 3, 4, 5]);
}
