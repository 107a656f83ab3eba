//! The frames of the protocol.
//!
//! Header, 8 bytes: magic `0x91929394`, version `0x01`, one byte for the
//! frame type, and the payload length in two bytes, big-endian.

use vstd::prelude::*;
use vstd::string::*;
use crate::codec::errors::FrameError;
use crate::network::addr::dotted;
use crate::network::addr::ipv4_from_octets;
use crate::network::addr::ipv4_text;
use crate::network::addr::spec_ipv4;

verus! {

/// Length of the frame header in bytes.
pub const HDR_LEN: usize = 8;

/// The four bytes that open every frame.
pub const MAGIC: u32 = 0x91929394;

/// The protocol version.
pub const VERSION: u8 = 0x01;

/// The longest payload that the length field can state.
pub const MAX_PAYLOAD_LEN: usize = 65535;

/// The shortest IPv4 packet: a header without options.
pub const MIN_IPV4_LEN: usize = 20;

/// The kind of a frame, as the header's type byte states it.
#[derive(Clone, Copy, Debug, PartialEq, Eq, Structural)]
pub enum FrameType {
    Handshake,
    KeepAlive,
    Data,
    HandshakeReply,
    PeerUpdate,
    ProbeIPv6,
    ProbeHolePunch,
}

/// The frame type that a type byte stands for.
pub open spec fn frame_type_of(code: u8) -> Option<FrameType> {
    if code == 1 {
        Some(FrameType::Handshake)
    } else if code == 2 {
        Some(FrameType::KeepAlive)
    } else if code == 3 {
        Some(FrameType::Data)
    } else if code == 4 {
        Some(FrameType::HandshakeReply)
    } else if code == 5 {
        Some(FrameType::PeerUpdate)
    } else if code == 6 {
        Some(FrameType::ProbeIPv6)
    } else if code == 7 {
        Some(FrameType::ProbeHolePunch)
    } else {
        None
    }
}

impl FrameType {
    /// The type byte of this frame type.
    pub open spec fn spec_code(&self) -> u8 {
        match self {
            FrameType::Handshake => 1,
            FrameType::KeepAlive => 2,
            FrameType::Data => 3,
            FrameType::HandshakeReply => 4,
            FrameType::PeerUpdate => 5,
            FrameType::ProbeIPv6 => 6,
            FrameType::ProbeHolePunch => 7,
        }
    }

    /// The type byte of this frame type.
    pub fn code(&self) -> (r: u8)
        ensures
            r == self.spec_code(),
            frame_type_of(r) == Some(*self),
    {
        match self {
            FrameType::Handshake => 1,
            FrameType::KeepAlive => 2,
            FrameType::Data => 3,
            FrameType::HandshakeReply => 4,
            FrameType::PeerUpdate => 5,
            FrameType::ProbeIPv6 => 6,
            FrameType::ProbeHolePunch => 7,
        }
    }

    /// Reads a type byte. Unknown bytes are invalid.
    pub fn try_from(v: u8) -> (r: Result<FrameType, FrameError>)
        ensures
            match r {
                Ok(t) => frame_type_of(v) == Some(t),
                Err(e) => frame_type_of(v) is None && e == FrameError::Invalid,
            },
    {
        match v {
            1 => Ok(FrameType::Handshake),
            2 => Ok(FrameType::KeepAlive),
            3 => Ok(FrameType::Data),
            4 => Ok(FrameType::HandshakeReply),
            5 => Ok(FrameType::PeerUpdate),
            6 => Ok(FrameType::ProbeIPv6),
            7 => Ok(FrameType::ProbeHolePunch),
            _ => Err(FrameError::Invalid),
        }
    }
}

/// The views of a sequence of strings.
pub open spec fn texts(v: Seq<String>) -> Seq<Seq<char>> {
    Seq::new(v.len(), |i: int| v[i]@)
}

/// A copy of a list of strings.
pub fn clone_texts(v: &Vec<String>) -> (r: Vec<String>)
    ensures
        texts(r@) == texts(v@),
{
    let mut out: Vec<String> = Vec::new();
    let mut i: usize = 0;
    while i < v.len()
        invariant
            i <= v.len(),
            out@.len() == i,
            forall|j: int| 0 <= j < i ==> out@[j]@ == v@[j]@,
        decreases v.len() - i,
    {
        out.push(v[i].clone());
        i += 1;
    }
    assert(texts(out@) =~= texts(v@));
    out
}

/// What the server tells a client of another member of its cluster.
#[derive(Debug, Clone)]
pub struct PeerDetail {
    /// The peer's identity.
    pub identity: String,
    /// The peer's address inside the overlay.
    pub private_ip: String,
    /// The CIDR ranges reached through the peer.
    pub ciders: Vec<String>,
    /// The peer's public IPv6 address; empty when it has none.
    pub ipv6: String,
    /// The UDP port of the IPv6 path.
    pub port: u16,
    /// The peer's public IPv4 address as STUN found it; empty when unknown.
    pub stun_ip: String,
    /// The UDP port of the hole-punched path.
    pub stun_port: u16,
    /// Unix seconds of the last keepalive the server had from the peer;
    /// 0 for never.
    pub last_active: u64,
}

/// A route to a peer: another name for [`PeerDetail`].
pub type RouteItem = PeerDetail;

/// The mathematical value of a [`PeerDetail`].
pub ghost struct PeerDetailView {
    pub identity: Seq<char>,
    pub private_ip: Seq<char>,
    pub ciders: Seq<Seq<char>>,
    pub ipv6: Seq<char>,
    pub port: u16,
    pub stun_ip: Seq<char>,
    pub stun_port: u16,
    pub last_active: u64,
}

impl View for PeerDetail {
    type V = PeerDetailView;

    open spec fn view(&self) -> PeerDetailView {
        PeerDetailView {
            identity: self.identity@,
            private_ip: self.private_ip@,
            ciders: texts(self.ciders@),
            ipv6: self.ipv6@,
            port: self.port,
            stun_ip: self.stun_ip@,
            stun_port: self.stun_port,
            last_active: self.last_active,
        }
    }
}

/// The views of a sequence of peer details.
pub open spec fn details(v: Seq<PeerDetail>) -> Seq<PeerDetailView> {
    Seq::new(v.len(), |i: int| v[i]@)
}

impl PeerDetail {
    /// A copy of this record.
    pub fn duplicate(&self) -> (r: PeerDetail)
        ensures
            r@ == self@,
    {
        PeerDetail {
            identity: self.identity.clone(),
            private_ip: self.private_ip.clone(),
            ciders: clone_texts(&self.ciders),
            ipv6: self.ipv6.clone(),
            port: self.port,
            stun_ip: self.stun_ip.clone(),
            stun_port: self.stun_port,
            last_active: self.last_active,
        }
    }
}

/// A copy of a list of peer details.
pub fn clone_details(v: &Vec<PeerDetail>) -> (r: Vec<PeerDetail>)
    ensures
        details(r@) == details(v@),
{
    let mut out: Vec<PeerDetail> = Vec::new();
    let mut i: usize = 0;
    while i < v.len()
        invariant
            i <= v.len(),
            out@.len() == i,
            forall|j: int| 0 <= j < i ==> out@[j]@ == v@[j]@,
        decreases v.len() - i,
    {
        out.push(v[i].duplicate());
        i += 1;
    }
    assert(details(out@) =~= details(v@));
    out
}

/// The short form of what the server tells of a peer: who it is and when
/// it was last active.
#[derive(Debug, Clone)]
pub struct PeerInfo {
    /// The peer's identity.
    pub identity: String,
    /// Unix seconds of the last keepalive the server had from the peer.
    pub last_active: u64,
}

impl PeerDetail {
    /// The short form of this record.
    pub fn info(&self) -> (r: PeerInfo)
        ensures
            r.identity@ == self.identity@,
            r.last_active == self.last_active,
    {
        PeerInfo { identity: self.identity.clone(), last_active: self.last_active }
    }
}

/// The first frame of a client: who it is.
#[derive(Debug, Clone)]
pub struct HandshakeFrame {
    pub identity: String,
}

/// The server's answer to a handshake: the client's place in the overlay
/// and the other members of its cluster.
#[derive(Debug, Clone)]
pub struct HandshakeReplyFrame {
    pub private_ip: String,
    pub mask: String,
    pub gateway: String,
    pub peer_details: Vec<PeerDetail>,
}

/// The mathematical value of a [`HandshakeReplyFrame`].
pub ghost struct HandshakeReplyView {
    pub private_ip: Seq<char>,
    pub mask: Seq<char>,
    pub gateway: Seq<char>,
    pub peer_details: Seq<PeerDetailView>,
}

impl View for HandshakeReplyFrame {
    type V = HandshakeReplyView;

    open spec fn view(&self) -> HandshakeReplyView {
        HandshakeReplyView {
            private_ip: self.private_ip@,
            mask: self.mask@,
            gateway: self.gateway@,
            peer_details: details(self.peer_details@),
        }
    }
}

/// A heartbeat. A client states its public addresses and leaves
/// `peer_details` empty; the server echoes them and fills in the cluster's
/// current peers.
#[derive(Debug, Clone)]
pub struct KeepAliveFrame {
    pub identity: String,
    pub ipv6: String,
    pub port: u16,
    pub stun_ip: String,
    pub stun_port: u16,
    pub peer_details: Vec<PeerDetail>,
}

/// The mathematical value of a [`KeepAliveFrame`].
pub ghost struct KeepAliveView {
    pub identity: Seq<char>,
    pub ipv6: Seq<char>,
    pub port: u16,
    pub stun_ip: Seq<char>,
    pub stun_port: u16,
    pub peer_details: Seq<PeerDetailView>,
}

impl View for KeepAliveFrame {
    type V = KeepAliveView;

    open spec fn view(&self) -> KeepAliveView {
        KeepAliveView {
            identity: self.identity@,
            ipv6: self.ipv6@,
            port: self.port,
            stun_ip: self.stun_ip@,
            stun_port: self.stun_port,
            peer_details: details(self.peer_details@),
        }
    }
}

/// News of one peer's public addresses.
#[derive(Debug, Clone)]
pub struct PeerUpdateFrame {
    pub identity: String,
    pub ipv6: String,
    pub port: u16,
    pub stun_ip: String,
    pub stun_port: u16,
}

/// The mathematical value of a [`PeerUpdateFrame`].
pub ghost struct PeerUpdateView {
    pub identity: Seq<char>,
    pub ipv6: Seq<char>,
    pub port: u16,
    pub stun_ip: Seq<char>,
    pub stun_port: u16,
}

impl View for PeerUpdateFrame {
    type V = PeerUpdateView;

    open spec fn view(&self) -> PeerUpdateView {
        PeerUpdateView {
            identity: self.identity@,
            ipv6: self.ipv6@,
            port: self.port,
            stun_ip: self.stun_ip@,
            stun_port: self.stun_port,
        }
    }
}

/// A probe on the IPv6 path, sent only to refresh the receiver's clock for
/// that path.
#[derive(Debug, Clone)]
pub struct ProbeIPv6Frame {
    pub identity: String,
}

/// A probe on the hole-punched IPv4 path.
#[derive(Debug, Clone)]
pub struct ProbeHolePunchFrame {
    pub identity: String,
}

/// A tunneled IP packet.
#[derive(Debug, Clone)]
pub struct DataFrame {
    /// The packet, header included.
    pub payload: Vec<u8>,
}

impl DataFrame {
    /// Whether the payload is too short to be an IPv4 packet.
    pub fn invalid(&self) -> (r: bool)
        ensures
            r == (self.payload@.len() < MIN_IPV4_LEN),
    {
        self.payload.len() < MIN_IPV4_LEN
    }

    /// The IP version: the upper four bits of the first byte.
    pub fn version(&self) -> (r: i32)
        requires
            self.payload@.len() > 0,
        ensures
            r == self.payload@[0] as int / 16,
    {
        let b: u8 = self.payload[0];
        (b / 16) as i32
    }

    /// The destination address of the packet.
    pub open spec fn spec_dst(&self) -> u32 {
        spec_ipv4(self.payload@[16], self.payload@[17], self.payload@[18], self.payload@[19])
    }

    /// The source address of the packet.
    pub open spec fn spec_src(&self) -> u32 {
        spec_ipv4(self.payload@[12], self.payload@[13], self.payload@[14], self.payload@[15])
    }

    /// The destination address: bytes 16 to 19 of the IPv4 header.
    pub fn dst_addr(&self) -> (r: u32)
        requires
            self.payload@.len() >= MIN_IPV4_LEN,
        ensures
            r == self.spec_dst(),
    {
        ipv4_from_octets(self.payload[16], self.payload[17], self.payload[18], self.payload[19])
    }

    /// The source address: bytes 12 to 15 of the IPv4 header.
    pub fn src_addr(&self) -> (r: u32)
        requires
            self.payload@.len() >= MIN_IPV4_LEN,
        ensures
            r == self.spec_src(),
    {
        ipv4_from_octets(self.payload[12], self.payload[13], self.payload[14], self.payload[15])
    }

    /// The destination address in dotted-decimal text.
    pub fn dst(&self) -> (r: String)
        requires
            self.payload@.len() >= MIN_IPV4_LEN,
        ensures
            r@ == dotted(self.spec_dst()),
    {
        ipv4_text(self.dst_addr())
    }

    /// The source address in dotted-decimal text.
    pub fn src(&self) -> (r: String)
        requires
            self.payload@.len() >= MIN_IPV4_LEN,
        ensures
            r@ == dotted(self.spec_src()),
    {
        ipv4_text(self.src_addr())
    }
}

/// A frame of the protocol.
#[derive(Debug, Clone)]
pub enum Frame {
    Handshake(HandshakeFrame),
    HandshakeReply(HandshakeReplyFrame),
    KeepAlive(KeepAliveFrame),
    PeerUpdate(PeerUpdateFrame),
    Data(DataFrame),
    ProbeIPv6(ProbeIPv6Frame),
    ProbeHolePunch(ProbeHolePunchFrame),
}

/// The mathematical value of a [`Frame`].
pub ghost enum FrameView {
    Handshake { identity: Seq<char> },
    HandshakeReply(HandshakeReplyView),
    KeepAlive(KeepAliveView),
    PeerUpdate(PeerUpdateView),
    Data { payload: Seq<u8> },
    ProbeIPv6 { identity: Seq<char> },
    ProbeHolePunch { identity: Seq<char> },
}

impl View for Frame {
    type V = FrameView;

    open spec fn view(&self) -> FrameView {
        match self {
            Frame::Handshake(f) => FrameView::Handshake { identity: f.identity@ },
            Frame::HandshakeReply(f) => FrameView::HandshakeReply(f@),
            Frame::KeepAlive(f) => FrameView::KeepAlive(f@),
            Frame::PeerUpdate(f) => FrameView::PeerUpdate(f@),
            Frame::Data(f) => FrameView::Data { payload: f.payload@ },
            Frame::ProbeIPv6(f) => FrameView::ProbeIPv6 { identity: f.identity@ },
            Frame::ProbeHolePunch(f) => FrameView::ProbeHolePunch { identity: f.identity@ },
        }
    }
}

impl Frame {
    /// The frame type of this frame.
    pub open spec fn spec_frame_type(&self) -> FrameType {
        match self {
            Frame::Handshake(_) => FrameType::Handshake,
            Frame::HandshakeReply(_) => FrameType::HandshakeReply,
            Frame::KeepAlive(_) => FrameType::KeepAlive,
            Frame::PeerUpdate(_) => FrameType::PeerUpdate,
            Frame::Data(_) => FrameType::Data,
            Frame::ProbeIPv6(_) => FrameType::ProbeIPv6,
            Frame::ProbeHolePunch(_) => FrameType::ProbeHolePunch,
        }
    }

    /// The frame type of this frame.
    pub fn frame_type(&self) -> (r: FrameType)
        ensures
            r == self.spec_frame_type(),
    {
        match self {
            Frame::Handshake(_) => FrameType::Handshake,
            Frame::HandshakeReply(_) => FrameType::HandshakeReply,
            Frame::KeepAlive(_) => FrameType::KeepAlive,
            Frame::PeerUpdate(_) => FrameType::PeerUpdate,
            Frame::Data(_) => FrameType::Data,
            Frame::ProbeIPv6(_) => FrameType::ProbeIPv6,
            Frame::ProbeHolePunch(_) => FrameType::ProbeHolePunch,
        }
    }
}

} // verus!
