//! The bridge between the virtual interface and the two transports: what
//! becomes of a packet read from the interface, and of a frame that came
//! from the relay or from a peer.

use vstd::prelude::*;
use crate::client::p2p::model::is_first_serving;
use crate::client::p2p::model::none_serves;
use crate::client::p2p::model::path_to;
use crate::client::p2p::model::PathDecision;
use crate::client::p2p::model::Transport;
use crate::client::p2p::peer::PeerHandler;
use crate::codec::frame::details;
use crate::codec::frame::DataFrame;
use crate::codec::frame::Frame;
use crate::codec::frame::FrameView;
use crate::codec::frame::PeerDetail;
use crate::codec::frame::PeerUpdateFrame;
use crate::codec::frame::MIN_IPV4_LEN;
use crate::network::addr::spec_ipv4;
use crate::network::addr::SocketAddress;

verus! {

/// Seconds between two prints of the status.
pub const STATUS_INTERVAL_SECS: u64 = 30;

/// Why a packet from the interface was let fall.
#[derive(Clone, Copy, Debug, PartialEq, Eq, Structural)]
pub enum PacketError {
    /// Shorter than an IPv4 header.
    TooShort,
    /// Not an IPv4 packet.
    NotIpv4,
}

/// Where a packet from the interface goes.
#[derive(Debug, Clone)]
pub enum Outbound {
    /// To the peer itself, over UDP, at this address.
    Direct { addr: SocketAddress, via: Transport, frame: Frame },
    /// To the relay server.
    Relay(Frame),
    /// Nowhere.
    Drop(PacketError),
}

/// What to do with a frame that came in.
#[derive(Debug, Clone)]
pub enum Inbound {
    /// Write the packet to the interface.
    WriteDevice(Vec<u8>),
    /// Merge the reported peers into the registry, and reload the routes.
    MergePeers(Vec<PeerDetail>),
    /// Apply the news of one peer to the registry.
    UpdatePeer(PeerUpdateFrame),
    /// Nothing.
    Ignore,
}

/// The destination of an IPv4 packet: bytes 16 to 19.
pub open spec fn destination(packet: Seq<u8>) -> u32 {
    spec_ipv4(packet[16], packet[17], packet[18], packet[19])
}

/// Whether `packet` is long enough for an IPv4 header and states version 4.
pub open spec fn is_ipv4_packet(packet: Seq<u8>) -> bool {
    packet.len() >= MIN_IPV4_LEN && packet[0] / 16 == 4
}

/// Decides where a packet read from the interface at `now` goes.
///
/// A packet that is shorter than 20 bytes or not of version 4 falls. With
/// direct paths switched off (`peers` is `None`) every packet goes by the
/// relay. Else the registry chooses: a live slot of the peer that serves
/// the destination, the IPv6 slot before the STUN slot, or the relay when
/// there is no such peer or no live slot.
pub fn on_device_packet(peers: Option<&PeerHandler>, packet: Vec<u8>, now: u64) -> (r: Outbound)
    ensures
        packet@.len() < MIN_IPV4_LEN ==> r matches Outbound::Drop(PacketError::TooShort),
        packet@.len() >= MIN_IPV4_LEN && packet@[0] / 16 != 4 ==> r matches Outbound::Drop(
            PacketError::NotIpv4,
        ),
        is_ipv4_packet(packet@) ==> match peers {
            None => r matches Outbound::Relay(frame) && frame@ == (FrameView::Data {
                payload: packet@,
            }),
            Some(registry) => {
                let dst = destination(packet@);
                if none_serves(registry@, dst) {
                    r matches Outbound::Relay(frame) && frame@ == (FrameView::Data {
                        payload: packet@,
                    })
                } else {
                    exists|i: int|
                        is_first_serving(registry@, dst, i) && (match path_to(registry@[i], now) {
                            PathDecision::Direct { addr, via } => r matches Outbound::Direct {
                                addr: a,
                                via: v,
                                frame,
                            } && a == addr && v == via && frame@ == (FrameView::Data {
                                payload: packet@,
                            }),
                            PathDecision::Relay { .. } => r matches Outbound::Relay(frame)
                                && frame@ == (FrameView::Data { payload: packet@ }),
                        })
                }
            },
        },
{
    let data = DataFrame { payload: packet };
    if data.invalid() {
        return Outbound::Drop(PacketError::TooShort);
    }
    if data.version() != 4 {
        return Outbound::Drop(PacketError::NotIpv4);
    }
    match peers {
        None => Outbound::Relay(Frame::Data(data)),
        Some(registry) => {
            let dst = data.dst_addr();
            match registry.select_path(dst, now) {
                PathDecision::Direct { addr, via } => Outbound::Direct {
                    addr,
                    via,
                    frame: Frame::Data(data),
                },
                PathDecision::Relay { reason } => Outbound::Relay(Frame::Data(data)),
            }
        },
    }
}

/// Decides what to do with a frame that the relay delivered: a data frame
/// is written to the interface, a keepalive brings the cluster's peers, a
/// peer update brings news of one peer when direct paths are switched on,
/// and every other frame is ignored.
pub fn on_relay_frame(frame: Frame, p2p_enabled: bool) -> (r: Inbound)
    ensures
        match frame@ {
            FrameView::Data { payload } => r matches Inbound::WriteDevice(packet) && packet@
                == payload,
            FrameView::KeepAlive(keepalive) => r matches Inbound::MergePeers(peers) && details(
                peers@,
            ) == keepalive.peer_details,
            FrameView::PeerUpdate(update) => if p2p_enabled {
                r matches Inbound::UpdatePeer(out) && out@ == update
            } else {
                r is Ignore
            },
            _ => r is Ignore,
        },
{
    match frame {
        Frame::Data(data) => Inbound::WriteDevice(data.payload),
        Frame::KeepAlive(keepalive) => Inbound::MergePeers(keepalive.peer_details),
        Frame::PeerUpdate(update) => {
            if p2p_enabled {
                Inbound::UpdatePeer(update)
            } else {
                Inbound::Ignore
            }
        },
        _ => Inbound::Ignore,
    }
}

/// Decides what to do with a frame that a peer sent over UDP, after the
/// registry has seen it: a data frame is written to the interface, and
/// every other frame is ignored.
pub fn on_peer_frame(frame: Frame) -> (r: Inbound)
    ensures
        match frame@ {
            FrameView::Data { payload } => r matches Inbound::WriteDevice(packet) && packet@
                == payload,
            _ => r is Ignore,
        },
{
    match frame {
        Frame::Data(data) => Inbound::WriteDevice(data.payload),
        _ => Inbound::Ignore,
    }
}

} // verus!
