//! The two UDP sockets of the direct paths: which one a datagram leaves by,
//! and what is kept of one that arrived.

use vstd::prelude::*;
use vstd::slice::slice_subrange;
use vstd::slice::slice_to_vec;
use crate::network::addr::SocketAddress;

verus! {

/// The size of the buffer that a datagram is received into. A longer
/// datagram is cut to it.
pub const BUFFER_SIZE: usize = 2048;

/// One of the two sockets.
#[derive(Clone, Copy, Debug, PartialEq, Eq, Structural)]
pub enum SocketKind {
    /// The IPv4 socket, bound to the STUN port.
    Ipv4,
    /// The IPv6 socket, bound to the direct port.
    Ipv6,
}

/// The socket that a datagram for `remote` leaves by: the IPv4 socket for
/// an IPv4 address, else the IPv6 socket.
pub fn handle_outbound(remote: &SocketAddress) -> (r: SocketKind)
    ensures
        r == (if remote.ip is V4 {
            SocketKind::Ipv4
        } else {
            SocketKind::Ipv6
        }),
{
    if remote.is_ipv4() {
        SocketKind::Ipv4
    } else {
        SocketKind::Ipv6
    }
}

/// The datagram that a read of `len` bytes left in `buffer`: its first
/// `len` bytes, or all of it when `len` is more.
pub fn handle_inbound(buffer: &[u8], len: usize) -> (r: Vec<u8>)
    ensures
        r@ == (if len <= buffer@.len() {
            buffer@.subrange(0, len as int)
        } else {
            buffer@
        }),
{
    if len <= buffer.len() {
        slice_to_vec(slice_subrange(buffer, 0, len))
    } else {
        let r = slice_to_vec(buffer);
        assert(r@ =~= buffer@);
        r
    }
}

} // verus!
