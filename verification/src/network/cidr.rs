//! CIDR ranges and the rule by which a destination belongs to a peer.

use vstd::prelude::*;
use crate::codec::frame::texts;
use crate::network::addr::dotted;

verus! {

/// The IPv4 network that `ipnet` reads from CIDR text, as its address and
/// its prefix length; `None` where the text is no IPv4 network.
pub uninterp spec fn ipv4_net_of(text: Seq<char>) -> Option<(u32, u8)>;

/// Calls `ipnet`'s parser for `IpNet` on `text` and hands back the address
/// and the prefix length of an IPv4 network. The contract names the result
/// and adds that the prefix length is at most 32, which `ipnet` checks
/// before it builds an `Ipv4Net`. IPv6 networks and malformed text give
/// `None`.
#[verifier::external_body]
fn parse_ipv4_net(text: &str) -> (r: Option<(u32, u8)>)
    ensures
        r == ipv4_net_of(text@),
        r matches Some((_, prefix)) ==> prefix <= 32,
{
    match text.parse::<ipnet::IpNet>() {
        Ok(ipnet::IpNet::V4(net)) => Some((u32::from(net.addr()), net.prefix_len())),
        _ => None,
    }
}

/// The mask of the network bits for a prefix length.
pub open spec fn netmask(prefix: u8) -> u32 {
    if prefix == 0 {
        0u32
    } else {
        u32::MAX << ((32 - prefix) as u32)
    }
}

/// The mask of the host bits for a prefix length.
pub open spec fn hostmask(prefix: u8) -> u32 {
    if prefix >= 32 {
        0u32
    } else {
        u32::MAX >> (prefix as u32)
    }
}

/// Whether `addr` lies between the first and the last address of the
/// network `base/prefix`. No network has a prefix of more than 32 bits.
pub open spec fn in_net(base: u32, prefix: u8, addr: u32) -> bool {
    prefix <= 32 && (base & netmask(prefix)) <= addr && addr <= (base | hostmask(prefix))
}

/// Whether the CIDR text names an IPv4 network that holds `addr`.
pub open spec fn cidr_holds(text: Seq<char>, addr: u32) -> bool {
    match ipv4_net_of(text) {
        Some((base, prefix)) => in_net(base, prefix, addr),
        None => false,
    }
}

/// Whether one of the CIDR texts holds `addr`.
pub open spec fn any_cidr_holds(ciders: Seq<Seq<char>>, addr: u32) -> bool {
    exists|j: int| 0 <= j < ciders.len() && cidr_holds(#[trigger] ciders[j], addr)
}

/// Whether a node with this private address and these CIDR ranges is the
/// destination of a packet for `dst`: the private address reads as `dst`,
/// or a range holds `dst`.
pub open spec fn serves(private_ip: Seq<char>, ciders: Seq<Seq<char>>, dst: u32) -> bool {
    private_ip == dotted(dst) || any_cidr_holds(ciders, dst)
}

/// Whether `addr` belongs to the network `base/prefix`.
pub fn net_contains(base: u32, prefix: u8, addr: u32) -> (r: bool)
    ensures
        r == in_net(base, prefix, addr),
{
    if prefix > 32 {
        return false;
    }
    let netmask: u32 = if prefix == 0 {
        0
    } else {
        u32::MAX << ((32 - prefix) as u32)
    };
    let hostmask: u32 = if prefix >= 32 {
        0
    } else {
        u32::MAX >> (prefix as u32)
    };
    (base & netmask) <= addr && addr <= (base | hostmask)
}

/// Whether the CIDR text names an IPv4 network that holds `addr`.
pub fn cidr_contains(text: &str, addr: u32) -> (r: bool)
    ensures
        r == cidr_holds(text@, addr),
{
    match parse_ipv4_net(text) {
        Some((base, prefix)) => net_contains(base, prefix, addr),
        None => false,
    }
}

/// Whether a node with this private address and these ranges serves `dst`.
/// `dst_text` is the dotted text of `dst`.
pub(crate) fn match_route(
    private_ip: &String,
    ciders: &Vec<String>,
    dst: u32,
    dst_text: &String,
) -> (r: bool)
    requires
        dst_text@ == dotted(dst),
    ensures
        r == serves(private_ip@, texts(ciders@), dst),
{
    if *private_ip == *dst_text {
        return true;
    }
    let mut j: usize = 0;
    while j < ciders.len()
        invariant
            j <= ciders.len(),
            forall|k: int| 0 <= k < j ==> !cidr_holds(#[trigger] texts(ciders@)[k], dst),
        decreases ciders.len() - j,
    {
        if cidr_contains(ciders[j].as_str(), dst) {
            assert(cidr_holds(texts(ciders@)[j as int], dst));
            return true;
        }
        j += 1;
    }
    false
}

} // verus!
