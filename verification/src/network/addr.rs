//! IPv4 addresses, their dotted text, socket addresses and CIDR matching.

use vstd::prelude::*;
use vstd::arithmetic::div_mod::lemma_fundamental_div_mod_converse;
use vstd::string::*;

verus! {

/// The decimal digit `d` as a character (`'0'` outside `0..=9`).
pub open spec fn digit_char(d: int) -> char {
    if d == 1 {
        '1'
    } else if d == 2 {
        '2'
    } else if d == 3 {
        '3'
    } else if d == 4 {
        '4'
    } else if d == 5 {
        '5'
    } else if d == 6 {
        '6'
    } else if d == 7 {
        '7'
    } else if d == 8 {
        '8'
    } else if d == 9 {
        '9'
    } else {
        '0'
    }
}

/// The decimal text of a byte, without leading zeros.
pub open spec fn decimal(n: u8) -> Seq<char> {
    if n >= 100 {
        seq![digit_char(n as int / 100), digit_char((n as int / 10) % 10), digit_char(n as int % 10)]
    } else if n >= 10 {
        seq![digit_char(n as int / 10), digit_char(n as int % 10)]
    } else {
        seq![digit_char(n as int)]
    }
}

/// The address with the octets `a.b.c.d`, most significant first.
pub open spec fn spec_ipv4(a: u8, b: u8, c: u8, d: u8) -> u32 {
    (a as int * 16777216 + b as int * 65536 + c as int * 256 + d as int) as u32
}

/// The octet of `addr` at position `i`, where 0 is the most significant.
pub open spec fn octet(addr: u32, i: int) -> u8 {
    if i == 0 {
        (addr as int / 16777216) as u8
    } else if i == 1 {
        ((addr as int / 65536) % 256) as u8
    } else if i == 2 {
        ((addr as int / 256) % 256) as u8
    } else {
        (addr as int % 256) as u8
    }
}

/// The dotted-decimal text of an IPv4 address, such as `10.0.1.5`.
pub open spec fn dotted(addr: u32) -> Seq<char> {
    decimal(octet(addr, 0)) + seq!['.'] + decimal(octet(addr, 1)) + seq!['.'] + decimal(
        octet(addr, 2),
    ) + seq!['.'] + decimal(octet(addr, 3))
}

fn digit_str(d: u8) -> (r: &'static str)
    requires
        d <= 9,
    ensures
        r@ == seq![digit_char(d as int)],
{
    proof {
        reveal_strlit("0");
        reveal_strlit("1");
        reveal_strlit("2");
        reveal_strlit("3");
        reveal_strlit("4");
        reveal_strlit("5");
        reveal_strlit("6");
        reveal_strlit("7");
        reveal_strlit("8");
        reveal_strlit("9");
    }
    let r = if d == 0 {
        "0"
    } else if d == 1 {
        "1"
    } else if d == 2 {
        "2"
    } else if d == 3 {
        "3"
    } else if d == 4 {
        "4"
    } else if d == 5 {
        "5"
    } else if d == 6 {
        "6"
    } else if d == 7 {
        "7"
    } else if d == 8 {
        "8"
    } else {
        "9"
    };
    assert(r@ =~= seq![digit_char(d as int)]);
    r
}

fn push_decimal(s: &mut String, n: u8)
    ensures
        final(s)@ == old(s)@ + decimal(n),
{
    if n >= 100 {
        s.append(digit_str(n / 100));
        s.append(digit_str((n / 10) % 10));
        s.append(digit_str(n % 10));
    } else if n >= 10 {
        s.append(digit_str(n / 10));
        s.append(digit_str(n % 10));
    } else {
        s.append(digit_str(n));
    }
    assert(s@ =~= old(s)@ + decimal(n));
}

/// Builds an IPv4 address from its four octets.
pub fn ipv4_from_octets(a: u8, b: u8, c: u8, d: u8) -> (r: u32)
    ensures
        r == spec_ipv4(a, b, c, d),
        octet(r, 0) == a,
        octet(r, 1) == b,
        octet(r, 2) == c,
        octet(r, 3) == d,
{
    let r: u32 = (a as u32) * 16777216 + (b as u32) * 65536 + (c as u32) * 256 + (d as u32);
    proof {
        let low3 = b as int * 65536 + c as int * 256 + d as int;
        let low2 = c as int * 256 + d as int;
        lemma_fundamental_div_mod_converse(r as int, 16777216, a as int, low3);
        lemma_fundamental_div_mod_converse(r as int, 65536, a as int * 256 + b as int, low2);
        lemma_fundamental_div_mod_converse(a as int * 256 + b as int, 256, a as int, b as int);
        lemma_fundamental_div_mod_converse(
            r as int,
            256,
            a as int * 65536 + b as int * 256 + c as int,
            d as int,
        );
        lemma_fundamental_div_mod_converse(
            a as int * 65536 + b as int * 256 + c as int,
            256,
            a as int * 256 + b as int,
            c as int,
        );
    }
    r
}

/// The dotted-decimal text of `addr`.
pub fn ipv4_text(addr: u32) -> (r: String)
    ensures
        r@ == dotted(addr),
{
    let mut s = String::new();
    push_decimal(&mut s, (addr / 16777216) as u8);
    proof {
        reveal_strlit(".");
    }
    s.append(".");
    push_decimal(&mut s, ((addr / 65536) % 256) as u8);
    s.append(".");
    push_decimal(&mut s, ((addr / 256) % 256) as u8);
    s.append(".");
    push_decimal(&mut s, (addr % 256) as u8);
    assert(s@ =~= dotted(addr));
    s
}

/// An IP address held as a plain number.
#[derive(Clone, Copy, Debug, PartialEq, Eq, Structural)]
pub enum IpAddress {
    V4(u32),
    V6(u128),
}

/// The address of a UDP endpoint: an IP address and a port.
#[derive(Clone, Copy, Debug, PartialEq, Eq, Structural)]
pub struct SocketAddress {
    pub ip: IpAddress,
    pub port: u16,
}

impl SocketAddress {
    /// Whether the address is an IPv4 one.
    pub fn is_ipv4(&self) -> (r: bool)
        ensures
            r == (self.ip is V4),
    {
        match self.ip {
            IpAddress::V4(_) => true,
            IpAddress::V6(_) => false,
        }
    }
}

/// Whether two optional socket addresses are the same.
pub fn same_addr(a: Option<SocketAddress>, b: Option<SocketAddress>) -> (r: bool)
    ensures
        r == (a == b),
{
    match (a, b) {
        (Some(x), Some(y)) => x == y,
        (None, None) => true,
        _ => false,
    }
}

} // verus!
