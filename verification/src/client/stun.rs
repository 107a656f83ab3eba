//! What the client learns from STUN: its public IPv4 address and a guess at
//! the kind of NAT in front of it.

use vstd::prelude::*;
use vstd::string::*;
use std::time::Duration;
use crate::codec::frame::clone_texts;
use crate::codec::frame::texts;
use crate::network::addr::IpAddress;
use crate::network::addr::SocketAddress;

verus! {

/// The duration of a number of seconds.
pub uninterp spec fn duration_of_secs(secs: u64) -> Duration;

/// `Duration::from_secs` of the standard library. The contract names the
/// result.
pub assume_specification[ Duration::from_secs ](secs: u64) -> (d: Duration)
    ensures
        d == duration_of_secs(secs),
;

/// Seconds that a STUN server has to answer.
pub const DEFAULT_STUN_TIMEOUT_SECS: u64 = 5;

/// The kind of NAT between the client and the Internet.
#[derive(Debug, Clone, Copy, PartialEq, Eq, Structural)]
pub enum NatType {
    /// No NAT: the client is on the public Internet.
    OpenInternet,
    /// Any outside host may send to the mapped address.
    FullCone,
    /// An outside host may send once the client has sent to its address.
    RestrictedCone,
    /// An outside host may send once the client has sent to its address
    /// and port.
    PortRestricted,
    /// Every destination gets a mapping of its own.
    Symmetric,
    /// Not determined.
    Unknown,
}

impl NatType {
    /// A description for the log.
    pub fn description(&self) -> (r: &'static str)
        ensures
            r@ == (match self {
                NatType::OpenInternet => "No NAT (Public Internet)"@,
                NatType::FullCone => "Full Cone NAT (Easy P2P)"@,
                NatType::RestrictedCone => "Restricted Cone NAT (Moderate P2P)"@,
                NatType::PortRestricted => "Port-Restricted Cone NAT (Harder P2P)"@,
                NatType::Symmetric => "Symmetric NAT (Difficult P2P)"@,
                NatType::Unknown => "Unknown NAT Type"@,
            }),
    {
        match self {
            NatType::OpenInternet => "No NAT (Public Internet)",
            NatType::FullCone => "Full Cone NAT (Easy P2P)",
            NatType::RestrictedCone => "Restricted Cone NAT (Moderate P2P)",
            NatType::PortRestricted => "Port-Restricted Cone NAT (Harder P2P)",
            NatType::Symmetric => "Symmetric NAT (Difficult P2P)",
            NatType::Unknown => "Unknown NAT Type",
        }
    }
}

/// What a STUN query found.
#[derive(Debug, Clone, Copy, PartialEq, Eq, Structural)]
pub struct StunDiscoveryResult {
    /// The client's address as the STUN server saw it.
    pub public_ip: IpAddress,
    /// The client's port as the STUN server saw it.
    pub public_port: u16,
    /// The kind of NAT, as far as one query tells.
    pub nat_type: NatType,
    /// The local address that the query was sent from.
    pub local_addr: SocketAddress,
}

impl StunDiscoveryResult {
    /// The public address and port together.
    pub fn public_addr(&self) -> (r: SocketAddress)
        ensures
            r == (SocketAddress { ip: self.public_ip, port: self.public_port }),
    {
        SocketAddress { ip: self.public_ip, port: self.public_port }
    }
}

/// The kind of NAT that the local and the public address suggest: none when
/// they are the same, a full cone when only the port is kept, and else a
/// port-restricted cone, which is the cautious guess.
pub open spec fn nat_type_of(local_addr: SocketAddress, public_ip: IpAddress, public_port: u16) -> NatType {
    if local_addr.ip == public_ip && local_addr.port == public_port {
        NatType::OpenInternet
    } else if local_addr.port == public_port {
        NatType::FullCone
    } else {
        NatType::PortRestricted
    }
}

/// The public STUN servers that are asked when none are named.
pub open spec fn default_servers() -> Seq<Seq<char>> {
    seq![
        "stun.l.google.com:19302"@,
        "stun1.l.google.com:19302"@,
        "stun2.l.google.com:19302"@,
        "stun3.l.google.com:19302"@,
    ]
}

/// The servers to ask, and how long to wait for each.
pub struct StunClient {
    stun_servers: Vec<String>,
    timeout: Duration,
}

impl StunClient {
    /// The servers to ask, in order.
    pub closed spec fn servers(&self) -> Seq<Seq<char>> {
        texts(self.stun_servers@)
    }

    /// How long to wait for an answer.
    pub closed spec fn timeout(&self) -> Duration {
        self.timeout
    }

    /// A client for four public STUN servers, with a timeout of 5 seconds.
    pub fn new() -> (r: Self)
        ensures
            r.servers() == default_servers(),
            r.timeout() == duration_of_secs(DEFAULT_STUN_TIMEOUT_SECS),
    {
        let mut servers: Vec<String> = Vec::new();
        servers.push(String::from_str("stun.l.google.com:19302"));
        servers.push(String::from_str("stun1.l.google.com:19302"));
        servers.push(String::from_str("stun2.l.google.com:19302"));
        servers.push(String::from_str("stun3.l.google.com:19302"));
        let r = Self::with_servers(servers);
        assert(r.servers() =~= default_servers());
        r
    }

    /// A client for the given servers, with a timeout of 5 seconds.
    pub fn with_servers(stun_servers: Vec<String>) -> (r: Self)
        ensures
            r.servers() == texts(stun_servers@),
            r.timeout() == duration_of_secs(DEFAULT_STUN_TIMEOUT_SECS),
    {
        Self { stun_servers, timeout: Duration::from_secs(DEFAULT_STUN_TIMEOUT_SECS) }
    }

    /// The same client with another timeout.
    pub fn with_timeout(self, timeout: Duration) -> (r: Self)
        ensures
            r.servers() == self.servers(),
            r.timeout() == timeout,
    {
        Self { stun_servers: self.stun_servers, timeout }
    }

    /// The servers to ask, in order.
    pub fn stun_servers(&self) -> (r: Vec<String>)
        ensures
            texts(r@) == self.servers(),
    {
        clone_texts(&self.stun_servers)
    }

    /// How long to wait for an answer.
    pub fn get_timeout(&self) -> (r: Duration)
        ensures
            r == self.timeout(),
    {
        self.timeout
    }

    /// Guesses the kind of NAT from the local and the public address.
    pub fn detect_nat_type_simple(
        &self,
        local_addr: SocketAddress,
        public_ip: IpAddress,
        public_port: u16,
    ) -> (r: NatType)
        ensures
            r == nat_type_of(local_addr, public_ip, public_port),
    {
        if local_addr.ip == public_ip && local_addr.port == public_port {
            return NatType::OpenInternet;
        }
        if local_addr.port == public_port {
            return NatType::FullCone;
        }
        NatType::PortRestricted
    }

    /// Puts together what a query from the local port `local_port` found:
    /// the public address that a server reported, and the kind of NAT that
    /// it suggests for a socket bound to every local address.
    pub fn discover(
        &self,
        local_port: u16,
        public_ip: IpAddress,
        public_port: u16,
    ) -> (r: StunDiscoveryResult)
        ensures
            r.public_ip == public_ip,
            r.public_port == public_port,
            r.local_addr == (SocketAddress { ip: IpAddress::V4(0), port: local_port }),
            r.nat_type == nat_type_of(r.local_addr, public_ip, public_port),
    {
        let local_addr = SocketAddress { ip: IpAddress::V4(0), port: local_port };
        let nat_type = self.detect_nat_type_simple(local_addr, public_ip, public_port);
        StunDiscoveryResult { public_ip, public_port, nat_type, local_addr }
    }
}

impl Default for StunClient {
    fn default() -> (r: Self)
        ensures
            r.servers() == default_servers(),
            r.timeout() == duration_of_secs(DEFAULT_STUN_TIMEOUT_SECS),
    {
        Self::new()
    }
}

} // verus!
