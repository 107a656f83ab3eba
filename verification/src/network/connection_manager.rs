//! The table of connected clients, by which the relay server finds the
//! connection for a destination inside one cluster.

use vstd::prelude::*;
use vstd::string::*;
use crate::codec::frame::clone_texts;
use crate::codec::frame::texts;
use crate::network::addr::ipv4_text;
use crate::network::cidr::match_route;
use crate::network::cidr::serves;

verus! {

/// What the server holds of one connected client.
#[derive(Debug, Clone)]
pub struct ConnectionMeta {
    /// The tenant of the client. It never changes while the client is
    /// connected.
    pub cluster: String,
    /// The client's identity.
    pub identity: String,
    /// The client's address inside the overlay.
    pub private_ip: String,
    /// The netmask of the overlay.
    pub mask: String,
    /// The gateway of the overlay.
    pub gateway: String,
    /// The CIDR ranges reached through the client.
    pub ciders: Vec<String>,
    /// The client's public IPv6 address, as its last keepalive stated it.
    pub ipv6: String,
    /// The UDP port of the client's IPv6 path.
    pub port: u16,
    /// The client's public IPv4 address as STUN found it.
    pub stun_ip: String,
    /// The UDP port of the client's hole-punched path.
    pub stun_port: u16,
    /// Unix seconds of the last keepalive.
    pub last_active: u64,
    /// The number of the connection's outbound queue.
    pub conn_id: u64,
}

/// The mathematical value of a [`ConnectionMeta`].
pub ghost struct ConnectionMetaView {
    pub cluster: Seq<char>,
    pub identity: Seq<char>,
    pub private_ip: Seq<char>,
    pub mask: Seq<char>,
    pub gateway: Seq<char>,
    pub ciders: Seq<Seq<char>>,
    pub ipv6: Seq<char>,
    pub port: u16,
    pub stun_ip: Seq<char>,
    pub stun_port: u16,
    pub last_active: u64,
    pub conn_id: u64,
}

impl View for ConnectionMeta {
    type V = ConnectionMetaView;

    open spec fn view(&self) -> ConnectionMetaView {
        ConnectionMetaView {
            cluster: self.cluster@,
            identity: self.identity@,
            private_ip: self.private_ip@,
            mask: self.mask@,
            gateway: self.gateway@,
            ciders: texts(self.ciders@),
            ipv6: self.ipv6@,
            port: self.port,
            stun_ip: self.stun_ip@,
            stun_port: self.stun_port,
            last_active: self.last_active,
            conn_id: self.conn_id,
        }
    }
}

impl ConnectionMetaView {
    /// Whether packets for `dst` go to this client.
    pub open spec fn serves(&self, dst: u32) -> bool {
        serves(self.private_ip, self.ciders, dst)
    }
}

impl ConnectionMeta {
    /// Whether packets for `dst` go to this client: its private address is
    /// `dst`, or one of its CIDR ranges holds `dst`.
    pub fn match_dst(&self, dst: u32) -> (r: bool)
        ensures
            r == self@.serves(dst),
    {
        let dst_text = ipv4_text(dst);
        match_route(&self.private_ip, &self.ciders, dst, &dst_text)
    }

    /// A copy of this record.
    pub fn duplicate(&self) -> (r: ConnectionMeta)
        ensures
            r@ == self@,
    {
        ConnectionMeta {
            cluster: self.cluster.clone(),
            identity: self.identity.clone(),
            private_ip: self.private_ip.clone(),
            mask: self.mask.clone(),
            gateway: self.gateway.clone(),
            ciders: clone_texts(&self.ciders),
            ipv6: self.ipv6.clone(),
            port: self.port,
            stun_ip: self.stun_ip.clone(),
            stun_port: self.stun_port,
            last_active: self.last_active,
            conn_id: self.conn_id,
        }
    }
}

/// The views of a sequence of connections.
pub open spec fn connections(v: Seq<ConnectionMeta>) -> Seq<ConnectionMetaView> {
    Seq::new(v.len(), |i: int| v[i]@)
}

/// Whether the connection is one that a packet for `dst` from `sender` in
/// `cluster` may go to: in the same cluster, not the sender itself, and
/// serving `dst`.
pub open spec fn routable(
    conn: ConnectionMetaView,
    cluster: Seq<char>,
    sender: Seq<char>,
    dst: u32,
) -> bool {
    conn.cluster == cluster && conn.identity != sender && conn.serves(dst)
}

/// Whether `i` is the first connection that the packet may go to.
pub open spec fn is_first_routable(
    table: Seq<ConnectionMetaView>,
    cluster: Seq<char>,
    sender: Seq<char>,
    dst: u32,
    i: int,
) -> bool {
    &&& 0 <= i < table.len()
    &&& routable(table[i], cluster, sender, dst)
    &&& forall|k: int| 0 <= k < i ==> !routable(#[trigger] table[k], cluster, sender, dst)
}

/// Whether the packet may go to no connection.
pub open spec fn none_routable(
    table: Seq<ConnectionMetaView>,
    cluster: Seq<char>,
    sender: Seq<char>,
    dst: u32,
) -> bool {
    forall|i: int| 0 <= i < table.len() ==> !routable(#[trigger] table[i], cluster, sender, dst)
}

/// Whether `i` is the first connection of `cluster` that serves `dst`.
pub open spec fn is_first_serving_in(
    table: Seq<ConnectionMetaView>,
    cluster: Seq<char>,
    dst: u32,
    i: int,
) -> bool {
    &&& 0 <= i < table.len()
    &&& table[i].cluster == cluster && table[i].serves(dst)
    &&& forall|k: int|
        0 <= k < i ==> !((#[trigger] table[k]).cluster == cluster && table[k].serves(dst))
}

/// Whether `i` is the first connection of `identity` in `cluster`.
pub open spec fn is_first_of(
    table: Seq<ConnectionMetaView>,
    cluster: Seq<char>,
    identity: Seq<char>,
    i: int,
) -> bool {
    &&& 0 <= i < table.len()
    &&& table[i].cluster == cluster && table[i].identity == identity
    &&& forall|k: int|
        0 <= k < i ==> !((#[trigger] table[k]).cluster == cluster && table[k].identity == identity)
}

/// Whether `identity` has no connection in `cluster`.
pub open spec fn none_of(table: Seq<ConnectionMetaView>, cluster: Seq<char>, identity: Seq<char>) -> bool {
    forall|i: int|
        0 <= i < table.len() ==> !((#[trigger] table[i]).cluster == cluster && table[i].identity
            == identity)
}

/// Whether `i` is the first connection of `identity` in any cluster.
pub open spec fn is_first_with_identity(
    table: Seq<ConnectionMetaView>,
    identity: Seq<char>,
    i: int,
) -> bool {
    &&& 0 <= i < table.len()
    &&& table[i].identity == identity
    &&& forall|k: int| 0 <= k < i ==> (#[trigger] table[k]).identity != identity
}

/// Whether `identity` has a connection.
pub open spec fn has_identity(table: Seq<ConnectionMetaView>, identity: Seq<char>) -> bool {
    exists|i: int| 0 <= i < table.len() && (#[trigger] table[i]).identity == identity
}

/// The place of the first connection of `identity`.
pub open spec fn first_with_identity(table: Seq<ConnectionMetaView>, identity: Seq<char>) -> int {
    choose|i: int| is_first_with_identity(table, identity, i)
}

/// The table without the first connection of `identity`.
pub open spec fn without_first(table: Seq<ConnectionMetaView>, identity: Seq<char>) -> Seq<
    ConnectionMetaView,
> {
    if has_identity(table, identity) {
        table.remove(first_with_identity(table, identity))
    } else {
        table
    }
}

/// The connected clients, in the order in which they connected.
pub struct ConnectionManager {
    cluster_connections: Vec<ConnectionMeta>,
}

impl View for ConnectionManager {
    type V = Seq<ConnectionMetaView>;

    closed spec fn view(&self) -> Seq<ConnectionMetaView> {
        connections(self.cluster_connections@)
    }
}

impl ConnectionManager {
    /// An empty table.
    pub fn new() -> (r: Self)
        ensures
            r@ == Seq::<ConnectionMetaView>::empty(),
    {
        let r = ConnectionManager { cluster_connections: Vec::new() };
        assert(r@ =~= Seq::<ConnectionMetaView>::empty());
        r
    }

    /// The number of connections.
    pub fn len(&self) -> (n: usize)
        ensures
            n == self@.len(),
    {
        self.cluster_connections.len()
    }

    /// Enters a connection, behind those already there.
    pub fn add_connection(&mut self, meta: ConnectionMeta)
        ensures
            final(self)@ == old(self)@.push(meta@),
    {
        self.cluster_connections.push(meta);
        assert(self@ =~= old(self)@.push(meta@));
    }

    /// Takes the first connection of `identity` out of the table. Without
    /// one the table stays as it is.
    pub fn del_connection(&mut self, identity: &String) -> (found: bool)
        ensures
            found == has_identity(old(self)@, identity@),
            final(self)@ == without_first(old(self)@, identity@),
    {
        let mut i: usize = 0;
        while i < self.cluster_connections.len()
            invariant
                i <= self.cluster_connections@.len(),
                self@ == old(self)@,
                forall|k: int| 0 <= k < i ==> (#[trigger] self@[k]).identity != identity@,
            decreases self.cluster_connections.len() - i,
        {
            if self.cluster_connections[i].identity == *identity {
                proof {
                    assert(is_first_with_identity(old(self)@, identity@, i as int));
                    let j = first_with_identity(old(self)@, identity@);
                    assert(is_first_with_identity(old(self)@, identity@, j));
                    if j < i {
                        assert(self@[j].identity != identity@);
                    }
                    if i < j {
                        assert(old(self)@[i as int].identity != identity@);
                    }
                }
                self.cluster_connections.remove(i);
                assert(self@ =~= old(self)@.remove(i as int));
                return true;
            }
            i += 1;
        }
        false
    }

    /// The first connection of `cluster` that serves `dst`. A connection of
    /// another cluster is never given.
    pub fn get_connection(&self, cluster: &String, dst: u32) -> (r: Option<&ConnectionMeta>)
        ensures
            match r {
                Some(conn) => conn@.cluster == cluster@ && exists|i: int|
                    is_first_serving_in(self@, cluster@, dst, i) && conn@ == self@[i],
                None => forall|i: int|
                    0 <= i < self@.len() ==> !((#[trigger] self@[i]).cluster == cluster@
                        && self@[i].serves(dst)),
            },
    {
        let dst_text = ipv4_text(dst);
        let mut i: usize = 0;
        while i < self.cluster_connections.len()
            invariant
                i <= self.cluster_connections@.len(),
                dst_text@ == crate::network::addr::dotted(dst),
                forall|k: int|
                    0 <= k < i ==> !((#[trigger] self@[k]).cluster == cluster@ && self@[k].serves(
                        dst,
                    )),
            decreases self.cluster_connections.len() - i,
        {
            let conn = &self.cluster_connections[i];
            if conn.cluster == *cluster && match_route(
                &conn.private_ip,
                &conn.ciders,
                dst,
                &dst_text,
            ) {
                assert(is_first_serving_in(self@, cluster@, dst, i as int));
                return Some(conn);
            }
            i += 1;
        }
        None
    }

    /// Where a data frame for `dst` goes that `sender` in `cluster` sent:
    /// the first connection of the same cluster, other than the sender's
    /// own, that serves `dst`. A connection of another cluster is never
    /// given, whatever address it has.
    pub fn route(&self, cluster: &String, sender: &String, dst: u32) -> (r: Option<&ConnectionMeta>)
        ensures
            match r {
                Some(conn) => conn@.cluster == cluster@ && conn@.identity != sender@ && exists|
                    i: int,
                |
                    is_first_routable(self@, cluster@, sender@, dst, i) && conn@ == self@[i],
                None => none_routable(self@, cluster@, sender@, dst),
            },
    {
        let dst_text = ipv4_text(dst);
        let mut i: usize = 0;
        while i < self.cluster_connections.len()
            invariant
                i <= self.cluster_connections@.len(),
                dst_text@ == crate::network::addr::dotted(dst),
                forall|k: int| 0 <= k < i ==> !routable(#[trigger] self@[k], cluster@, sender@, dst),
            decreases self.cluster_connections.len() - i,
        {
            let conn = &self.cluster_connections[i];
            if conn.cluster == *cluster && !(conn.identity == *sender) && match_route(
                &conn.private_ip,
                &conn.ciders,
                dst,
                &dst_text,
            ) {
                assert(is_first_routable(self@, cluster@, sender@, dst, i as int));
                return Some(conn);
            }
            i += 1;
        }
        None
    }

    fn find(&self, cluster: &String, identity: &String) -> (r: Option<usize>)
        ensures
            match r {
                Some(i) => is_first_of(self@, cluster@, identity@, i as int),
                None => none_of(self@, cluster@, identity@),
            },
    {
        let mut i: usize = 0;
        while i < self.cluster_connections.len()
            invariant
                i <= self.cluster_connections@.len(),
                forall|k: int|
                    0 <= k < i ==> !((#[trigger] self@[k]).cluster == cluster@
                        && self@[k].identity == identity@),
            decreases self.cluster_connections.len() - i,
        {
            let conn = &self.cluster_connections[i];
            if conn.cluster == *cluster && conn.identity == *identity {
                return Some(i);
            }
            i += 1;
        }
        None
    }

    /// The first connection of `identity` in `cluster`.
    pub fn get_connection_by_identity(&self, cluster: &String, identity: &String) -> (r: Option<
        &ConnectionMeta,
    >)
        ensures
            match r {
                Some(conn) => exists|i: int|
                    is_first_of(self@, cluster@, identity@, i) && conn@ == self@[i],
                None => none_of(self@, cluster@, identity@),
            },
    {
        match self.find(cluster, identity) {
            Some(i) => Some(&self.cluster_connections[i]),
            None => None,
        }
    }

    /// Notes what a keepalive of `identity` in `cluster` stated at `now`:
    /// its public addresses, and that it was alive. Gives whether an
    /// address differs from the one held. Without a connection of
    /// `identity` in `cluster` nothing changes.
    pub fn update_connection_info(
        &mut self,
        cluster: &String,
        identity: &String,
        ipv6: String,
        port: u16,
        stun_ip: String,
        stun_port: u16,
        now: u64,
    ) -> (changed: bool)
        ensures
            none_of(old(self)@, cluster@, identity@) ==> !changed && final(self)@ == old(self)@,
            !none_of(old(self)@, cluster@, identity@) ==> exists|i: int|
                {
                    &&& is_first_of(old(self)@, cluster@, identity@, i)
                    &&& final(self)@ == old(self)@.update(
                        i,
                        ConnectionMetaView {
                            ipv6: ipv6@,
                            port,
                            stun_ip: stun_ip@,
                            stun_port,
                            last_active: now,
                            ..old(self)@[i]
                        },
                    )
                    &&& changed == (old(self)@[i].ipv6 != ipv6@ || old(self)@[i].port != port
                        || old(self)@[i].stun_ip != stun_ip@ || old(self)@[i].stun_port
                        != stun_port)
                },
    {
        match self.find(cluster, identity) {
            None => false,
            Some(i) => {
                let conn = &self.cluster_connections[i];
                let changed = !(conn.ipv6 == ipv6) || conn.port != port || !(conn.stun_ip
                    == stun_ip) || conn.stun_port != stun_port;
                self.cluster_connections[i].ipv6 = ipv6;
                self.cluster_connections[i].port = port;
                self.cluster_connections[i].stun_ip = stun_ip;
                self.cluster_connections[i].stun_port = stun_port;
                self.cluster_connections[i].last_active = now;
                proof {
                    assert(is_first_of(old(self)@, cluster@, identity@, i as int));
                    assert(self@ =~= old(self)@.update(
                        i as int,
                        ConnectionMetaView {
                            ipv6: ipv6@,
                            port,
                            stun_ip: stun_ip@,
                            stun_port,
                            last_active: now,
                            ..old(self)@[i as int]
                        },
                    ));
                }
                changed
            },
        }
    }

    /// A copy of every connection, in the order of the table.
    pub fn dump_connection_info(&self) -> (r: Vec<ConnectionMeta>)
        ensures
            connections(r@) == self@,
    {
        let mut out: Vec<ConnectionMeta> = Vec::new();
        let mut i: usize = 0;
        while i < self.cluster_connections.len()
            invariant
                i <= self.cluster_connections@.len(),
                out@.len() == i,
                forall|k: int| 0 <= k < i ==> out@[k]@ == self@[k],
            decreases self.cluster_connections.len() - i,
        {
            out.push(self.cluster_connections[i].duplicate());
            i += 1;
        }
        assert(connections(out@) =~= self@);
        out
    }
}

impl Default for ConnectionManager {
    fn default() -> (r: Self)
        ensures
            r@ == Seq::<ConnectionMetaView>::empty(),
    {
        Self::new()
    }
}

} // verus!
