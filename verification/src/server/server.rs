//! What the relay server does with the frames of one connection: the
//! handshake, the keepalive, and the routing of data inside a cluster.

use vstd::prelude::*;
use vstd::string::*;
use crate::codec::frame::clone_texts;
use crate::codec::frame::details;
use crate::codec::frame::Frame;
use crate::codec::frame::FrameView;
use crate::codec::frame::HandshakeFrame;
use crate::codec::frame::HandshakeReplyFrame;
use crate::codec::frame::HandshakeReplyView;
use crate::codec::frame::KeepAliveFrame;
use crate::codec::frame::KeepAliveView;
use crate::codec::frame::PeerDetail;
use crate::codec::frame::PeerDetailView;
use crate::codec::frame::MIN_IPV4_LEN;
use crate::network::connection_manager::has_identity;
use crate::network::connection_manager::is_first_of;
use crate::network::connection_manager::is_first_routable;
use crate::network::connection_manager::none_of;
use crate::network::connection_manager::none_routable;
use crate::network::connection_manager::without_first;
use crate::network::connection_manager::ConnectionManager;
use crate::network::connection_manager::ConnectionMeta;
use crate::network::connection_manager::ConnectionMetaView;
use crate::server::client_manager::client_position;
use crate::server::client_manager::has_client;
use crate::server::client_manager::records;
use crate::server::client_manager::ClientConfig;
use crate::server::client_manager::ClientConfigView;
use crate::server::client_manager::ClientManager;

verus! {

/// How many frames the outbound queue of a connection holds.
pub const OUTBOUND_BUFFER_SIZE: usize = 1000;

/// Why the server let a data frame fall.
#[derive(Clone, Copy, Debug, PartialEq, Eq, Structural)]
pub enum DropReason {
    /// The payload is shorter than an IPv4 header.
    InvalidPacket,
    /// The payload is not an IPv4 packet.
    NotIpv4,
    /// The connection has not finished its handshake.
    NotReady,
    /// No other client of the cluster serves the destination.
    NoRoute,
}

/// What the server does with a frame.
#[derive(Debug, Clone)]
pub enum ServerAction {
    /// Queue the frame for the client that sent the frame in hand.
    Reply(Frame),
    /// Queue the frame for the connection with this number.
    Forward { to: u64, frame: Frame },
    /// Let the frame fall.
    Drop(DropReason),
    /// Do nothing.
    Ignore,
}

/// A breach of the protocol that ends the connection.
#[derive(Clone, Copy, Debug, PartialEq, Eq, Structural)]
pub enum ProtocolError {
    /// The first frame was not the one that the protocol asks for.
    UnexpectedFrame,
}

/// The place of the first connection of `identity` in `cluster`.
pub open spec fn first_of(table: Seq<ConnectionMetaView>, cluster: Seq<char>, identity: Seq<char>) -> int {
    choose|i: int| is_first_of(table, cluster, identity, i)
}

/// What a client is told of the other member `client` of its cluster: its
/// identity, private address and ranges from the record, and its public
/// addresses and last keepalive from its connection in `cluster`, or
/// nothing of those when it is not connected.
pub open spec fn detail_of(
    client: ClientConfigView,
    table: Seq<ConnectionMetaView>,
    cluster: Seq<char>,
) -> PeerDetailView {
    if none_of(table, cluster, client.identity) {
        PeerDetailView {
            identity: client.identity,
            private_ip: client.private_ip,
            ciders: client.ciders,
            ipv6: Seq::empty(),
            port: 0,
            stun_ip: Seq::empty(),
            stun_port: 0,
            last_active: 0,
        }
    } else {
        let conn = table[first_of(table, cluster, client.identity)];
        PeerDetailView {
            identity: client.identity,
            private_ip: client.private_ip,
            ciders: client.ciders,
            ipv6: conn.ipv6,
            port: conn.port,
            stun_ip: conn.stun_ip,
            stun_port: conn.stun_port,
            last_active: conn.last_active,
        }
    }
}

/// What a client is told of each of `others`.
pub open spec fn details_of(
    others: Seq<ClientConfigView>,
    table: Seq<ConnectionMetaView>,
    cluster: Seq<char>,
) -> Seq<PeerDetailView> {
    Seq::new(others.len(), |i: int| detail_of(others[i], table, cluster))
}

/// The connection that a handshake enters into the table: nothing is known
/// of the client's public addresses yet.
pub open spec fn entered(client: ClientConfigView, conn_id: u64, now: u64) -> ConnectionMetaView {
    ConnectionMetaView {
        cluster: client.cluster,
        identity: client.identity,
        private_ip: client.private_ip,
        mask: client.mask,
        gateway: client.gateway,
        ciders: client.ciders,
        ipv6: Seq::empty(),
        port: 0,
        stun_ip: Seq::empty(),
        stun_port: 0,
        last_active: now,
        conn_id,
    }
}

/// The table after a keepalive came at `now` on the connection of
/// `identity` in `cluster`: that connection takes the public addresses
/// that the keepalive states, and is alive at `now`.
pub open spec fn kept_alive(
    table: Seq<ConnectionMetaView>,
    cluster: Seq<char>,
    identity: Seq<char>,
    keepalive: KeepAliveView,
    now: u64,
) -> Seq<ConnectionMetaView> {
    if none_of(table, cluster, identity) {
        table
    } else {
        let i = first_of(table, cluster, identity);
        table.update(
            i,
            ConnectionMetaView {
                ipv6: keepalive.ipv6,
                port: keepalive.port,
                stun_ip: keepalive.stun_ip,
                stun_port: keepalive.stun_port,
                last_active: now,
                ..table[i]
            },
        )
    }
}

/// The first connection of its kind is the only first one.
pub proof fn lemma_first_of_is_unique(
    table: Seq<ConnectionMetaView>,
    cluster: Seq<char>,
    identity: Seq<char>,
    i: int,
)
    requires
        is_first_of(table, cluster, identity, i),
    ensures
        !none_of(table, cluster, identity),
        first_of(table, cluster, identity) == i,
{
    let j = first_of(table, cluster, identity);
    assert(is_first_of(table, cluster, identity, j));
    if j < i {
        assert(!(table[j].cluster == cluster && table[j].identity == identity));
    }
    if i < j {
        assert(!(table[i].cluster == cluster && table[i].identity == identity));
    }
}

/// The server's side of one connection.
pub struct Handler {
    cluster: Option<String>,
    identity: Option<String>,
    conn_id: u64,
}

impl Handler {
    /// The cluster of the client, once its handshake was accepted.
    pub closed spec fn cluster(&self) -> Option<Seq<char>> {
        match self.cluster {
            Some(c) => Some(c@),
            None => None,
        }
    }

    /// The identity of the client, once its handshake was accepted.
    pub closed spec fn identity(&self) -> Option<Seq<char>> {
        match self.identity {
            Some(c) => Some(c@),
            None => None,
        }
    }

    /// The number of the connection's outbound queue.
    pub closed spec fn conn_id(&self) -> u64 {
        self.conn_id
    }

    /// Cluster and identity are set together.
    pub open spec fn wf(&self) -> bool {
        self.cluster() is Some <==> self.identity() is Some
    }

    /// The handler of a connection that has not made its handshake.
    pub fn new(conn_id: u64) -> (r: Self)
        ensures
            r.wf(),
            r.cluster() is None,
            r.identity() is None,
            r.conn_id() == conn_id,
    {
        Handler { cluster: None, identity: None, conn_id }
    }

    /// Takes the first frame of a connection, which must be a handshake.
    pub fn handle_handshake(frame: Frame) -> (r: Result<HandshakeFrame, ProtocolError>)
        ensures
            match frame@ {
                FrameView::Handshake { identity } => r matches Ok(hs) && hs.identity@ == identity,
                _ => r == Err::<HandshakeFrame, ProtocolError>(ProtocolError::UnexpectedFrame),
            },
    {
        match frame {
            Frame::Handshake(hs) => Ok(hs),
            _ => Err(ProtocolError::UnexpectedFrame),
        }
    }

    /// What a client is told of one other member of its cluster.
    fn build_detail(
        client: &ClientConfig,
        cluster: &String,
        connections: &ConnectionManager,
    ) -> (r: PeerDetail)
        ensures
            r@ == detail_of(client@, connections@, cluster@),
    {
        match connections.get_connection_by_identity(cluster, &client.identity) {
            Some(conn) => {
                proof {
                    let i = choose|i: int|
                        is_first_of(connections@, cluster@, client.identity@, i) && conn@
                            == connections@[i];
                    lemma_first_of_is_unique(connections@, cluster@, client.identity@, i);
                }
                PeerDetail {
                    identity: client.identity.clone(),
                    private_ip: client.private_ip.clone(),
                    ciders: clone_texts(&client.ciders),
                    ipv6: conn.ipv6.clone(),
                    port: conn.port,
                    stun_ip: conn.stun_ip.clone(),
                    stun_port: conn.stun_port,
                    last_active: conn.last_active,
                }
            },
            None => PeerDetail {
                identity: client.identity.clone(),
                private_ip: client.private_ip.clone(),
                ciders: clone_texts(&client.ciders),
                ipv6: String::new(),
                port: 0,
                stun_ip: String::new(),
                stun_port: 0,
                last_active: 0,
            },
        }
    }

    /// The peers that the client `my_id` is told of: every other member of
    /// its cluster, each with what its connection in `cluster` states of
    /// its public addresses, if it is connected.
    pub fn build_others(
        cluster: &String,
        my_id: &String,
        clients: &ClientManager,
        connections: &ConnectionManager,
    ) -> (r: Vec<PeerDetail>)
        requires
            clients.wf(),
        ensures
            details(r@) == details_of(clients.others(my_id@), connections@, cluster@),
    {
        let others = clients.get_cluster_clients_exclude(my_id);
        let mut out: Vec<PeerDetail> = Vec::new();
        let mut i: usize = 0;
        while i < others.len()
            invariant
                i <= others@.len(),
                records(others@) == clients.others(my_id@),
                out@.len() == i,
                forall|k: int|
                    0 <= k < i ==> out@[k]@ == detail_of(
                        records(others@)[k],
                        connections@,
                        cluster@,
                    ),
            decreases others.len() - i,
        {
            out.push(Self::build_detail(&others[i], cluster, connections));
            i += 1;
        }
        assert(details(out@) =~= details_of(clients.others(my_id@), connections@, cluster@));
        out
    }

    /// Answers a handshake. A client without a record gets no reply, and
    /// the connection is to be closed. A client with a record is told its
    /// place in the overlay and the other members of its cluster, and its
    /// connection is entered into the table as alive at `now`.
    pub fn accept(
        &mut self,
        handshake: &HandshakeFrame,
        clients: &ClientManager,
        connections: &mut ConnectionManager,
        now: u64,
    ) -> (r: Option<HandshakeReplyFrame>)
        requires
            clients.wf(),
        ensures
            final(self).conn_id() == old(self).conn_id(),
            match r {
                None => {
                    &&& !has_client(clients.clients(), handshake.identity@)
                    &&& final(connections)@ == old(connections)@
                    &&& final(self).cluster() == old(self).cluster()
                    &&& final(self).identity() == old(self).identity()
                },
                Some(reply) => {
                    let client = clients.clients()[client_position(
                        clients.clients(),
                        handshake.identity@,
                    )];
                    &&& has_client(clients.clients(), handshake.identity@)
                    &&& reply@ == HandshakeReplyView {
                        private_ip: client.private_ip,
                        mask: client.mask,
                        gateway: client.gateway,
                        peer_details: details_of(
                            clients.others(handshake.identity@),
                            old(connections)@,
                            client.cluster,
                        ),
                    }
                    &&& final(connections)@ == old(connections)@.push(
                        entered(client, old(self).conn_id(), now),
                    )
                    &&& final(self).cluster() == Some(client.cluster)
                    &&& final(self).identity() == Some(client.identity)
                    &&& final(self).wf()
                },
            },
    {
        let client = match clients.get_client(&handshake.identity) {
            Some(c) => c,
            None => {
                return None;
            },
        };
        let peer_details = Self::build_others(
            &client.cluster,
            &handshake.identity,
            clients,
            &*connections,
        );
        let reply = HandshakeReplyFrame {
            private_ip: client.private_ip.clone(),
            mask: client.mask.clone(),
            gateway: client.gateway.clone(),
            peer_details,
        };
        let meta = ConnectionMeta {
            cluster: client.cluster.clone(),
            identity: client.identity.clone(),
            private_ip: client.private_ip.clone(),
            mask: client.mask.clone(),
            gateway: client.gateway.clone(),
            ciders: clone_texts(&client.ciders),
            ipv6: String::new(),
            port: 0,
            stun_ip: String::new(),
            stun_port: 0,
            last_active: now,
            conn_id: self.conn_id,
        };
        self.cluster = Some(client.cluster.clone());
        self.identity = Some(client.identity.clone());
        connections.add_connection(meta);
        Some(reply)
    }

    /// Takes a frame from an accepted client at `now`.
    ///
    /// A keepalive updates what the table holds of this connection's public
    /// addresses and is answered by a keepalive that echoes the frame and
    /// lists the other members of the cluster as they are then. A data
    /// frame that is an IPv4 packet goes to the first other connection of
    /// the same cluster that serves its destination; without one it falls.
    /// A data frame never leaves the cluster of its sender. Every other
    /// frame is ignored.
    pub fn handle_frame(
        &self,
        frame: Frame,
        clients: &ClientManager,
        connections: &mut ConnectionManager,
        now: u64,
    ) -> (r: ServerAction)
        requires
            clients.wf(),
            self.wf(),
        ensures
            match frame@ {
                FrameView::KeepAlive(keepalive) => match self.cluster() {
                    Some(cluster) => {
                        &&& final(connections)@ == kept_alive(
                            old(connections)@,
                            cluster,
                            self.identity()->0,
                            keepalive,
                            now,
                        )
                        &&& r matches ServerAction::Reply(reply)
                        &&& reply@ == FrameView::KeepAlive(
                            KeepAliveView {
                                peer_details: details_of(
                                    clients.others(self.identity()->0),
                                    final(connections)@,
                                    cluster,
                                ),
                                ..keepalive
                            },
                        )
                    },
                    None => {
                        &&& final(connections)@ == old(connections)@
                        &&& r matches ServerAction::Reply(reply)
                        &&& reply@ == FrameView::KeepAlive(
                            KeepAliveView { peer_details: Seq::empty(), ..keepalive },
                        )
                    },
                },
                FrameView::Data { payload } => {
                    &&& final(connections)@ == old(connections)@
                    &&& if payload.len() < MIN_IPV4_LEN {
                        r matches ServerAction::Drop(DropReason::InvalidPacket)
                    } else if payload[0] / 16 != 4 {
                        r matches ServerAction::Drop(DropReason::NotIpv4)
                    } else if self.cluster() is None {
                        r matches ServerAction::Drop(DropReason::NotReady)
                    } else {
                        let cluster = self.cluster()->0;
                        let sender = self.identity()->0;
                        let dst = crate::network::addr::spec_ipv4(
                            payload[16],
                            payload[17],
                            payload[18],
                            payload[19],
                        );
                        if none_routable(old(connections)@, cluster, sender, dst) {
                            r matches ServerAction::Drop(DropReason::NoRoute)
                        } else {
                            exists|i: int|
                                {
                                    &&& is_first_routable(
                                        old(connections)@,
                                        cluster,
                                        sender,
                                        dst,
                                        i,
                                    )
                                    &&& old(connections)@[i].cluster == cluster
                                    &&& r matches ServerAction::Forward { to, frame: out }
                                    &&& to == old(connections)@[i].conn_id
                                    &&& out@ == frame@
                                }
                        }
                    }
                },
                _ => final(connections)@ == old(connections)@ && r is Ignore,
            },
    {
        match frame {
            Frame::KeepAlive(keepalive) => {
                let peer_details = match (&self.cluster, &self.identity) {
                    (Some(cluster), Some(identity)) => {
                        let ghost before = connections@;
                        connections.update_connection_info(
                            cluster,
                            identity,
                            keepalive.ipv6.clone(),
                            keepalive.port,
                            keepalive.stun_ip.clone(),
                            keepalive.stun_port,
                            now,
                        );
                        proof {
                            if !none_of(before, cluster@, identity@) {
                                let i = choose|i: int|
                                    {
                                        &&& is_first_of(before, cluster@, identity@, i)
                                        &&& connections@ == before.update(
                                            i,
                                            ConnectionMetaView {
                                                ipv6: keepalive.ipv6@,
                                                port: keepalive.port,
                                                stun_ip: keepalive.stun_ip@,
                                                stun_port: keepalive.stun_port,
                                                last_active: now,
                                                ..before[i]
                                            },
                                        )
                                    };
                                lemma_first_of_is_unique(before, cluster@, identity@, i);
                            }
                        }
                        Self::build_others(cluster, identity, clients, &*connections)
                    },
                    _ => {
                        let empty: Vec<PeerDetail> = Vec::new();
                        assert(details(empty@) =~= Seq::<PeerDetailView>::empty());
                        empty
                    },
                };
                let reply = Frame::KeepAlive(
                    KeepAliveFrame {
                        identity: keepalive.identity,
                        ipv6: keepalive.ipv6,
                        port: keepalive.port,
                        stun_ip: keepalive.stun_ip,
                        stun_port: keepalive.stun_port,
                        peer_details,
                    },
                );
                ServerAction::Reply(reply)
            },
            Frame::Data(data) => {
                if data.invalid() {
                    return ServerAction::Drop(DropReason::InvalidPacket);
                }
                if data.version() != 4 {
                    return ServerAction::Drop(DropReason::NotIpv4);
                }
                let dst = data.dst_addr();
                match (&self.cluster, &self.identity) {
                    (Some(cluster), Some(sender)) => {
                        match connections.route(cluster, sender, dst) {
                            Some(target) => {
                                let to = target.conn_id;
                                ServerAction::Forward { to, frame: Frame::Data(data) }
                            },
                            None => ServerAction::Drop(DropReason::NoRoute),
                        }
                    },
                    _ => ServerAction::Drop(DropReason::NotReady),
                }
            },
            _ => ServerAction::Ignore,
        }
    }

    /// Takes the connection out of the table when it ends.
    pub fn close(&self, connections: &mut ConnectionManager) -> (found: bool)
        ensures
            match self.identity() {
                Some(identity) => {
                    &&& found == has_identity(old(connections)@, identity)
                    &&& final(connections)@ == without_first(old(connections)@, identity)
                },
                None => !found && final(connections)@ == old(connections)@,
            },
    {
        match &self.identity {
            Some(identity) => connections.del_connection(identity),
            None => false,
        }
    }
}

} // verus!
