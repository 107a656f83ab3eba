//! What the server reports of its connections to the control plane.

use vstd::prelude::*;
use vstd::string::*;
use crate::network::connection_manager::connections;
use crate::network::connection_manager::ConnectionMeta;
use crate::network::connection_manager::ConnectionMetaView;
use crate::utils::text::parse_u64;
use crate::utils::text::u64_of_text;

verus! {

/// The HTTP status of an answer that was understood.
pub const HTTP_OK: u16 = 200;

/// Seconds that a request to the control plane may take.
pub const REQUEST_TIMEOUT_SECS: u64 = 30;

/// One connected client, as the control plane is told of it.
#[derive(Debug, Clone)]
pub struct ConnectionUpdateRequest {
    /// The number of the client's cluster.
    pub cluster_id: u64,
    /// The client's identity.
    pub identity: String,
    /// Unix seconds of the client's last keepalive.
    pub last_active: Option<u64>,
}

/// The mathematical value of a [`ConnectionUpdateRequest`].
pub ghost struct ConnectionUpdateView {
    pub cluster_id: u64,
    pub identity: Seq<char>,
    pub last_active: Option<u64>,
}

impl View for ConnectionUpdateRequest {
    type V = ConnectionUpdateView;

    open spec fn view(&self) -> ConnectionUpdateView {
        ConnectionUpdateView {
            cluster_id: self.cluster_id,
            identity: self.identity@,
            last_active: self.last_active,
        }
    }
}

/// The views of a sequence of updates.
pub open spec fn updates(v: Seq<ConnectionUpdateRequest>) -> Seq<ConnectionUpdateView> {
    Seq::new(v.len(), |i: int| v[i]@)
}

/// What the control plane is told of `table`: one update for every
/// connection whose cluster is named by a number, in the order of the
/// table. Connections of other clusters are passed over.
pub open spec fn reported(table: Seq<ConnectionMetaView>) -> Seq<ConnectionUpdateView>
    decreases table.len(),
{
    if table.len() == 0 {
        Seq::empty()
    } else {
        let rest = reported(table.drop_last());
        match u64_of_text(table.last().cluster) {
            Some(cluster_id) => rest.push(
                ConnectionUpdateView {
                    cluster_id,
                    identity: table.last().identity,
                    last_active: Some(table.last().last_active),
                },
            ),
            None => rest,
        }
    }
}

/// Makes the report of the connections for the control plane.
pub fn report_connections(table: &Vec<ConnectionMeta>) -> (r: Vec<ConnectionUpdateRequest>)
    ensures
        updates(r@) == reported(connections(table@)),
{
    let mut out: Vec<ConnectionUpdateRequest> = Vec::new();
    let mut i: usize = 0;
    assert(connections(table@).take(0) =~= Seq::<ConnectionMetaView>::empty());
    assert(updates(out@) =~= Seq::<ConnectionUpdateView>::empty());
    while i < table.len()
        invariant
            i <= table.len(),
            updates(out@) == reported(connections(table@).take(i as int)),
        decreases table.len() - i,
    {
        proof {
            let next = connections(table@).take(i + 1);
            assert(next.drop_last() =~= connections(table@).take(i as int));
            assert(next.last() == table@[i as int]@);
        }
        let meta = &table[i];
        if let Some(cluster_id) = parse_u64(meta.cluster.as_str()) {
            let ghost before = updates(out@);
            let update = ConnectionUpdateRequest {
                cluster_id,
                identity: meta.identity.clone(),
                last_active: Some(meta.last_active),
            };
            out.push(update);
            assert(updates(out@) =~= before.push(update@));
        }
        i += 1;
    }
    assert(connections(table@).take(i as int) =~= connections(table@));
    out
}

/// Whether the control plane understood a request.
pub fn accepted(status: u16) -> (r: bool)
    ensures
        r == (status == HTTP_OK),
{
    status == HTTP_OK
}

} // verus!
