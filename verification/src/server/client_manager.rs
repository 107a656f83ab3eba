//! The store of client records: who may connect, and what each client is
//! told of the overlay.

use vstd::prelude::*;
use vstd::string::*;
use crate::codec::frame::clone_texts;
use crate::codec::frame::texts;

verus! {

/// One translation of a CIDR range into another.
#[derive(Debug, Clone)]
pub struct CiderMapping {
    pub from: String,
    pub to: String,
}

/// The views of a sequence of mappings.
pub open spec fn mappings(v: Seq<CiderMapping>) -> Seq<(Seq<char>, Seq<char>)> {
    Seq::new(v.len(), |i: int| (v[i].from@, v[i].to@))
}

fn clone_mappings(v: &Vec<CiderMapping>) -> (r: Vec<CiderMapping>)
    ensures
        mappings(r@) == mappings(v@),
{
    let mut out: Vec<CiderMapping> = Vec::new();
    let mut i: usize = 0;
    while i < v.len()
        invariant
            i <= v.len(),
            out@.len() == i,
            forall|j: int| 0 <= j < i ==> out@[j].from@ == v@[j].from@ && out@[j].to@ == v@[j].to@,
        decreases v.len() - i,
    {
        out.push(CiderMapping { from: v[i].from.clone(), to: v[i].to.clone() });
        i += 1;
    }
    assert(mappings(out@) =~= mappings(v@));
    out
}

/// The record of one client, as the operator wrote it.
#[derive(Debug, Clone)]
pub struct ClientConfig {
    /// The tenant that the client belongs to.
    pub cluster: String,
    /// The client's identity, by which it introduces itself.
    pub identity: String,
    /// The client's address inside the overlay.
    pub private_ip: String,
    /// The netmask of the overlay.
    pub mask: String,
    /// The gateway of the overlay.
    pub gateway: String,
    /// The CIDR ranges reached through the client.
    pub ciders: Vec<String>,
    /// Ranges that the client translates.
    pub cider_mapping: Vec<CiderMapping>,
}

/// The mathematical value of a [`ClientConfig`].
pub ghost struct ClientConfigView {
    pub cluster: Seq<char>,
    pub identity: Seq<char>,
    pub private_ip: Seq<char>,
    pub mask: Seq<char>,
    pub gateway: Seq<char>,
    pub ciders: Seq<Seq<char>>,
    pub cider_mapping: Seq<(Seq<char>, Seq<char>)>,
}

impl View for ClientConfig {
    type V = ClientConfigView;

    open spec fn view(&self) -> ClientConfigView {
        ClientConfigView {
            cluster: self.cluster@,
            identity: self.identity@,
            private_ip: self.private_ip@,
            mask: self.mask@,
            gateway: self.gateway@,
            ciders: texts(self.ciders@),
            cider_mapping: mappings(self.cider_mapping@),
        }
    }
}

impl ClientConfig {
    /// A copy of this record.
    pub fn duplicate(&self) -> (r: ClientConfig)
        ensures
            r@ == self@,
    {
        ClientConfig {
            cluster: self.cluster.clone(),
            identity: self.identity.clone(),
            private_ip: self.private_ip.clone(),
            mask: self.mask.clone(),
            gateway: self.gateway.clone(),
            ciders: clone_texts(&self.ciders),
            cider_mapping: clone_mappings(&self.cider_mapping),
        }
    }
}

/// The views of a sequence of records.
pub open spec fn records(v: Seq<ClientConfig>) -> Seq<ClientConfigView> {
    Seq::new(v.len(), |i: int| v[i]@)
}

/// Whether no identity occurs twice.
pub open spec fn distinct_identities(clients: Seq<ClientConfigView>) -> bool {
    forall|i: int, j: int|
        0 <= i < j < clients.len() ==> (#[trigger] clients[i]).identity != (
        #[trigger] clients[j]).identity
}

/// Whether a record for `identity` is among `clients`.
pub open spec fn has_client(clients: Seq<ClientConfigView>, identity: Seq<char>) -> bool {
    exists|i: int| 0 <= i < clients.len() && (#[trigger] clients[i]).identity == identity
}

/// The place of the record for `identity`, when there is one.
pub open spec fn client_position(clients: Seq<ClientConfigView>, identity: Seq<char>) -> int {
    choose|i: int| 0 <= i < clients.len() && (#[trigger] clients[i]).identity == identity
}

/// The records by identity after `client` was put in: it takes the place of
/// a record with its identity, or comes last.
pub open spec fn put(clients: Seq<ClientConfigView>, client: ClientConfigView) -> Seq<
    ClientConfigView,
> {
    if has_client(clients, client.identity) {
        clients.update(client_position(clients, client.identity), client)
    } else {
        clients.push(client)
    }
}

/// The records by identity after all of `added` were put in, in order.
pub open spec fn put_all(clients: Seq<ClientConfigView>, added: Seq<ClientConfigView>) -> Seq<
    ClientConfigView,
>
    decreases added.len(),
{
    if added.len() == 0 {
        clients
    } else {
        put(put_all(clients, added.drop_last()), added.last())
    }
}

/// The records of `clients` that are in `cluster`, in order.
pub open spec fn of_cluster(clients: Seq<ClientConfigView>, cluster: Seq<char>) -> Seq<
    ClientConfigView,
>
    decreases clients.len(),
{
    if clients.len() == 0 {
        Seq::empty()
    } else {
        let rest = of_cluster(clients.drop_last(), cluster);
        if clients.last().cluster == cluster {
            rest.push(clients.last())
        } else {
            rest
        }
    }
}

/// The records of `clients` that are in `cluster` and not of `identity`,
/// in order.
pub open spec fn of_cluster_without(
    clients: Seq<ClientConfigView>,
    cluster: Seq<char>,
    identity: Seq<char>,
) -> Seq<ClientConfigView>
    decreases clients.len(),
{
    if clients.len() == 0 {
        Seq::empty()
    } else {
        let rest = of_cluster_without(clients.drop_last(), cluster, identity);
        if clients.last().cluster == cluster && clients.last().identity != identity {
            rest.push(clients.last())
        } else {
            rest
        }
    }
}

/// In a store without repeated identities, the record at a place is the
/// record of its identity.
pub proof fn lemma_record_at(clients: Seq<ClientConfigView>, i: int)
    requires
        distinct_identities(clients),
        0 <= i < clients.len(),
    ensures
        has_client(clients, clients[i].identity),
        client_position(clients, clients[i].identity) == i,
{
    let j = client_position(clients, clients[i].identity);
    assert(clients[j].identity == clients[i].identity);
    if j < i {
        assert(clients[j].identity != clients[i].identity);
    }
    if i < j {
        assert(clients[i].identity != clients[j].identity);
    }
}

/// Putting a record in leaves one record for each identity: the new one for
/// its own identity, found where `client_position` says, and for every
/// other identity the record that was held.
pub proof fn lemma_put(clients: Seq<ClientConfigView>, client: ClientConfigView)
    requires
        distinct_identities(clients),
    ensures
        distinct_identities(put(clients, client)),
        has_client(put(clients, client), client.identity),
        put(clients, client)[client_position(put(clients, client), client.identity)] == client,
        forall|identity: Seq<char>|
            identity != client.identity ==> (#[trigger] has_client(put(clients, client), identity)
                == has_client(clients, identity)),
        forall|identity: Seq<char>|
            identity != client.identity && has_client(clients, identity) ==> put(
                clients,
                client,
            )[#[trigger] client_position(put(clients, client), identity)]
                == clients[client_position(clients, identity)],
{
    let after = put(clients, client);
    let at = if has_client(clients, client.identity) {
        client_position(clients, client.identity)
    } else {
        clients.len() as int
    };
    assert(after[at] == client);
    assert forall|i: int, j: int| 0 <= i < j < after.len() implies (#[trigger] after[i]).identity
        != (#[trigger] after[j]).identity by {
        if has_client(clients, client.identity) {
            assert(clients[i].identity != clients[j].identity);
        } else if j == clients.len() {
            assert(clients[i].identity != client.identity);
        } else {
            assert(clients[i].identity != clients[j].identity);
        }
    }
    lemma_record_at(after, at);
    assert forall|identity: Seq<char>| identity != client.identity implies (#[trigger] has_client(
        after,
        identity,
    ) == has_client(clients, identity)) by {
        if has_client(after, identity) {
            let i = choose|i: int| 0 <= i < after.len() && (#[trigger] after[i]).identity
                == identity;
            assert(clients[i].identity == identity);
        }
        if has_client(clients, identity) {
            let i = choose|i: int| 0 <= i < clients.len() && (#[trigger] clients[i]).identity
                == identity;
            assert(after[i].identity == identity);
        }
    }
    assert forall|identity: Seq<char>|
        identity != client.identity && has_client(clients, identity) implies after[#[trigger] client_position(
        after,
        identity,
    )] == clients[client_position(clients, identity)] by {
        let i = client_position(clients, identity);
        assert(clients[i].identity == identity);
        assert(after[i] == clients[i]);
        lemma_record_at(after, i);
    }
}

/// What the list of a cluster's other members holds: exactly the records
/// of the store that are in the cluster and not of `identity`, and no
/// identity twice.
pub proof fn lemma_of_cluster_without(
    clients: Seq<ClientConfigView>,
    cluster: Seq<char>,
    identity: Seq<char>,
)
    requires
        distinct_identities(clients),
    ensures
        distinct_identities(of_cluster_without(clients, cluster, identity)),
        forall|r: ClientConfigView|
            #[trigger] of_cluster_without(clients, cluster, identity).contains(r) <==> clients.contains(
                r,
            ) && r.cluster == cluster && r.identity != identity,
    decreases clients.len(),
{
    let out = of_cluster_without(clients, cluster, identity);
    if clients.len() == 0 {
        assert forall|r: ClientConfigView| out.contains(r) <==> clients.contains(r) && r.cluster
            == cluster && r.identity != identity by {
        }
    } else {
        let head = clients.drop_last();
        let last = clients.last();
        let rest = of_cluster_without(head, cluster, identity);
        assert(distinct_identities(head)) by {
            assert forall|i: int, j: int| 0 <= i < j < head.len() implies (#[trigger] head[i]).identity
                != (#[trigger] head[j]).identity by {
                assert(clients[i].identity != clients[j].identity);
            }
        }
        lemma_of_cluster_without(head, cluster, identity);
        assert forall|r: ClientConfigView| out.contains(r) <==> clients.contains(r) && r.cluster
            == cluster && r.identity != identity by {
            if out.contains(r) {
                let i = choose|i: int| 0 <= i < out.len() && out[i] == r;
                if i < rest.len() {
                    assert(rest[i] == r);
                    assert(of_cluster_without(head, cluster, identity).contains(r));
                    let k = choose|k: int| 0 <= k < head.len() && head[k] == r;
                    assert(clients[k] == r);
                } else {
                    assert(r == last);
                    assert(clients[clients.len() - 1] == r);
                }
            }
            if clients.contains(r) && r.cluster == cluster && r.identity != identity {
                let k = choose|k: int| 0 <= k < clients.len() && clients[k] == r;
                if k < head.len() {
                    assert(head[k] == r);
                    assert(head.contains(r));
                    assert(of_cluster_without(head, cluster, identity).contains(r));
                    let i = choose|i: int| 0 <= i < rest.len() && rest[i] == r;
                    assert(out[i] == r);
                } else {
                    assert(out[out.len() - 1] == r);
                }
            }
        }
        assert forall|i: int, j: int| 0 <= i < j < out.len() implies (#[trigger] out[i]).identity
            != (#[trigger] out[j]).identity by {
            if j == rest.len() {
                assert(rest[i] == out[i]);
                assert(of_cluster_without(head, cluster, identity).contains(rest[i]));
                let k = choose|k: int| 0 <= k < head.len() && head[k] == rest[i];
                assert(clients[k].identity != clients[clients.len() - 1].identity);
            } else {
                assert(rest[i].identity != rest[j].identity);
            }
        }
    }
}

/// The store of client records: one record for each identity, in the order
/// in which the identities first came. The members of a cluster are the
/// records of the store that name the cluster, so the two never disagree.
pub struct ClientManager {
    clients: Vec<ClientConfig>,
}

impl ClientManager {
    /// The records: at most one for each identity.
    pub closed spec fn clients(&self) -> Seq<ClientConfigView> {
        records(self.clients@)
    }

    /// No identity has two records.
    pub open spec fn wf(&self) -> bool {
        distinct_identities(self.clients())
    }

    /// The members of `cluster`.
    pub open spec fn members(&self, cluster: Seq<char>) -> Seq<ClientConfigView> {
        of_cluster(self.clients(), cluster)
    }

    /// The other members of the cluster of `identity`; none when `identity`
    /// has no record.
    pub open spec fn others(&self, identity: Seq<char>) -> Seq<ClientConfigView> {
        if has_client(self.clients(), identity) {
            of_cluster_without(
                self.clients(),
                self.clients()[client_position(self.clients(), identity)].cluster,
                identity,
            )
        } else {
            Seq::empty()
        }
    }

    /// An empty store.
    pub fn new() -> (r: Self)
        ensures
            r.wf(),
            r.clients() == Seq::<ClientConfigView>::empty(),
    {
        let r = ClientManager { clients: Vec::new() };
        assert(r.clients() =~= Seq::<ClientConfigView>::empty());
        r
    }

    fn find(&self, identity: &String) -> (r: Option<usize>)
        requires
            self.wf(),
        ensures
            match r {
                Some(i) => has_client(self.clients(), identity@) && i == client_position(
                    self.clients(),
                    identity@,
                ) && i < self.clients().len() && self.clients()[i as int].identity == identity@,
                None => !has_client(self.clients(), identity@),
            },
    {
        let mut i: usize = 0;
        while i < self.clients.len()
            invariant
                i <= self.clients@.len(),
                self.wf(),
                forall|k: int| 0 <= k < i ==> (#[trigger] self.clients()[k]).identity != identity@,
            decreases self.clients.len() - i,
        {
            if self.clients[i].identity == *identity {
                proof {
                    assert(self.clients()[i as int].identity == identity@);
                    lemma_record_at(self.clients(), i as int);
                }
                return Some(i);
            }
            i += 1;
        }
        None
    }

    fn add_client(&mut self, client: &ClientConfig)
        requires
            old(self).wf(),
        ensures
            final(self).wf(),
            final(self).clients() == put(old(self).clients(), client@),
            has_client(final(self).clients(), client.identity@),
            final(self).clients()[client_position(final(self).clients(), client.identity@)]
                == client@,
    {
        proof {
            lemma_put(self.clients(), client@);
        }
        match self.find(&client.identity) {
            Some(i) => {
                self.clients[i] = client.duplicate();
                assert(self.clients() =~= put(old(self).clients(), client@));
            },
            None => {
                self.clients.push(client.duplicate());
                assert(self.clients() =~= put(old(self).clients(), client@));
            },
        }
    }

    /// Adds records to the store, one after the other. A record of an
    /// identity that is held takes the place of the held one; any other
    /// comes last. So the store holds one record for each identity, the
    /// last that was added, and every cluster lists each member once.
    pub fn add_clients_config(&mut self, clients: Vec<ClientConfig>)
        requires
            old(self).wf(),
        ensures
            final(self).wf(),
            final(self).clients() == put_all(old(self).clients(), records(clients@)),
    {
        let mut k: usize = 0;
        assert(records(clients@).take(0) =~= Seq::<ClientConfigView>::empty());
        while k < clients.len()
            invariant
                k <= clients@.len(),
                self.wf(),
                self.clients() == put_all(old(self).clients(), records(clients@).take(k as int)),
            decreases clients.len() - k,
        {
            proof {
                let next = records(clients@).take(k + 1);
                assert(next.drop_last() =~= records(clients@).take(k as int));
                assert(next.last() == clients@[k as int]@);
            }
            self.add_client(&clients[k]);
            k += 1;
        }
        assert(records(clients@).take(k as int) =~= records(clients@));
    }

    /// Replaces everything in the store by `clients`.
    pub fn rewrite_clients_config(&mut self, clients: Vec<ClientConfig>)
        ensures
            final(self).wf(),
            final(self).clients() == put_all(Seq::empty(), records(clients@)),
    {
        self.clients = Vec::new();
        assert(self.clients() =~= Seq::<ClientConfigView>::empty());
        self.add_clients_config(clients);
    }

    /// Takes the record of `identity` out of the store, and with it the
    /// client out of its cluster.
    pub fn del_client(&mut self, identity: &String)
        requires
            old(self).wf(),
        ensures
            final(self).wf(),
            final(self).clients() == (if has_client(old(self).clients(), identity@) {
                old(self).clients().remove(client_position(old(self).clients(), identity@))
            } else {
                old(self).clients()
            }),
    {
        match self.find(identity) {
            None => {},
            Some(i) => {
                self.clients.remove(i);
                assert(self.clients() =~= old(self).clients().remove(i as int));
            },
        }
    }

    /// The record of `identity`.
    pub fn get_client(&self, identity: &String) -> (r: Option<ClientConfig>)
        requires
            self.wf(),
        ensures
            match r {
                Some(client) => has_client(self.clients(), identity@) && client@
                    == self.clients()[client_position(self.clients(), identity@)],
                None => !has_client(self.clients(), identity@),
            },
    {
        match self.find(identity) {
            Some(i) => Some(self.clients[i].duplicate()),
            None => None,
        }
    }

    /// The members of `cluster`, in the order of the store.
    pub fn get_cluster_clients(&self, cluster: &String) -> (r: Vec<ClientConfig>)
        ensures
            records(r@) == self.members(cluster@),
    {
        let mut out: Vec<ClientConfig> = Vec::new();
        let mut k: usize = 0;
        assert(self.clients().take(0) =~= Seq::<ClientConfigView>::empty());
        assert(records(out@) =~= Seq::<ClientConfigView>::empty());
        while k < self.clients.len()
            invariant
                k <= self.clients@.len(),
                records(out@) == of_cluster(self.clients().take(k as int), cluster@),
            decreases self.clients.len() - k,
        {
            proof {
                let next = self.clients().take(k + 1);
                assert(next.drop_last() =~= self.clients().take(k as int));
                assert(next.last() == self.clients@[k as int]@);
            }
            let member = &self.clients[k];
            if member.cluster == *cluster {
                let ghost before = records(out@);
                out.push(member.duplicate());
                assert(records(out@) =~= before.push(member@));
            }
            k += 1;
        }
        assert(self.clients().take(k as int) =~= self.clients());
        out
    }

    /// The other members of the cluster of `identity`: every record of that
    /// cluster but the one of `identity` itself, each identity once and
    /// each record the one that the store holds for its identity. Empty
    /// when `identity` has no record.
    pub fn get_cluster_clients_exclude(&self, identity: &String) -> (r: Vec<ClientConfig>)
        requires
            self.wf(),
        ensures
            records(r@) == self.others(identity@),
            distinct_identities(records(r@)),
            forall|k: int|
                0 <= k < r@.len() ==> {
                    let other = #[trigger] records(r@)[k];
                    &&& other.identity != identity@
                    &&& has_client(self.clients(), other.identity)
                    &&& self.clients()[client_position(self.clients(), other.identity)] == other
                },
    {
        let mut out: Vec<ClientConfig> = Vec::new();
        assert(records(out@) =~= Seq::<ClientConfigView>::empty());
        let i = match self.find(identity) {
            Some(i) => i,
            None => {
                return out;
            },
        };
        let cluster = &self.clients[i].cluster;
        let mut k: usize = 0;
        assert(self.clients().take(0) =~= Seq::<ClientConfigView>::empty());
        while k < self.clients.len()
            invariant
                k <= self.clients@.len(),
                cluster@ == self.clients()[i as int].cluster,
                records(out@) == of_cluster_without(
                    self.clients().take(k as int),
                    cluster@,
                    identity@,
                ),
            decreases self.clients.len() - k,
        {
            proof {
                let next = self.clients().take(k + 1);
                assert(next.drop_last() =~= self.clients().take(k as int));
                assert(next.last() == self.clients@[k as int]@);
            }
            let member = &self.clients[k];
            if member.cluster == *cluster && !(member.identity == *identity) {
                let ghost before = records(out@);
                out.push(member.duplicate());
                assert(records(out@) =~= before.push(member@));
            }
            k += 1;
        }
        proof {
            assert(self.clients().take(k as int) =~= self.clients());
            lemma_of_cluster_without(self.clients(), cluster@, identity@);
            assert forall|n: int| 0 <= n < out@.len() implies {
                let other = #[trigger] records(out@)[n];
                &&& other.identity != identity@
                &&& has_client(self.clients(), other.identity)
                &&& self.clients()[client_position(self.clients(), other.identity)] == other
            } by {
                let other = records(out@)[n];
                assert(of_cluster_without(self.clients(), cluster@, identity@).contains(other));
                let m = choose|m: int| 0 <= m < self.clients().len() && self.clients()[m] == other;
                lemma_record_at(self.clients(), m);
            }
        }
        out
    }
}

impl Default for ClientManager {
    fn default() -> (r: Self)
        ensures
            r.wf(),
            r.clients() == Seq::<ClientConfigView>::empty(),
    {
        Self::new()
    }
}

} // verus!
