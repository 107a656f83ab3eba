//! What the client keeps of its virtual interface: the traffic counters and
//! the routes that it has set in the system's routing table.

use vstd::prelude::*;
use vstd::string::*;
use crate::client::DEFAULT_MTU;
use crate::codec::frame::clone_details;
use crate::codec::frame::details;
use crate::codec::frame::texts;
use crate::codec::frame::HandshakeReplyFrame;
use crate::codec::frame::PeerDetail;
use crate::codec::frame::PeerDetailView;

verus! {

/// How the virtual interface is set up.
#[derive(Debug, Clone)]
pub struct DeviceConfig {
    /// The interface's address inside the overlay.
    pub ip: String,
    /// The netmask of the overlay.
    pub mask: String,
    /// The gateway of the overlay.
    pub gateway: String,
    /// The largest packet that the interface takes.
    pub mtu: u16,
}

/// The routes to take out of the system's routing table and those to put
/// in, as CIDR texts in the order in which they are first named.
#[derive(Debug, Clone)]
pub struct RouteChanges {
    pub to_delete: Vec<String>,
    pub to_add: Vec<String>,
}

/// The CIDR ranges of all of `peers`, in order, with repetitions.
pub open spec fn all_ciders(peers: Seq<PeerDetailView>) -> Seq<Seq<char>>
    decreases peers.len(),
{
    if peers.len() == 0 {
        Seq::empty()
    } else {
        all_ciders(peers.drop_last()) + peers.last().ciders
    }
}

/// The texts of `xs` that are not among `other`, each once, in the order in
/// which they first occur.
pub open spec fn missing_from(xs: Seq<Seq<char>>, other: Seq<Seq<char>>) -> Seq<Seq<char>>
    decreases xs.len(),
{
    if xs.len() == 0 {
        Seq::empty()
    } else {
        let rest = missing_from(xs.drop_last(), other);
        if other.contains(xs.last()) || rest.contains(xs.last()) {
            rest
        } else {
            rest.push(xs.last())
        }
    }
}

/// What `missing_from` gives: exactly the texts of `xs` that are not among
/// `other`, and none of them twice.
pub proof fn lemma_missing_from(xs: Seq<Seq<char>>, other: Seq<Seq<char>>)
    ensures
        forall|x: Seq<char>|
            #[trigger] missing_from(xs, other).contains(x) <==> xs.contains(x) && !other.contains(
                x,
            ),
        forall|i: int, j: int|
            0 <= i < j < missing_from(xs, other).len() ==> missing_from(xs, other)[i]
                != missing_from(xs, other)[j],
    decreases xs.len(),
{
    let out = missing_from(xs, other);
    if xs.len() > 0 {
        let head = xs.drop_last();
        let rest = missing_from(head, other);
        let last = xs.last();
        lemma_missing_from(head, other);
        assert forall|x: Seq<char>| out.contains(x) <==> xs.contains(x) && !other.contains(x) by {
            if out.contains(x) {
                let i = choose|i: int| 0 <= i < out.len() && out[i] == x;
                if i < rest.len() {
                    assert(rest[i] == x);
                    assert(missing_from(head, other).contains(x));
                    assert(head.contains(x) && !other.contains(x));
                    let k = choose|k: int| 0 <= k < head.len() && head[k] == x;
                    assert(xs[k] == x);
                } else {
                    assert(x == last);
                    assert(xs[xs.len() - 1] == x);
                }
            }
            if xs.contains(x) && !other.contains(x) {
                let k = choose|k: int| 0 <= k < xs.len() && xs[k] == x;
                if k < head.len() {
                    assert(head[k] == x);
                    assert(head.contains(x));
                    assert(missing_from(head, other).contains(x));
                    let i = choose|i: int| 0 <= i < rest.len() && rest[i] == x;
                    assert(out[i] == x);
                } else {
                    if rest.contains(x) {
                        let i = choose|i: int| 0 <= i < rest.len() && rest[i] == x;
                        assert(out[i] == x);
                    } else {
                        assert(out[out.len() - 1] == x);
                    }
                }
            }
        }
        assert forall|i: int, j: int| 0 <= i < j < out.len() implies out[i] != out[j] by {
            if j == rest.len() {
                assert(rest[i] == out[i]);
                if out[i] == out[j] {
                    assert(rest.contains(last));
                }
            } else {
                assert(rest[i] != rest[j]);
            }
        }
    } else {
        assert forall|x: Seq<char>| out.contains(x) <==> xs.contains(x) && !other.contains(x) by {
        }
    }
}

fn contains_text(v: &Vec<String>, x: &String) -> (r: bool)
    ensures
        r == texts(v@).contains(x@),
{
    let mut i: usize = 0;
    while i < v.len()
        invariant
            i <= v.len(),
            forall|k: int| 0 <= k < i ==> texts(v@)[k] != x@,
        decreases v.len() - i,
    {
        if v[i] == *x {
            assert(texts(v@)[i as int] == x@);
            return true;
        }
        i += 1;
    }
    false
}

fn collect_ciders(peers: &Vec<PeerDetail>) -> (r: Vec<String>)
    ensures
        texts(r@) == all_ciders(details(peers@)),
{
    let mut out: Vec<String> = Vec::new();
    let mut i: usize = 0;
    assert(details(peers@).take(0) =~= Seq::<PeerDetailView>::empty());
    assert(texts(out@) =~= Seq::<Seq<char>>::empty());
    while i < peers.len()
        invariant
            i <= peers.len(),
            texts(out@) == all_ciders(details(peers@).take(i as int)),
        decreases peers.len() - i,
    {
        proof {
            let next = details(peers@).take(i + 1);
            assert(next.drop_last() =~= details(peers@).take(i as int));
            assert(next.last() == peers@[i as int]@);
        }
        let ciders = &peers[i].ciders;
        let ghost before = texts(out@);
        let mut j: usize = 0;
        while j < ciders.len()
            invariant
                j <= ciders.len(),
                texts(out@) == before + texts(ciders@).take(j as int),
            decreases ciders.len() - j,
        {
            let ghost prev = texts(out@);
            out.push(ciders[j].clone());
            assert(texts(out@) =~= prev.push(ciders@[j as int]@));
            assert(texts(ciders@).take(j + 1) =~= texts(ciders@).take(j as int).push(
                ciders@[j as int]@,
            ));
            j += 1;
        }
        assert(texts(ciders@).take(j as int) =~= texts(ciders@));
        i += 1;
    }
    assert(details(peers@).take(i as int) =~= details(peers@));
    out
}

fn missing(xs: &Vec<String>, other: &Vec<String>) -> (r: Vec<String>)
    ensures
        texts(r@) == missing_from(texts(xs@), texts(other@)),
{
    let mut out: Vec<String> = Vec::new();
    let mut i: usize = 0;
    assert(texts(xs@).take(0) =~= Seq::<Seq<char>>::empty());
    assert(texts(out@) =~= Seq::<Seq<char>>::empty());
    while i < xs.len()
        invariant
            i <= xs.len(),
            texts(out@) == missing_from(texts(xs@).take(i as int), texts(other@)),
        decreases xs.len() - i,
    {
        proof {
            let next = texts(xs@).take(i + 1);
            assert(next.drop_last() =~= texts(xs@).take(i as int));
            assert(next.last() == xs@[i as int]@);
        }
        if !contains_text(other, &xs[i]) && !contains_text(&out, &xs[i]) {
            let ghost prev = texts(out@);
            out.push(xs[i].clone());
            assert(texts(out@) =~= prev.push(xs@[i as int]@));
        }
        i += 1;
    }
    assert(texts(xs@).take(i as int) =~= texts(xs@));
    out
}

/// The client's side of its virtual interface.
pub struct DeviceHandler {
    others: Vec<PeerDetail>,
    private_ip: String,
    tun_index: Option<i32>,
    rx_bytes: u64,
    tx_bytes: u64,
}

impl DeviceHandler {
    /// The peers whose routes are set.
    pub closed spec fn others(&self) -> Seq<PeerDetailView> {
        details(self.others@)
    }

    /// The interface's address, by which the routes go.
    pub closed spec fn private_ip(&self) -> Seq<char> {
        self.private_ip@
    }

    /// Bytes read from the interface, counted modulo 2^64.
    pub closed spec fn received(&self) -> u64 {
        self.rx_bytes
    }

    /// Bytes written to the interface, counted modulo 2^64.
    pub closed spec fn sent(&self) -> u64 {
        self.tx_bytes
    }

    /// Bytes read from the interface.
    pub fn rx_bytes(&self) -> (r: u64)
        ensures
            r == self.received(),
    {
        self.rx_bytes
    }

    /// Bytes written to the interface.
    pub fn tx_bytes(&self) -> (r: u64)
        ensures
            r == self.sent(),
    {
        self.tx_bytes
    }

    /// A handler without an interface.
    pub fn new() -> (r: Self)
        ensures
            r.others() == Seq::<PeerDetailView>::empty(),
            r.private_ip() == Seq::<char>::empty(),
            r.received() == 0,
            r.sent() == 0,
            r.tun_index() is None,
    {
        let r = DeviceHandler {
            others: Vec::new(),
            private_ip: String::new(),
            tun_index: None,
            rx_bytes: 0,
            tx_bytes: 0,
        };
        assert(r.others() =~= Seq::<PeerDetailView>::empty());
        r
    }

    /// Takes the interface's address from the handshake reply and gives its setup.
    pub fn run(&mut self, cfg: &HandshakeReplyFrame) -> (r: DeviceConfig)
        ensures
            final(self).private_ip() == cfg.private_ip@,
            final(self).tun_index() == old(self).tun_index(),
            final(self).others() == old(self).others(),
            final(self).received() == old(self).received(),
            final(self).sent() == old(self).sent(),
            r.ip@ == cfg.private_ip@,
            r.mask@ == cfg.mask@,
            r.gateway@ == cfg.gateway@,
            r.mtu == DEFAULT_MTU,
    {
        self.private_ip = cfg.private_ip.clone();
        DeviceConfig {
            ip: cfg.private_ip.clone(),
            mask: cfg.mask.clone(),
            gateway: cfg.gateway.clone(),
            mtu: DEFAULT_MTU,
        }
    }

    /// Notes the index that the system gave the interface.
    pub fn set_tun_index(&mut self, tun_index: Option<i32>)
        ensures
            final(self).tun_index() == tun_index,
            final(self).private_ip() == old(self).private_ip(),
            final(self).others() == old(self).others(),
            final(self).received() == old(self).received(),
            final(self).sent() == old(self).sent(),
    {
        self.tun_index = tun_index;
    }

    /// The index that the system gave the interface, once it is known.
    pub closed spec fn tun_index(&self) -> Option<i32> {
        self.tun_index
    }

    /// Counts a packet of `len` bytes read from the interface. The counter
    /// starts again at 0 after the largest number.
    pub fn recv(&mut self, len: usize)
        ensures
            final(self).received() as int == (old(self).received() + len) % 0x1_0000_0000_0000_0000,
            final(self).sent() == old(self).sent(),
            final(self).private_ip() == old(self).private_ip(),
            final(self).tun_index() == old(self).tun_index(),
            final(self).others() == old(self).others(),
    {
        self.rx_bytes = self.rx_bytes.wrapping_add(len as u64);
    }

    /// Counts a packet of `len` bytes written to the interface.
    pub fn send(&mut self, len: usize)
        ensures
            final(self).sent() as int == (old(self).sent() + len) % 0x1_0000_0000_0000_0000,
            final(self).received() == old(self).received(),
            final(self).private_ip() == old(self).private_ip(),
            final(self).tun_index() == old(self).tun_index(),
            final(self).others() == old(self).others(),
    {
        self.tx_bytes = self.tx_bytes.wrapping_add(len as u64);
    }

    /// Takes a new list of peers and says how the routing table is to
    /// change: every range of the old peers that no new peer has goes, and
    /// every range of the new peers that no old peer had comes.
    pub fn reload_route(&mut self, new_routes: Vec<PeerDetail>) -> (r: RouteChanges)
        ensures
            final(self).others() == details(new_routes@),
            final(self).private_ip() == old(self).private_ip(),
            final(self).tun_index() == old(self).tun_index(),
            final(self).received() == old(self).received(),
            final(self).sent() == old(self).sent(),
            texts(r.to_delete@) == missing_from(
                all_ciders(old(self).others()),
                all_ciders(details(new_routes@)),
            ),
            texts(r.to_add@) == missing_from(
                all_ciders(details(new_routes@)),
                all_ciders(old(self).others()),
            ),
            forall|cidr: Seq<char>|
                #[trigger] texts(r.to_delete@).contains(cidr) <==> all_ciders(
                    old(self).others(),
                ).contains(cidr) && !all_ciders(details(new_routes@)).contains(cidr),
            forall|cidr: Seq<char>|
                #[trigger] texts(r.to_add@).contains(cidr) <==> all_ciders(
                    details(new_routes@),
                ).contains(cidr) && !all_ciders(old(self).others()).contains(cidr),
    {
        proof {
            lemma_missing_from(
                all_ciders(self.others()),
                all_ciders(details(new_routes@)),
            );
            lemma_missing_from(
                all_ciders(details(new_routes@)),
                all_ciders(self.others()),
            );
        }
        let old_ciders = collect_ciders(&self.others);
        let new_ciders = collect_ciders(&new_routes);
        let to_delete = missing(&old_ciders, &new_ciders);
        let to_add = missing(&new_ciders, &old_ciders);
        self.others = new_routes;
        RouteChanges { to_delete, to_add }
    }

    /// The peers whose routes are set.
    pub fn get_peer_details(&self) -> (r: Vec<PeerDetail>)
        ensures
            details(r@) == self.others(),
    {
        clone_details(&self.others)
    }
}

impl Default for DeviceHandler {
    fn default() -> (r: Self)
        ensures
            r.others() == Seq::<PeerDetailView>::empty(),
            r.private_ip() == Seq::<char>::empty(),
            r.received() == 0,
            r.sent() == 0,
            r.tun_index() is None,
    {
        Self::new()
    }
}

} // verus!
