//! The table of known peers, under their node names, and the lookups the
//! node makes in it.
use vstd::prelude::*;
use crate::bp::eid::{EndpointID, EidView};
use crate::text::{decimal, push_decimal, string_push};
use super::peer::{ClaSender, DtnPeer, IpAddress, PeerAddress};
use crate::assoc::keys_unique;

verus! {

/// `s` up to its first `/`.
pub open spec fn before_slash(s: Seq<char>) -> Seq<char>
    decreases s.len(),
{
    if s.len() == 0 {
        s
    } else if s[0] == '/' {
        Seq::empty()
    } else {
        seq![s[0]] + before_slash(s.drop_first())
    }
}

/// The node an endpoint belongs to: the part of a `dtn` name before its
/// first `/`, the node number of an `ipn` address; `dtn:none` has none.
pub open spec fn spec_node_name(e: EidView) -> Option<Seq<char>> {
    match e {
        EidView::DtnNone(_, _) => None,
        EidView::Dtn(_, ssp) => Some(before_slash(ssp)),
        EidView::Ipn(_, addr) => Some(decimal(addr.0 as nat)),
    }
}

/// The node name of `e`, or the empty text where it has none.
pub open spec fn node_name_or_empty(e: EidView) -> Seq<char> {
    match spec_node_name(e) {
        Some(n) => n,
        None => Seq::empty(),
    }
}

proof fn lemma_before_slash(s: Seq<char>, k: int)
    requires
        0 <= k <= s.len(),
        forall|j: int| 0 <= j < k ==> #[trigger] s[j] != '/',
        k == s.len() || s[k] == '/',
    ensures
        before_slash(s) == s.subrange(0, k),
    decreases k,
{
    if k == 0 {
        if s.len() > 0 {
            assert(s.subrange(0, 0) =~= Seq::<char>::empty());
        } else {
            assert(s.subrange(0, 0) =~= s);
        }
    } else {
        let t = s.drop_first();
        assert forall|j: int| 0 <= j < k - 1 implies #[trigger] t[j] != '/' by {
            assert(t[j] == s[j + 1]);
        }
        if k < s.len() {
            assert(t[k - 1] == s[k]);
        }
        lemma_before_slash(t, k - 1);
        assert(seq![s[0]] + t.subrange(0, k - 1) =~= s.subrange(0, k));
    }
}

pub open spec fn opt_text(o: Option<String>) -> Option<Seq<char>> {
    match o {
        Some(s) => Some(s@),
        None => None,
    }
}

/// The node an endpoint belongs to, as text.
pub fn node_name(eid: &EndpointID) -> (r: Option<String>)
    ensures
        opt_text(r) == spec_node_name(eid@),
{
    match eid {
        EndpointID::DtnNone(_, _) => None,
        EndpointID::Dtn(_, ssp) => {
            let ghost s = ssp@;
            let chars = ssp.as_str();
            let mut done = false;
            let mut result = String::new();
            for c in it: chars.chars()
                invariant
                    it.seq() == s,
                    !done ==> forall|j: int| 0 <= j < it.index() ==> #[trigger] s[j] != '/',
                    !done ==> result@ == s.subrange(0, it.index()),
                    done ==> exists|k: int|
                        0 <= k < it.index() && s[k] == '/' && (forall|j: int| 0 <= j < k ==> #[trigger] s[j] != '/')
                            && result@ == s.subrange(0, k),
            {
                if !done {
                    if c == '/' {
                        done = true;
                    } else {
                        string_push(&mut result, c);
                        assert(result@ =~= s.subrange(0, it.index() + 1));
                    }
                }
            }
            proof {
                if done {
                    let k = choose|k: int|
                        0 <= k < s.len() && s[k] == '/' && (forall|j: int| 0 <= j < k ==> #[trigger] s[j] != '/')
                            && result@ == s.subrange(0, k);
                    lemma_before_slash(s, k);
                } else {
                    lemma_before_slash(s, s.len() as int);
                }
            }
            Some(result)
        },
        EndpointID::Ipn(_, addr) => {
            let mut out = String::new();
            push_decimal(&mut out, addr.0 as u64);
            assert(out@ =~= decimal(addr.0 as nat));
            Some(out)
        },
    }
}

/// The first entry of `peers` that satisfies `p`, if any.
pub open spec fn first_where(peers: Seq<(String, DtnPeer)>, p: spec_fn(DtnPeer) -> bool) -> Option<int>
    decreases peers.len(),
{
    if peers.len() == 0 {
        None
    } else {
        match first_where(peers.drop_last(), p) {
            Some(i) => Some(i),
            None => if p(peers.last().1) {
                Some(peers.len() - 1)
            } else {
                None
            },
        }
    }
}

proof fn lemma_first_where(peers: Seq<(String, DtnPeer)>, p: spec_fn(DtnPeer) -> bool, i: int)
    requires
        0 <= i <= peers.len(),
        forall|j: int| 0 <= j < i ==> !p(#[trigger] peers[j].1),
        i == peers.len() || p(peers[i].1),
    ensures
        first_where(peers, p) == if i == peers.len() {
            None::<int>
        } else {
            Some(i)
        },
    decreases peers.len(),
{
    if peers.len() > 0 {
        let t = peers.drop_last();
        if i < peers.len() - 1 {
            assert forall|j: int| 0 <= j < i implies !p(#[trigger] t[j].1) by {
                assert(t[j] == peers[j]);
            }
            assert(t[i] == peers[i]);
            lemma_first_where(t, p, i);
        } else {
            assert forall|j: int| 0 <= j < t.len() implies !p(#[trigger] t[j].1) by {
                assert(t[j] == peers[j]);
            }
            lemma_first_where(t, p, t.len() as int);
        }
    }
}

fn octets_eq<const N: usize>(x: &[u8; N], y: &[u8; N]) -> (r: bool)
    ensures
        r == (*x == *y),
{
    let mut i: usize = 0;
    while i < N
        invariant
            0 <= i <= N,
            forall|j: int| 0 <= j < i ==> x[j] == y[j],
        decreases N - i,
    {
        if x[i] != y[i] {
            return false;
        }
        i = i + 1;
    }
    assert(*x =~= *y);
    true
}

/// Whether two IP addresses are the same.
pub fn ip_address_eq(a: &IpAddress, b: &IpAddress) -> (r: bool)
    ensures
        r == (*a == *b),
{
    match a {
        IpAddress::V4(x) => match b {
            IpAddress::V4(y) => octets_eq(x, y),
            IpAddress::V6(_) => false,
        },
        IpAddress::V6(x) => match b {
            IpAddress::V6(y) => octets_eq(x, y),
            IpAddress::V4(_) => false,
        },
    }
}

/// Whether two addresses are the same.
pub fn peer_address_eq(a: &PeerAddress, b: &PeerAddress) -> (r: bool)
    ensures
        r == (a@ == b@),
{
    match a {
        PeerAddress::Ip(x) => match b {
            PeerAddress::Ip(y) => ip_address_eq(x, y),
            PeerAddress::Generic(_) => false,
        },
        PeerAddress::Generic(x) => match b {
            PeerAddress::Generic(y) => *x == *y,
            PeerAddress::Ip(_) => false,
        },
    }
}

/// The position of the first entry under the name `k`, if any.
pub open spec fn key_position(peers: Seq<(String, DtnPeer)>, k: Seq<char>) -> Option<int>
    decreases peers.len(),
{
    if peers.len() == 0 {
        None
    } else {
        match key_position(peers.drop_last(), k) {
            Some(i) => Some(i),
            None => if peers.last().0@ == k {
                Some(peers.len() - 1)
            } else {
                None
            },
        }
    }
}

/// Where `key_position` finds no position, no pair has the key; where it
/// finds one, the pair there has it.
pub proof fn lemma_key_position_found(peers: Seq<(String, DtnPeer)>, k: Seq<char>)
    ensures
        match key_position(peers, k) {
            Some(i) => 0 <= i < peers.len() && peers[i].0@ == k,
            None => forall|j: int| 0 <= j < peers.len() ==> #[trigger] peers[j].0@ != k,
        },
    decreases peers.len(),
{
    if peers.len() > 0 {
        let t = peers.drop_last();
        lemma_key_position_found(t, k);
        if key_position(t, k) is None {
            assert forall|j: int| 0 <= j < t.len() implies #[trigger] peers[j].0@ != k by {
                assert(t[j] == peers[j]);
            }
        }
    }
}

proof fn lemma_key_position(peers: Seq<(String, DtnPeer)>, k: Seq<char>, i: int)
    requires
        0 <= i <= peers.len(),
        forall|j: int| 0 <= j < i ==> #[trigger] peers[j].0@ != k,
        i == peers.len() || peers[i].0@ == k,
    ensures
        key_position(peers, k) == if i == peers.len() {
            None::<int>
        } else {
            Some(i)
        },
    decreases peers.len(),
{
    if peers.len() > 0 {
        let t = peers.drop_last();
        if i < peers.len() - 1 {
            assert forall|j: int| 0 <= j < i implies #[trigger] t[j].0@ != k by {
                assert(t[j] == peers[j]);
            }
            assert(t[i] == peers[i]);
            lemma_key_position(t, k, i);
        } else {
            assert forall|j: int| 0 <= j < t.len() implies #[trigger] t[j].0@ != k by {
                assert(t[j] == peers[j]);
            }
            lemma_key_position(t, k, t.len() as int);
        }
    }
}

/// The number of peers recorded.
pub fn peers_count(peers: &Vec<(String, DtnPeer)>) -> (r: usize)
    ensures
        r == peers@.len(),
{
    peers.len()
}

/// Forgets every peer.
pub fn peers_clear(peers: &mut Vec<(String, DtnPeer)>)
    ensures
        final(peers)@ == Seq::<(String, DtnPeer)>::empty(),
{
    peers.clear();
}

/// Records `peer` under its node name, replacing the peer recorded under
/// that name; the peer's endpoint must name a node.
pub fn peers_add(peers: &mut Vec<(String, DtnPeer)>, peer: DtnPeer)
    requires
        spec_node_name(peer.eid@) is Some,
    ensures
        match key_position(old(peers)@, spec_node_name(peer.eid@)->0) {
            Some(i) => final(peers)@.len() == old(peers)@.len() && final(peers)@[i].0@ == spec_node_name(
                peer.eid@,
            )->0 && final(peers)@[i].1 == peer && forall|j: int|
                0 <= j < old(peers)@.len() && j != i ==> #[trigger] final(peers)@[j] == old(peers)@[j],
            None => final(peers)@.len() == old(peers)@.len() + 1 && final(peers)@.last().0@
                == spec_node_name(peer.eid@)->0 && final(peers)@.last().1 == peer && forall|j: int|
                0 <= j < old(peers)@.len() ==> #[trigger] final(peers)@[j] == old(peers)@[j],
        },
        keys_unique(old(peers)@) ==> keys_unique(final(peers)@),
{
    proof {
        lemma_key_position_found(old(peers)@, spec_node_name(peer.eid@)->0);
    }
    let name = match node_name(&peer.eid) {
        Some(n) => n,
        None => {
            assert(false);
            String::new()
        },
    };
    let mut i: usize = 0;
    while i < peers.len()
        invariant
            0 <= i <= peers@.len(),
            peers@ == old(peers)@,
            spec_node_name(peer.eid@) is Some,
            name@ == spec_node_name(peer.eid@)->0,
            forall|j: int| 0 <= j < i ==> #[trigger] peers@[j].0@ != name@,
        decreases peers@.len() - i,
    {
        if peers[i].0 == name {
            proof {
                lemma_key_position(peers@, name@, i as int);
            }
            let ghost before = peers@;
            let ghost entry = (name, peer);
            peers.set(i, (name, peer));
            assert(peers@ == before.update(i as int, entry));
            assert(peers@[i as int] == entry);
            return;
        }
        i = i + 1;
    }
    proof {
        lemma_key_position(peers@, name@, i as int);
    }
    peers.push((name, peer));
}

/// The fields of `b` are those of `a`, the agents and services by value.
pub open spec fn peer_copy(a: DtnPeer, b: DtnPeer) -> bool {
    &&& b.eid == a.eid
    &&& b.addr == a.addr
    &&& b.con_type == a.con_type
    &&& b.period == a.period
    &&& b.cla_list@ == a.cla_list@
    &&& b.services@ == a.services@
    &&& b.last_contact == a.last_contact
}

/// Whether the peer belongs to the node that `eid` names (the empty name
/// where it names none).
pub open spec fn of_node(eid: EidView) -> spec_fn(DtnPeer) -> bool {
    |p: DtnPeer| node_name_or_empty(p.eid@) == node_name_or_empty(eid)
}

fn find_for_node(peers: &Vec<(String, DtnPeer)>, eid: &EndpointID) -> (r: Option<usize>)
    ensures
        match r {
            Some(i) => i < peers@.len() && first_where(peers@, of_node(eid@)) == Some(i as int),
            None => first_where(peers@, of_node(eid@)) is None,
        },
{
    let want = match node_name(eid) {
        Some(n) => n,
        None => String::new(),
    };
    proof {
        reveal_strlit("");
        assert(want@ == node_name_or_empty(eid@));
    }
    let mut i: usize = 0;
    while i < peers.len()
        invariant
            0 <= i <= peers@.len(),
            want@ == node_name_or_empty(eid@),
            forall|j: int| 0 <= j < i ==> !of_node(eid@)(#[trigger] peers@[j].1),
        decreases peers@.len() - i,
    {
        let have = match node_name(&peers[i].1.eid) {
            Some(n) => n,
            None => String::new(),
        };
        proof {
            assert(have@ == node_name_or_empty(peers@[i as int].1.eid@));
        }
        if have == want {
            proof {
                lemma_first_where(peers@, of_node(eid@), i as int);
            }
            return Some(i);
        }
        i = i + 1;
    }
    proof {
        lemma_first_where(peers@, of_node(eid@), i as int);
    }
    None
}

/// A copy of the first peer of the node that `eid` names, if any.
pub fn peers_get_for_node(peers: &Vec<(String, DtnPeer)>, eid: &EndpointID) -> (r: Option<DtnPeer>)
    ensures
        match first_where(peers@, of_node(eid@)) {
            Some(i) => r matches Some(p) && peer_copy(peers@[i].1, p),
            None => r is None,
        },
{
    match find_for_node(peers, eid) {
        Some(i) => Some(peers[i].1.clone()),
        None => None,
    }
}

/// A sender through the first agent of the first peer of the node that
/// `eid` names, if there is such a peer and it has an agent.
pub fn peers_cla_for_node(peers: &Vec<(String, DtnPeer)>, eid: &EndpointID) -> (r: Option<ClaSender>)
    ensures
        match first_where(peers@, of_node(eid@)) {
            Some(i) => match r {
                None => peers@[i].1.cla_list@.len() == 0,
                Some(s) => peers@[i].1.cla_list@.len() > 0 && s.remote == peers@[i].1.addr
                    && s.agent == peers@[i].1.cla_list@[0].0 && s.port == peers@[i].1.cla_list@[0].1,
            },
            None => r is None,
        },
{
    match find_for_node(peers, eid) {
        Some(i) => peers[i].1.first_cla(),
        None => None,
    }
}

/// Whether the peer is at `addr`.
pub open spec fn at_address(addr: super::peer::PeerAddressView) -> spec_fn(DtnPeer) -> bool {
    |p: DtnPeer| p.addr@ == addr
}

/// The node name of the first peer at `addr`, if any.
pub fn peer_find_by_remote(peers: &Vec<(String, DtnPeer)>, addr: &PeerAddress) -> (r: Option<String>)
    ensures
        match first_where(peers@, at_address(addr@)) {
            Some(i) => r matches Some(n) && n@ == node_name_or_empty(peers@[i].1.eid@),
            None => r is None,
        },
{
    let mut i: usize = 0;
    while i < peers.len()
        invariant
            0 <= i <= peers@.len(),
            forall|j: int| 0 <= j < i ==> !at_address(addr@)(#[trigger] peers@[j].1),
        decreases peers@.len() - i,
    {
        if peer_address_eq(&peers[i].1.addr, addr) {
            proof {
                lemma_first_where(peers@, at_address(addr@), i as int);
                reveal_strlit("");
            }
            let name = match node_name(&peers[i].1.eid) {
                Some(n) => n,
                None => String::new(),
            };
            return Some(name);
        }
        i = i + 1;
    }
    proof {
        lemma_first_where(peers@, at_address(addr@), i as int);
    }
    None
}

/// What makes two endpoints belong to one node: the scheme (true for `dtn`)
/// and the node name; `dtn:none` belongs to none.
pub open spec fn node_key(e: EidView) -> Option<(bool, Seq<char>)> {
    match e {
        EidView::DtnNone(_, _) => None,
        EidView::Dtn(_, ssp) => Some((true, before_slash(ssp))),
        EidView::Ipn(_, addr) => Some((false, decimal(addr.0 as nat))),
    }
}

/// Whether `eid` belongs to the node `host_eid` names (both without a node
/// count as the same).
pub fn is_local_node_id(eid: &EndpointID, host_eid: &EndpointID) -> (r: bool)
    ensures
        r == (node_key(eid@) == node_key(host_eid@)),
{
    let a = node_name(eid);
    let b = node_name(host_eid);
    let dtn_a = match eid {
        EndpointID::Dtn(_, _) => true,
        _ => false,
    };
    let dtn_b = match host_eid {
        EndpointID::Dtn(_, _) => true,
        _ => false,
    };
    match (a, b) {
        (None, None) => true,
        (Some(x), Some(y)) => dtn_a == dtn_b && x == y,
        _ => false,
    }
}

} // verus!
