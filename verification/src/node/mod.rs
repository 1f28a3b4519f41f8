//! The node's core bookkeeping: statistics, peers, bundle packs and the
//! bundle store.
use vstd::prelude::*;

pub mod application_agent;
pub mod bundlepack;
pub mod helpers;
pub mod peer;
pub mod peers;
pub mod processing;
pub mod steps;
pub mod store;

use peer::{DtnPeer, PeerType, spec_still_valid};
use store::{InMemoryBundleStore, ids_view, is_forwarding};
use crate::assoc::keys_unique;

verus! {

/// Counters of what the node has done with bundles.
#[derive(Debug, Clone, Copy, Default)]
pub struct DtnStatistics {
    pub incoming: u64,
    pub dups: u64,
    pub outgoing: u64,
    pub delivered: u64,
    pub broken: u64,
}

impl DtnStatistics {
    /// All counters at zero.
    pub fn new() -> (r: DtnStatistics)
        ensures
            r.incoming == 0,
            r.dups == 0,
            r.outgoing == 0,
            r.delivered == 0,
            r.broken == 0,
    {
        DtnStatistics { incoming: 0, dups: 0, outgoing: 0, delivered: 0, broken: 0 }
    }
}

/// Whether a peer is kept: static peers always, dynamic ones while they are
/// still valid.
pub open spec fn peer_kept(p: DtnPeer, now: u64, peer_timeout: u64, custom_timeout: bool) -> bool {
    p.con_type == PeerType::Static || spec_still_valid(p, now, peer_timeout, custom_timeout)
}

/// Whether `still_valid` can be asked of `p` at `now` without overflow.
pub open spec fn peer_checkable(p: DtnPeer, now: u64, peer_timeout: u64, custom_timeout: bool) -> bool {
    p.con_type == PeerType::Dynamic ==> {
        &&& p.last_contact <= now
        &&& !((custom_timeout && peer_timeout > 0) || p.period is None) ==> p.period->0 * 2
            <= u64::MAX
    }
}

/// The peers, under their names, that survive a cleanup at `now`, in their
/// order.
pub open spec fn kept_peers(
    peers: Seq<(String, DtnPeer)>,
    now: u64,
    peer_timeout: u64,
    custom_timeout: bool,
) -> Seq<(String, DtnPeer)>
    decreases peers.len(),
{
    if peers.len() == 0 {
        peers
    } else {
        let rest = kept_peers(peers.drop_last(), now, peer_timeout, custom_timeout);
        if peer_kept(peers.last().1, now, peer_timeout, custom_timeout) {
            rest.push(peers.last())
        } else {
            rest
        }
    }
}

/// A cleanup keeps exactly what it should: every static peer survives it,
/// every peer that survives it was there before and is kept, and nothing
/// else is added.
pub proof fn law_cleanup_keeps_static_peers(
    peers: Seq<(String, DtnPeer)>,
    now: u64,
    peer_timeout: u64,
    custom_timeout: bool,
)
    ensures
        forall|i: int|
            0 <= i < peers.len() && #[trigger] peers[i].1.con_type == PeerType::Static
                ==> kept_peers(peers, now, peer_timeout, custom_timeout).contains(peers[i]),
        forall|i: int|
            0 <= i < kept_peers(peers, now, peer_timeout, custom_timeout).len() ==> peers.contains(
                #[trigger] kept_peers(peers, now, peer_timeout, custom_timeout)[i],
            ) && peer_kept(
                kept_peers(peers, now, peer_timeout, custom_timeout)[i].1,
                now,
                peer_timeout,
                custom_timeout,
            ),
        kept_peers(peers, now, peer_timeout, custom_timeout).len() <= peers.len(),
    decreases peers.len(),
{
    if peers.len() > 0 {
        let rest = peers.drop_last();
        law_cleanup_keeps_static_peers(rest, now, peer_timeout, custom_timeout);
        let k = kept_peers(peers, now, peer_timeout, custom_timeout);
        let kr = kept_peers(rest, now, peer_timeout, custom_timeout);
        assert forall|i: int|
            0 <= i < peers.len() && #[trigger] peers[i].1.con_type == PeerType::Static implies k.contains(peers[i]) by {
            if i < peers.len() - 1 {
                assert(rest[i] == peers[i]);
                assert(kr.contains(rest[i]));
                let j = choose|j: int| 0 <= j < kr.len() && kr[j] == rest[i];
                assert(k[j] == kr[j]);
            } else {
                assert(k[k.len() - 1] == peers.last());
            }
        }
        assert forall|i: int| 0 <= i < k.len() implies peers.contains(#[trigger] k[i]) && peer_kept(k[i].1, now, peer_timeout, custom_timeout) by {
            if i < kr.len() {
                assert(k[i] == kr[i]);
                assert(rest.contains(kr[i]));
                let j = choose|j: int| 0 <= j < rest.len() && rest[j] == kr[i];
                assert(peers[j] == rest[j]);
            } else {
                assert(k[i] == peers.last());
                assert(peers[peers.len() - 1] == peers.last());
            }
        }
    }
}

/// A cleanup keeps the peer names unique: where no two peers share a name
/// before, none do after.
pub proof fn law_cleanup_keeps_names_unique(
    peers: Seq<(String, DtnPeer)>,
    now: u64,
    peer_timeout: u64,
    custom_timeout: bool,
)
    requires
        keys_unique(peers),
    ensures
        keys_unique(kept_peers(peers, now, peer_timeout, custom_timeout)),
    decreases peers.len(),
{
    if peers.len() > 0 {
        let rest = peers.drop_last();
        assert forall|i: int, j: int| 0 <= i < j < rest.len() implies #[trigger] rest[i].0@ != #[trigger] rest[j].0@ by {
            assert(rest[i] == peers[i] && rest[j] == peers[j]);
        }
        law_cleanup_keeps_names_unique(rest, now, peer_timeout, custom_timeout);
        law_cleanup_keeps_static_peers(rest, now, peer_timeout, custom_timeout);
        let kr = kept_peers(rest, now, peer_timeout, custom_timeout);
        let k = kept_peers(peers, now, peer_timeout, custom_timeout);
        if k.len() > kr.len() {
            assert forall|i: int, j: int| 0 <= i < j < k.len() implies #[trigger] k[i].0@ != #[trigger] k[j].0@ by {
                if j < kr.len() {
                    assert(k[i] == kr[i] && k[j] == kr[j]);
                } else {
                    assert(k[j] == peers.last());
                    assert(k[i] == kr[i]);
                    assert(rest.contains(kr[i]));
                    let m = choose|m: int| 0 <= m < rest.len() && rest[m] == kr[i];
                    assert(peers[m] == rest[m]);
                    assert(peers[m].0@ != peers[peers.len() - 1].0@);
                }
            }
        }
    }
}

/// Removes the peers that have not been seen for too long: static peers
/// stay, dynamic ones stay while `still_valid` holds at `now`, under the
/// configured peer timeout.
pub fn process_peers(
    peers: &mut Vec<(String, DtnPeer)>,
    now: u64,
    peer_timeout: u64,
    custom_timeout: bool,
)
    requires
        forall|i: int|
            0 <= i < old(peers)@.len() ==> peer_checkable(
                #[trigger] old(peers)@[i].1,
                now,
                peer_timeout,
                custom_timeout,
            ),
    ensures
        final(peers)@ == kept_peers(old(peers)@, now, peer_timeout, custom_timeout),
        keys_unique(old(peers)@) ==> keys_unique(final(peers)@),
{
    proof {
        if keys_unique(old(peers)@) {
            law_cleanup_keeps_names_unique(old(peers)@, now, peer_timeout, custom_timeout);
        }
    }
    let ghost all = peers@;
    let mut kept: Vec<(String, DtnPeer)> = Vec::new();
    let mut rest: Vec<(String, DtnPeer)> = Vec::new();
    std::mem::swap(&mut rest, peers);
    for entry in it: rest.into_iter()
        invariant
            it.seq() == all,
            kept@ == kept_peers(all.take(it.index()), now, peer_timeout, custom_timeout),
            forall|j: int|
                0 <= j < all.len() ==> peer_checkable(
                    #[trigger] all[j].1,
                    now,
                    peer_timeout,
                    custom_timeout,
                ),
    {
        let keep = entry.1.con_type == PeerType::Static || entry.1.still_valid(
            now,
            peer_timeout,
            custom_timeout,
        );
        proof {
            assert(all.take(it.index() + 1).drop_last() =~= all.take(it.index()));
        }
        if keep {
            kept.push(entry);
        }
    }
    assert(all.take(all.len() as int) =~= all);
    *peers = kept;
}

/// The bundles to hand to forwarding again: the identifiers of those in
/// `store` that await forwarding, each once.
pub fn process_bundles(store: &InMemoryBundleStore) -> (r: Vec<String>)
    ensures
        ids_view(r@).no_duplicates(),
        forall|k: Seq<char>|
            #[trigger] ids_view(r@).contains(k) <==> store@.contains_key(k) && is_forwarding(
                store@[k],
            ),
{
    store.forwarding()
}

} // verus!
