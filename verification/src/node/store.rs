//! The bundle store: bundle packs under their identifiers.
use vstd::prelude::*;
use crate::assoc::{
    keys_unique, table_map, table_find, lemma_table_dom, lemma_table_value, lemma_table_len,
    lemma_table_push, lemma_table_update, lemma_table_remove,
};
use super::bundlepack::{BundlePack, BundlePackView, Constraint};

verus! {

/// The kinds of bundle store a node can be configured with.
pub fn bundle_stores() -> (r: Vec<&'static str>)
    ensures
        r@.len() == 3,
        r@[0]@ == "mem"@,
        r@[1]@ == "sled"@,
        r@[2]@ == "sneakers"@,
{
    let mut v: Vec<&'static str> = Vec::new();
    v.push("mem");
    v.push("sled");
    v.push("sneakers");
    v
}

/// Why the store refused a change.
#[derive(Debug, Clone, Copy, PartialEq, Eq, Structural)]
pub enum StoreError {
    /// A bundle with that identifier is stored already.
    AlreadyStored,
    /// No bundle with that identifier is stored.
    NotStored,
}

impl StoreError {
    /// The message for the error.
    pub fn message(&self) -> (r: String)
        ensures
            r@ == match self {
                StoreError::AlreadyStored => "Bundle already in store!"@,
                StoreError::NotStored => "Bundle not in store!"@,
            },
    {
        match self {
            StoreError::AlreadyStored => "Bundle already in store!".to_owned(),
            StoreError::NotStored => "Bundle not in store!".to_owned(),
        }
    }
}

/// Whether a bundle is pending: not awaiting reassembly, and awaiting
/// forwarding or another chance after a failed delivery.
pub open spec fn is_pending(b: BundlePackView) -> bool {
    !b.constraints.contains(Constraint::ReassemblyPending) && (b.constraints.contains(
        Constraint::ForwardPending,
    ) || b.constraints.contains(Constraint::Contraindicated))
}

/// Whether a bundle is ready: neither awaiting reassembly nor
/// contraindicated.
pub open spec fn is_ready(b: BundlePackView) -> bool {
    !b.constraints.contains(Constraint::ReassemblyPending) && !b.constraints.contains(
        Constraint::Contraindicated,
    )
}

/// Whether a bundle awaits forwarding.
pub open spec fn is_forwarding(b: BundlePackView) -> bool {
    b.constraints.contains(Constraint::ForwardPending)
}

/// Which stored bundles a listing names.
#[derive(Debug, Clone, Copy, PartialEq, Eq, Structural)]
pub enum Selection {
    All,
    Pending,
    Ready,
    Forwarding,
}

pub open spec fn selected(which: Selection, b: BundlePackView) -> bool {
    match which {
        Selection::All => true,
        Selection::Pending => is_pending(b),
        Selection::Ready => is_ready(b),
        Selection::Forwarding => is_forwarding(b),
    }
}

/// A bundle store in memory.
#[derive(Debug)]
pub struct InMemoryBundleStore {
    bundles: Vec<(String, BundlePack)>,
}

pub open spec fn bundle_view_opt(r: Option<BundlePack>) -> Option<BundlePackView> {
    match r {
        Some(b) => Some(b@),
        None => None,
    }
}

pub open spec fn ids_view(v: Seq<String>) -> Seq<Seq<char>> {
    v.map_values(|s: String| s@)
}

impl View for InMemoryBundleStore {
    type V = Map<Seq<char>, BundlePackView>;

    closed spec fn view(&self) -> Map<Seq<char>, BundlePackView> {
        table_map(self.bundles@)
    }
}

impl InMemoryBundleStore {
    #[verifier::type_invariant]
    closed spec fn keyed_by_id(&self) -> bool {
        &&& keys_unique(self.bundles@)
        &&& forall|i: int|
            0 <= i < self.bundles@.len() ==> #[trigger] self.bundles@[i].0@ == self.bundles@[i].1.id@
    }

    /// An empty store.
    pub fn new() -> (r: InMemoryBundleStore)
        ensures
            r@ == Map::<Seq<char>, BundlePackView>::empty(),
    {
        InMemoryBundleStore { bundles: Vec::new() }
    }

    /// Stores a copy of `bp`; refused where a bundle with its identifier is
    /// stored already.
    pub fn push(&mut self, bp: &BundlePack) -> (r: Result<(), StoreError>)
        ensures
            old(self)@.contains_key(bp.id@) ==> r == Err::<(), StoreError>(StoreError::AlreadyStored)
                && final(self)@ == old(self)@,
            !old(self)@.contains_key(bp.id@) ==> r == Ok::<(), StoreError>(()) && final(self)@
                == old(self)@.insert(bp.id@, bp@),
    {
        proof {
            use_type_invariant(&*self);
        }
        match table_find(&self.bundles, bp.id()) {
            Some(i) => {
                proof {
                    lemma_table_dom(self.bundles@, bp.id@);
                }
                Err(StoreError::AlreadyStored)
            },
            None => {
                let entry = (bp.id.clone(), bp.clone());
                proof {
                    lemma_table_push(self.bundles@, entry);
                }
                let mut bundles = Vec::new();
                std::mem::swap(&mut bundles, &mut self.bundles);
                bundles.push(entry);
                self.bundles = bundles;
                Ok(())
            },
        }
    }

    /// Replaces the stored bundle with `bp`'s identifier by a copy of `bp`;
    /// refused where none is stored.
    pub fn update(&mut self, bp: &BundlePack) -> (r: Result<(), StoreError>)
        ensures
            !old(self)@.contains_key(bp.id@) ==> r == Err::<(), StoreError>(StoreError::NotStored)
                && final(self)@ == old(self)@,
            old(self)@.contains_key(bp.id@) ==> r == Ok::<(), StoreError>(()) && final(self)@
                == old(self)@.insert(bp.id@, bp@),
    {
        proof {
            use_type_invariant(&*self);
        }
        match table_find(&self.bundles, bp.id()) {
            Some(i) => {
                let entry = (bp.id.clone(), bp.clone());
                proof {
                    lemma_table_dom(self.bundles@, bp.id@);
                    lemma_table_update(self.bundles@, i as int, entry);
                }
                let mut bundles = Vec::new();
                std::mem::swap(&mut bundles, &mut self.bundles);
                bundles.set(i, entry);
                self.bundles = bundles;
                Ok(())
            },
            None => Err(StoreError::NotStored),
        }
    }

    /// Takes the bundle `bid` out of the store, if it is there.
    pub fn remove(&mut self, bid: &str) -> (r: Option<BundlePack>)
        ensures
            bundle_view_opt(r) == if old(self)@.contains_key(bid@) {
                Some(old(self)@[bid@])
            } else {
                None::<BundlePackView>
            },
            final(self)@ == old(self)@.remove(bid@),
    {
        proof {
            use_type_invariant(&*self);
        }
        match table_find(&self.bundles, bid) {
            Some(i) => {
                proof {
                    lemma_table_value(self.bundles@, i as int);
                    lemma_table_remove(self.bundles@, i as int);
                }
                let mut bundles = Vec::new();
                std::mem::swap(&mut bundles, &mut self.bundles);
                let (_, bp) = bundles.remove(i);
                self.bundles = bundles;
                Some(bp)
            },
            None => {
                assert(table_map(self.bundles@).remove(bid@) =~= table_map(self.bundles@));
                None
            },
        }
    }

    /// A copy of the bundle `bpid`, if it is stored.
    pub fn get(&self, bpid: &str) -> (r: Option<BundlePack>)
        ensures
            bundle_view_opt(r) == if self@.contains_key(bpid@) {
                Some(self@[bpid@])
            } else {
                None::<BundlePackView>
            },
    {
        proof {
            use_type_invariant(self);
        }
        match table_find(&self.bundles, bpid) {
            Some(i) => {
                proof {
                    lemma_table_value(self.bundles@, i as int);
                }
                Some(self.bundles[i].1.clone())
            },
            None => None,
        }
    }

    /// The number of stored bundles.
    pub fn count(&self) -> (r: u64)
        ensures
            r == self@.len(),
    {
        proof {
            use_type_invariant(self);
            lemma_table_len(self.bundles@);
        }
        self.bundles.len() as u64
    }

    /// The identifiers of the stored bundles that `which` selects, each once.
    pub fn select(&self, which: Selection) -> (r: Vec<String>)
        ensures
            ids_view(r@).no_duplicates(),
            forall|k: Seq<char>|
                #[trigger] ids_view(r@).contains(k) <==> self@.contains_key(k) && selected(
                    which,
                    self@[k],
                ),
    {
        proof {
            use_type_invariant(self);
        }
        let mut ids: Vec<String> = Vec::new();
        let mut i: usize = 0;
        while i < self.bundles.len()
            invariant
                0 <= i <= self.bundles@.len(),
                keys_unique(self.bundles@),
                ids_view(ids@).no_duplicates(),
                forall|k: Seq<char>|
                    #[trigger] ids_view(ids@).contains(k) <==> exists|j: int|
                        0 <= j < i && self.bundles@[j].0@ == k && selected(
                            which,
                            self.bundles@[j].1@,
                        ),
            decreases self.bundles@.len() - i,
        {
            let b = &self.bundles[i].1;
            let chosen = match which {
                Selection::All => true,
                Selection::Pending => !b.has_constraint(Constraint::ReassemblyPending) && (
                b.has_constraint(Constraint::ForwardPending) || b.has_constraint(
                    Constraint::Contraindicated,
                )),
                Selection::Ready => !b.has_constraint(Constraint::ReassemblyPending)
                    && !b.has_constraint(Constraint::Contraindicated),
                Selection::Forwarding => b.has_constraint(Constraint::ForwardPending),
            };
            let ghost before = ids@;
            if chosen {
                ids.push(self.bundles[i].0.clone());
            }
            proof {
                let key = self.bundles@[i as int].0@;
                assert forall|k: Seq<char>| #[trigger] ids_view(ids@).contains(k) <==> exists|j: int|
                    0 <= j < i + 1 && self.bundles@[j].0@ == k && selected(which, self.bundles@[j].1@) by {
                    if ids_view(ids@).contains(k) {
                        let m = choose|m: int| 0 <= m < ids_view(ids@).len() && ids_view(ids@)[m] == k;
                        if m < before.len() {
                            assert(ids_view(before)[m] == k);
                            assert(ids_view(before).contains(k));
                        } else {
                            assert(k == key);
                        }
                    }
                    if exists|j: int| 0 <= j < i + 1 && self.bundles@[j].0@ == k && selected(which, self.bundles@[j].1@) {
                        let j = choose|j: int| 0 <= j < i + 1 && self.bundles@[j].0@ == k && selected(which, self.bundles@[j].1@);
                        if j < i {
                            assert(ids_view(before).contains(k));
                            let m = choose|m: int| 0 <= m < ids_view(before).len() && ids_view(before)[m] == k;
                            assert(ids_view(ids@)[m] == k);
                        } else {
                            assert(ids_view(ids@)[ids@.len() - 1] == k);
                        }
                    }
                }
                if chosen {
                    assert forall|a: int, b: int| 0 <= a < b < ids_view(ids@).len() implies ids_view(ids@)[a] != ids_view(ids@)[b] by {
                        if b == ids@.len() - 1 {
                            assert(ids_view(before)[a] == ids_view(ids@)[a]);
                            assert(ids_view(before).contains(ids_view(ids@)[a]));
                            let j = choose|j: int| 0 <= j < i && self.bundles@[j].0@ == ids_view(ids@)[a] && selected(which, self.bundles@[j].1@);
                        } else {
                            assert(ids_view(before)[a] == ids_view(ids@)[a]);
                            assert(ids_view(before)[b] == ids_view(ids@)[b]);
                        }
                    }
                } else {
                    assert(ids_view(ids@) =~= ids_view(before));
                }
            }
            i = i + 1;
        }
        proof {
            assert forall|k: Seq<char>| #[trigger] ids_view(ids@).contains(k) <==> self@.contains_key(k) && selected(which, self@[k]) by {
                lemma_table_dom(self.bundles@, k);
                if exists|j: int| 0 <= j < self.bundles@.len() && self.bundles@[j].0@ == k {
                    let j = choose|j: int| 0 <= j < self.bundles@.len() && self.bundles@[j].0@ == k;
                    lemma_table_value(self.bundles@, j);
                    if ids_view(ids@).contains(k) {
                        let j2 = choose|j2: int| 0 <= j2 < self.bundles@.len() && self.bundles@[j2].0@ == k && selected(which, self.bundles@[j2].1@);
                        lemma_table_value(self.bundles@, j2);
                    }
                }
            }
        }
        ids
    }

    /// The identifiers of all stored bundles.
    pub fn all_ids(&self) -> (r: Vec<String>)
        ensures
            ids_view(r@).no_duplicates(),
            forall|k: Seq<char>| #[trigger] ids_view(r@).contains(k) <==> self@.contains_key(k),
    {
        self.select(Selection::All)
    }

    /// The identifiers of the pending bundles.
    pub fn pending(&self) -> (r: Vec<String>)
        ensures
            ids_view(r@).no_duplicates(),
            forall|k: Seq<char>|
                #[trigger] ids_view(r@).contains(k) <==> self@.contains_key(k) && is_pending(self@[k]),
    {
        self.select(Selection::Pending)
    }

    /// The identifiers of the ready bundles.
    pub fn ready(&self) -> (r: Vec<String>)
        ensures
            ids_view(r@).no_duplicates(),
            forall|k: Seq<char>|
                #[trigger] ids_view(r@).contains(k) <==> self@.contains_key(k) && is_ready(self@[k]),
    {
        self.select(Selection::Ready)
    }

    /// The identifiers of the bundles that await forwarding.
    pub fn forwarding(&self) -> (r: Vec<String>)
        ensures
            ids_view(r@).no_duplicates(),
            forall|k: Seq<char>|
                #[trigger] ids_view(r@).contains(k) <==> self@.contains_key(k) && is_forwarding(
                    self@[k],
                ),
    {
        self.select(Selection::Forwarding)
    }

    /// Copies of all stored bundles.
    pub fn bundles(&self) -> (r: Vec<BundlePack>)
        ensures
            r@.len() == self@.len(),
            forall|i: int|
                0 <= i < r@.len() ==> self@.contains_key(#[trigger] r@[i]@.id) && self@[r@[i]@.id]
                    == r@[i]@,
            forall|k: Seq<char>|
                self@.contains_key(k) ==> exists|i: int| 0 <= i < r@.len() && #[trigger] r@[i]@.id == k,
    {
        proof {
            use_type_invariant(self);
            lemma_table_len(self.bundles@);
        }
        let mut out: Vec<BundlePack> = Vec::new();
        let mut i: usize = 0;
        while i < self.bundles.len()
            invariant
                0 <= i <= self.bundles@.len(),
                out@.len() == i,
                keys_unique(self.bundles@),
                forall|j: int| 0 <= j < self.bundles@.len() ==> #[trigger] self.bundles@[j].0@ == self.bundles@[j].1.id@,
                forall|j: int| 0 <= j < i ==> #[trigger] out@[j]@ == self.bundles@[j].1@,
            decreases self.bundles@.len() - i,
        {
            out.push(self.bundles[i].1.clone());
            i = i + 1;
        }
        proof {
            assert forall|j: int| 0 <= j < out@.len() implies self@.contains_key(#[trigger] out@[j]@.id) && self@[out@[j]@.id] == out@[j]@ by {
                lemma_table_value(self.bundles@, j);
            }
            assert forall|k: Seq<char>| self@.contains_key(k) implies exists|i: int| 0 <= i < out@.len() && #[trigger] out@[i]@.id == k by {
                lemma_table_dom(self.bundles@, k);
                let j = choose|j: int| 0 <= j < self.bundles@.len() && #[trigger] self.bundles@[j].0@ == k;
                assert(out@[j]@.id == k);
            }
        }
        out
    }

    /// Whether the bundle `bid` is stored.
    pub fn has_item(&self, bid: &str) -> (r: bool)
        ensures
            r == self@.contains_key(bid@),
    {
        proof {
            use_type_invariant(self);
        }
        match table_find(&self.bundles, bid) {
            Some(i) => {
                proof {
                    lemma_table_dom(self.bundles@, bid@);
                }
                true
            },
            None => false,
        }
    }
}

/// The bundle store a node runs on. The disk-backed kinds open files and
/// live with the daemon; the one held here is the store in memory.
#[derive(Debug)]
pub enum BundleStoresEnum {
    InMemoryBundleStore(InMemoryBundleStore),
}

/// A fresh store of the kind `bundlestore` names, one of `bundle_stores`:
/// the store in memory for `mem`; `None` for the disk-backed kinds, which
/// open files and live with the daemon.
pub fn new(bundlestore: &str) -> (r: Option<BundleStoresEnum>)
    requires
        bundlestore@ == "mem"@ || bundlestore@ == "sled"@ || bundlestore@ == "sneakers"@,
    ensures
        bundlestore@ == "mem"@ ==> (r matches Some(BundleStoresEnum::InMemoryBundleStore(s)) && s@ == Map::<
            Seq<char>,
            BundlePackView,
        >::empty()),
        bundlestore@ != "mem"@ ==> r is None,
{
    let kind = bundlestore.to_owned();
    if kind == "mem".to_owned() {
        Some(BundleStoresEnum::InMemoryBundleStore(InMemoryBundleStore::new()))
    } else {
        None
    }
}

/// What each listing names, by the constraints alone: the forwarding
/// listing names exactly the bundles awaiting forwarding, whatever other
/// constraints they carry; the ready listing those neither awaiting
/// reassembly nor contraindicated; the pending listing those not awaiting
/// reassembly that await forwarding or are contraindicated. So a bundle
/// awaiting forwarding stays listed for forwarding when it is also marked
/// contraindicated.
pub proof fn law_listings(b: BundlePackView)
    ensures
        selected(Selection::Forwarding, b) <==> b.constraints.contains(Constraint::ForwardPending),
        selected(Selection::Ready, b) <==> !b.constraints.contains(Constraint::ReassemblyPending)
            && !b.constraints.contains(Constraint::Contraindicated),
        selected(Selection::Pending, b) <==> !b.constraints.contains(Constraint::ReassemblyPending)
            && (b.constraints.contains(Constraint::ForwardPending) || b.constraints.contains(
            Constraint::Contraindicated,
        )),
        selected(Selection::All, b),
        forall|c: Constraint|
            selected(Selection::Forwarding, b) ==> #[trigger] selected(
                Selection::Forwarding,
                BundlePackView { constraints: b.constraints.push(c), ..b },
            ),
{
    assert forall|c: Constraint|
        selected(Selection::Forwarding, b) implies #[trigger] selected(
            Selection::Forwarding,
            BundlePackView { constraints: b.constraints.push(c), ..b },
        ) by {
        let i = choose|i: int| 0 <= i < b.constraints.len() && b.constraints[i] == Constraint::ForwardPending;
        assert(b.constraints.push(c)[i] == Constraint::ForwardPending);
    }
}

/// What is written is read back: after `push` of a bundle under a new
/// identifier, `get` of that identifier gives the bundle, and every other
/// identifier reads as before.
pub proof fn law_read_after_push(before: InMemoryBundleStore, after: InMemoryBundleStore, bp: BundlePack)
    requires
        !before@.contains_key(bp.id@),
        after@ == before@.insert(bp.id@, bp@),
    ensures
        after@.contains_key(bp.id@),
        after@[bp.id@] == bp@,
        forall|k: Seq<char>| k != bp.id@ ==> (after@.contains_key(k) == before@.contains_key(k)),
        forall|k: Seq<char>| k != bp.id@ && before@.contains_key(k) ==> after@[k] == before@[k],
{
}

/// What is removed is gone, and nothing else is: after `remove` of an
/// identifier, `has_item` of it is false and every other identifier reads
/// as before.
pub proof fn law_gone_after_remove(before: InMemoryBundleStore, after: InMemoryBundleStore, bid: Seq<char>)
    requires
        after@ == before@.remove(bid),
    ensures
        !after@.contains_key(bid),
        forall|k: Seq<char>| k != bid ==> (after@.contains_key(k) == before@.contains_key(k)),
        forall|k: Seq<char>| k != bid && before@.contains_key(k) ==> after@[k] == before@[k],
{
}

/// What is updated is read back: after `update` of a stored bundle, `get`
/// of its identifier gives the new pack and every other identifier reads
/// as before; the set of stored identifiers does not change.
pub proof fn law_read_after_update(before: InMemoryBundleStore, after: InMemoryBundleStore, bp: BundlePack)
    requires
        before@.contains_key(bp.id@),
        after@ == before@.insert(bp.id@, bp@),
    ensures
        after@[bp.id@] == bp@,
        after@.dom() == before@.dom(),
        forall|k: Seq<char>| k != bp.id@ && before@.contains_key(k) ==> after@[k] == before@[k],
{
    assert(after@.dom() =~= before@.dom());
}

} // verus!
