//! A bundle's metadata while the node holds it: its endpoints, times, size
//! and the retention constraints that keep it in the store.
use vstd::prelude::*;
use crate::bp::eid::{EndpointID, EidView};

verus! {

/// Why a bundle is retained.
#[derive(Debug, Clone, Copy, PartialEq, Eq, Structural, Hash)]
pub enum Constraint {
    /// Its dispatching is pending.
    DispatchPending,
    /// Its forwarding is pending.
    ForwardPending,
    /// It is a fragment whose reassembly is pending.
    ReassemblyPending,
    /// It could not be delivered and waits for another chance.
    Contraindicated,
    /// It was delivered to a local endpoint, which has not yet released it.
    LocalEndpoint,
    /// It was deleted; only its metadata is kept, against resubmission.
    Deleted,
}

/// A bundle's metadata: source and destination, reception time (Unix
/// milliseconds), creation time (DTN time), identifier, whether it is an
/// administrative record, its encoded size and its constraints.
#[derive(Debug)]
pub struct BundlePack {
    pub source: EndpointID,
    pub destination: EndpointID,
    pub received_time: u64,
    pub creation_time: u64,
    pub id: String,
    pub administrative: bool,
    pub size: usize,
    pub constraints: Vec<Constraint>,
}

/// `BundlePack` as values.
pub struct BundlePackView {
    pub source: EidView,
    pub destination: EidView,
    pub received_time: u64,
    pub creation_time: u64,
    pub id: Seq<char>,
    pub administrative: bool,
    pub size: usize,
    pub constraints: Seq<Constraint>,
}

impl View for BundlePack {
    type V = BundlePackView;

    open spec fn view(&self) -> BundlePackView {
        BundlePackView {
            source: self.source@,
            destination: self.destination@,
            received_time: self.received_time,
            creation_time: self.creation_time,
            id: self.id@,
            administrative: self.administrative,
            size: self.size,
            constraints: self.constraints@,
        }
    }
}

impl Clone for BundlePack {
    fn clone(&self) -> (r: Self)
        ensures
            r.source == self.source,
            r.destination == self.destination,
            r.received_time == self.received_time,
            r.creation_time == self.creation_time,
            r.id == self.id,
            r.administrative == self.administrative,
            r.size == self.size,
            r.constraints@ == self.constraints@,
            r@ == self@,
    {
        let constraints = self.constraints.clone();
        assert(constraints@ =~= self.constraints@);
        BundlePack {
            source: self.source.clone(),
            destination: self.destination.clone(),
            received_time: self.received_time,
            creation_time: self.creation_time,
            id: self.id.clone(),
            administrative: self.administrative,
            size: self.size,
            constraints,
        }
    }
}

impl BundlePack {
    /// The constraints, as a set.
    pub open spec fn constraint_set(&self) -> Set<Constraint> {
        self.constraints@.to_set()
    }

    /// The bundle's identifier.
    pub fn id(&self) -> (r: &str)
        ensures
            r@ == self.id@,
    {
        self.id.as_str()
    }

    /// Whether the bundle has a destination other than `dtn:none`.
    pub fn has_receiver(&self) -> (r: bool)
        ensures
            r == !(self.destination@ == EndpointID::DtnNone(
                crate::bp::eid::ENDPOINT_URI_SCHEME_DTN,
                0,
            )@),
    {
        match &self.destination {
            EndpointID::DtnNone(a, b) => !(*a == crate::bp::eid::ENDPOINT_URI_SCHEME_DTN && *b == 0),
            _ => true,
        }
    }

    /// Whether `constraint` holds.
    pub fn has_constraint(&self, constraint: Constraint) -> (r: bool)
        ensures
            r == self.constraint_set().contains(constraint),
    {
        let mut i: usize = 0;
        while i < self.constraints.len()
            invariant
                0 <= i <= self.constraints@.len(),
                forall|j: int| 0 <= j < i ==> self.constraints@[j] != constraint,
            decreases self.constraints@.len() - i,
        {
            if self.constraints[i] == constraint {
                assert(self.constraints@.contains(constraint));
                return true;
            }
            i = i + 1;
        }
        false
    }

    /// Whether any constraint holds.
    pub fn has_constraints(&self) -> (r: bool)
        ensures
            r == !self.constraint_set().is_empty(),
    {
        if self.constraints.len() > 0 {
            assert(self.constraint_set().contains(self.constraints@[0]));
            true
        } else {
            assert(self.constraint_set() =~= Set::<Constraint>::empty());
            false
        }
    }

    /// Adds `constraint`.
    pub fn add_constraint(&mut self, constraint: Constraint)
        ensures
            final(self).constraint_set() == old(self).constraint_set().insert(constraint),
            final(self).id == old(self).id,
            final(self).source == old(self).source,
            final(self).destination == old(self).destination,
            final(self).received_time == old(self).received_time,
            final(self).creation_time == old(self).creation_time,
            final(self).administrative == old(self).administrative,
            final(self).size == old(self).size,
    {
        if !self.has_constraint(constraint) {
            let ghost before = self.constraints@;
            self.constraints.push(constraint);
            assert(self.constraints@.to_set() =~= before.to_set().insert(constraint)) by {
                assert forall|c: Constraint| #[trigger] self.constraints@.contains(c) <==> (
                before.contains(c) || c == constraint) by {
                    if self.constraints@.contains(c) && c != constraint {
                        let k = choose|k: int| 0 <= k < self.constraints@.len() && self.constraints@[k] == c;
                        assert(before[k] == c);
                    }
                    if before.contains(c) {
                        let k = choose|k: int| 0 <= k < before.len() && before[k] == c;
                        assert(self.constraints@[k] == c);
                    }
                    if c == constraint {
                        assert(self.constraints@[before.len() as int] == c);
                    }
                }
            }
        } else {
            assert(self.constraint_set() =~= self.constraint_set().insert(constraint));
        }
    }

    /// Removes `constraint`.
    pub fn remove_constraint(&mut self, constraint: Constraint)
        ensures
            final(self).constraint_set() == old(self).constraint_set().remove(constraint),
            final(self).id == old(self).id,
            final(self).source == old(self).source,
            final(self).destination == old(self).destination,
            final(self).received_time == old(self).received_time,
            final(self).creation_time == old(self).creation_time,
            final(self).administrative == old(self).administrative,
            final(self).size == old(self).size,
    {
        let ghost before = self.constraints@;
        let mut kept: Vec<Constraint> = Vec::new();
        let mut i: usize = 0;
        while i < self.constraints.len()
            invariant
                0 <= i <= self.constraints@.len(),
                self.constraints@ == before,
                forall|c: Constraint| #[trigger] kept@.contains(c) <==> (c != constraint && exists|j: int| 0 <= j < i && before[j] == c),
            decreases self.constraints@.len() - i,
        {
            let c = self.constraints[i];
            let ghost old_kept = kept@;
            if c != constraint {
                kept.push(c);
            }
            proof {
                assert forall|d: Constraint| #[trigger] kept@.contains(d) <==> (d != constraint && exists|j: int| 0 <= j < i + 1 && before[j] == d) by {
                    if kept@.contains(d) {
                        let k = choose|k: int| 0 <= k < kept@.len() && kept@[k] == d;
                        if k < old_kept.len() {
                            assert(old_kept[k] == d);
                            assert(old_kept.contains(d));
                        } else {
                            assert(before[i as int] == d);
                        }
                    }
                    if d != constraint && exists|j: int| 0 <= j < i + 1 && before[j] == d {
                        let j = choose|j: int| 0 <= j < i + 1 && before[j] == d;
                        if j < i {
                            assert(old_kept.contains(d));
                            let k = choose|k: int| 0 <= k < old_kept.len() && old_kept[k] == d;
                            assert(kept@[k] == d);
                        } else {
                            assert(kept@[kept@.len() - 1] == d);
                        }
                    }
                }
            }
            i = i + 1;
        }
        self.constraints = kept;
        assert(self.constraints@.to_set() =~= before.to_set().remove(constraint)) by {
            assert forall|d: Constraint| #[trigger] before.contains(d) <==> exists|j: int| 0 <= j < before.len() && before[j] == d by {}
        }
    }

    /// Drops every constraint but `LocalEndpoint`, which stays if it held.
    pub fn clear_constraints(&mut self)
        ensures
            final(self).constraint_set() == if old(self).constraint_set().contains(
                Constraint::LocalEndpoint,
            ) {
                set![Constraint::LocalEndpoint]
            } else {
                Set::<Constraint>::empty()
            },
            final(self).id == old(self).id,
            final(self).source == old(self).source,
            final(self).destination == old(self).destination,
            final(self).received_time == old(self).received_time,
            final(self).creation_time == old(self).creation_time,
            final(self).administrative == old(self).administrative,
            final(self).size == old(self).size,
    {
        let local_set = self.has_constraint(Constraint::LocalEndpoint);
        self.constraints = Vec::new();
        if local_set {
            self.add_constraint(Constraint::LocalEndpoint);
        }
        assert(Seq::<Constraint>::empty().to_set() =~= Set::<Constraint>::empty());
        assert(Set::<Constraint>::empty().insert(Constraint::LocalEndpoint) =~= set![Constraint::LocalEndpoint]);
    }

    /// Replaces the constraints.
    pub fn set_constraints(&mut self, constraints: Vec<Constraint>)
        ensures
            final(self).constraints == constraints,
            final(self).id == old(self).id,
            final(self).source == old(self).source,
            final(self).destination == old(self).destination,
            final(self).received_time == old(self).received_time,
            final(self).creation_time == old(self).creation_time,
            final(self).administrative == old(self).administrative,
            final(self).size == old(self).size,
    {
        self.constraints = constraints;
    }
}

} // verus!
