//! Application agents: the endpoints of the node that applications
//! register, each with the bundles waiting for it and, while an application
//! is connected, the handle its bundles are delivered to.
use vstd::prelude::*;
use std::collections::VecDeque;
use crate::bp::eid::{EndpointID, EidView, eid_eq};

verus! {

/// An application agent: its endpoint, the bundles waiting for it (oldest
/// first) and, while an application is connected, the handle to deliver
/// to.
#[derive(Debug)]
pub struct SimpleApplicationAgent<D> {
    eid: EndpointID,
    bundles: VecDeque<bp7::Bundle>,
    delivery: Option<D>,
}

/// `SimpleApplicationAgent` as values.
pub struct AgentView<D> {
    pub eid: EidView,
    pub bundles: Seq<bp7::Bundle>,
    pub delivery: Option<D>,
}

impl<D> View for SimpleApplicationAgent<D> {
    type V = AgentView<D>;

    closed spec fn view(&self) -> AgentView<D> {
        AgentView { eid: self.eid@, bundles: self.bundles@, delivery: self.delivery }
    }
}

impl<D> SimpleApplicationAgent<D> {
    /// The agent of `eid`, with no bundles and no connected application.
    pub fn with(eid: EndpointID) -> (r: SimpleApplicationAgent<D>)
        ensures
            r@.eid == eid@,
            r@.bundles == Seq::<bp7::Bundle>::empty(),
            r@.delivery is None,
    {
        SimpleApplicationAgent { eid, bundles: VecDeque::new(), delivery: None }
    }

    /// The agent's endpoint identifier.
    pub closed spec fn spec_eid(&self) -> EndpointID {
        self.eid
    }

    /// The agent's endpoint.
    pub fn eid(&self) -> (r: &EndpointID)
        ensures
            r@ == self@.eid,
            *r == self.spec_eid(),
    {
        &self.eid
    }

    /// A bundle for this endpoint. While an application is connected it is
    /// handed back, for delivery to the handle; otherwise it waits, last in
    /// line.
    pub fn push(&mut self, bundle: bp7::Bundle) -> (r: Option<bp7::Bundle>)
        ensures
            final(self)@.eid == old(self)@.eid,
            final(self)@.delivery == old(self)@.delivery,
            old(self)@.delivery is Some ==> r == Some(bundle) && final(self)@.bundles == old(self)@.bundles,
            old(self)@.delivery is None ==> r is None && final(self)@.bundles == old(self)@.bundles.push(bundle),
    {
        if self.delivery.is_some() {
            Some(bundle)
        } else {
            self.bundles.push_back(bundle);
            None
        }
    }

    /// The oldest waiting bundle, taken out of the line.
    pub fn pop(&mut self) -> (r: Option<bp7::Bundle>)
        ensures
            final(self)@.eid == old(self)@.eid,
            final(self)@.delivery == old(self)@.delivery,
            old(self)@.bundles.len() == 0 ==> r is None && final(self)@.bundles == old(self)@.bundles,
            old(self)@.bundles.len() > 0 ==> r == Some(old(self)@.bundles[0]) && final(self)@.bundles
                == old(self)@.bundles.drop_first(),
    {
        self.bundles.pop_front()
    }

    /// An application connected: its bundles go to `addr` from now on.
    pub fn set_delivery_addr(&mut self, addr: D)
        ensures
            final(self)@.delivery == Some(addr),
            final(self)@.eid == old(self)@.eid,
            final(self)@.bundles == old(self)@.bundles,
    {
        self.delivery = Some(addr);
    }

    /// The application went away: bundles wait again.
    pub fn clear_delivery_addr(&mut self)
        ensures
            final(self)@.delivery is None,
            final(self)@.eid == old(self)@.eid,
            final(self)@.bundles == old(self)@.bundles,
    {
        self.delivery = None;
    }

    /// Where bundles are delivered, while an application is connected.
    pub fn delivery_addr(&self) -> (r: Option<&D>)
        ensures
            match r {
                Some(d) => self@.delivery == Some(*d),
                None => self@.delivery is None,
            },
    {
        match &self.delivery {
            Some(d) => Some(d),
            None => None,
        }
    }
}

/// The agents' endpoints, in the order they were registered.
pub open spec fn agent_eids<D>(agents: Seq<SimpleApplicationAgent<D>>) -> Seq<EidView> {
    agents.map_values(|a: SimpleApplicationAgent<D>| a@.eid)
}

/// The position of the first agent of `eid`, if there is one.
pub open spec fn first_agent<D>(agents: Seq<SimpleApplicationAgent<D>>, eid: EidView) -> Option<int>
    decreases agents.len(),
{
    if agents.len() == 0 {
        None
    } else {
        match first_agent(agents.drop_last(), eid) {
            Some(i) => Some(i),
            None => if agents.last()@.eid == eid {
                Some(agents.len() - 1)
            } else {
                None
            },
        }
    }
}

proof fn lemma_first_agent<D>(agents: Seq<SimpleApplicationAgent<D>>, eid: EidView, i: int)
    requires
        0 <= i <= agents.len(),
        forall|j: int| 0 <= j < i ==> agents[j]@.eid != eid,
        i == agents.len() || agents[i]@.eid == eid,
    ensures
        first_agent(agents, eid) == if i == agents.len() {
            None::<int>
        } else {
            Some(i)
        },
    decreases agents.len(),
{
    if agents.len() > 0 {
        let t = agents.drop_last();
        if i < agents.len() - 1 {
            lemma_first_agent(t, eid, i);
        } else {
            lemma_first_agent(t, eid, t.len() as int);
        }
    }
}

/// A found agent lies inside the table and serves the endpoint looked for.
pub proof fn lemma_first_agent_found<D>(agents: Seq<SimpleApplicationAgent<D>>, eid: EidView)
    ensures
        first_agent(agents, eid) matches Some(i) ==> 0 <= i < agents.len() && agents[i]@.eid == eid,
    decreases agents.len(),
{
    if agents.len() > 0 {
        lemma_first_agent_found(agents.drop_last(), eid);
    }
}

/// A registered agent is found: after `register_application_agent`,
/// `is_in_endpoints` of its endpoint holds, and an endpoint that was found
/// before is found at the same place.
pub proof fn law_registered_agent_found<D>(agents: Seq<SimpleApplicationAgent<D>>, aa: SimpleApplicationAgent<D>, eid: EidView)
    ensures
        first_agent(agents.push(aa), aa@.eid) is Some,
        first_agent(agents, eid) is Some ==> first_agent(agents.push(aa), eid) == first_agent(agents, eid),
{
    assert(agents.push(aa).drop_last() =~= agents);
}

/// The node's core: the application agents registered with it.
#[derive(Debug)]
pub struct DtnCore<D> {
    pub endpoints: Vec<SimpleApplicationAgent<D>>,
}

impl<D> DtnCore<D> {
    /// A core without agents.
    pub fn new() -> (r: DtnCore<D>)
        ensures
            r.endpoints@ == Seq::<SimpleApplicationAgent<D>>::empty(),
    {
        DtnCore { endpoints: Vec::new() }
    }

    /// Registers an agent, after those registered before.
    pub fn register_application_agent(&mut self, aa: SimpleApplicationAgent<D>)
        ensures
            final(self).endpoints@ == old(self).endpoints@.push(aa),
    {
        self.endpoints.push(aa);
    }

    fn find(&self, eid: &EndpointID) -> (r: Option<usize>)
        ensures
            match r {
                Some(i) => i < self.endpoints@.len() && first_agent(self.endpoints@, eid@) == Some(i as int),
                None => first_agent(self.endpoints@, eid@) is None,
            },
    {
        let mut i: usize = 0;
        while i < self.endpoints.len()
            invariant
                0 <= i <= self.endpoints@.len(),
                forall|j: int| 0 <= j < i ==> self.endpoints@[j]@.eid != eid@,
            decreases self.endpoints@.len() - i,
        {
            if eid_eq(self.endpoints[i].eid(), eid) {
                proof {
                    lemma_first_agent(self.endpoints@, eid@, i as int);
                }
                return Some(i);
            }
            i = i + 1;
        }
        proof {
            lemma_first_agent(self.endpoints@, eid@, i as int);
        }
        None
    }

    /// Removes the first agent of `eid`, if there is one.
    pub fn unregister_application_agent(&mut self, eid: &EndpointID)
        ensures
            match first_agent(old(self).endpoints@, eid@) {
                Some(i) => final(self).endpoints@ == old(self).endpoints@.remove(i),
                None => final(self).endpoints@ == old(self).endpoints@,
            },
    {
        match self.find(eid) {
            Some(i) => {
                self.endpoints.remove(i);
            },
            None => {},
        }
    }

    /// Whether an agent of `eid` is registered.
    pub fn is_in_endpoints(&self, eid: &EndpointID) -> (r: bool)
        ensures
            r == (first_agent(self.endpoints@, eid@) is Some),
    {
        self.find(eid).is_some()
    }

    /// The first agent of `eid`, if there is one.
    pub fn get_endpoint(&self, eid: &EndpointID) -> (r: Option<&SimpleApplicationAgent<D>>)
        ensures
            match first_agent(self.endpoints@, eid@) {
                Some(i) => r == Some(&self.endpoints@[i]),
                None => r is None,
            },
    {
        match self.find(eid) {
            Some(i) => Some(&self.endpoints[i]),
            None => None,
        }
    }

    /// The first agent of `eid`, if there is one, to be changed in place.
    pub fn get_endpoint_mut(&mut self, eid: &EndpointID) -> (r: Option<&mut SimpleApplicationAgent<D>>)
        ensures
            match first_agent(old(self).endpoints@, eid@) {
                Some(i) => r is Some && *r.unwrap() == old(self).endpoints@[i]
                    && final(self).endpoints@ == old(self).endpoints@.update(i, *final(r.unwrap())),
                None => r is None && final(self).endpoints@ == old(self).endpoints@,
            },
    {
        match self.find(eid) {
            Some(i) => Some(&mut self.endpoints[i]),
            None => None,
        }
    }

    /// The endpoints of all agents, as text, in the order they were
    /// registered.
    pub fn eids(&self) -> (r: Vec<String>)
        ensures
            r@.len() == self.endpoints@.len(),
            forall|i: int|
                0 <= i < r@.len() ==> #[trigger] r@[i]@ == self.endpoints@[i].spec_eid().spec_to_string(),
    {
        let mut out: Vec<String> = Vec::new();
        let mut i: usize = 0;
        while i < self.endpoints.len()
            invariant
                0 <= i <= self.endpoints@.len(),
                out@.len() == i,
                forall|j: int| 0 <= j < i ==> #[trigger] out@[j]@ == self.endpoints@[j].spec_eid().spec_to_string(),
            decreases self.endpoints@.len() - i,
        {
            out.push(self.endpoints[i].eid().to_string());
            i = i + 1;
        }
        out
    }
}

} // verus!
