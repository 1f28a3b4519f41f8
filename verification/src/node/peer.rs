//! Peers of the node: how they are reached and when they are forgotten.
use vstd::prelude::*;
use std::collections::HashMap;
use crate::bp::eid::EndpointID;
use crate::cla::ConvergenceLayerAgents;

verus! {

/// How a peer became known: configured, or discovered.
#[derive(Debug, Clone, Copy, PartialEq, Eq, Structural)]
pub enum PeerType {
    Static,
    Dynamic,
}

/// An IP address, version 4 or 6, as its octets.
#[derive(Debug, Clone, Copy, PartialEq, Eq)]
pub enum IpAddress {
    V4([u8; 4]),
    V6([u8; 16]),
}

/// Where a peer is: an IP address, or an address that only its convergence
/// layer understands.
#[derive(Debug, PartialEq, Eq)]
pub enum PeerAddress {
    Ip(IpAddress),
    Generic(String),
}

/// `PeerAddress` with its text as a sequence of characters.
pub enum PeerAddressView {
    Ip(IpAddress),
    Generic(Seq<char>),
}

impl View for PeerAddress {
    type V = PeerAddressView;

    open spec fn view(&self) -> PeerAddressView {
        match self {
            PeerAddress::Ip(a) => PeerAddressView::Ip(*a),
            PeerAddress::Generic(s) => PeerAddressView::Generic(s@),
        }
    }
}

impl Clone for PeerAddress {
    fn clone(&self) -> (r: Self)
        ensures
            r == *self,
    {
        match self {
            PeerAddress::Ip(a) => PeerAddress::Ip(*a),
            PeerAddress::Generic(s) => PeerAddress::Generic(s.clone()),
        }
    }
}

/// A peer: its endpoint, address, kind, the beacon period it announced (in
/// seconds), its agents with their ports, its services and the time it was
/// last seen (Unix seconds).
#[derive(Debug)]
pub struct DtnPeer {
    pub eid: EndpointID,
    pub addr: PeerAddress,
    pub con_type: PeerType,
    pub period: Option<u64>,
    pub cla_list: Vec<(ConvergenceLayerAgents, Option<u16>)>,
    pub services: HashMap<u8, String>,
    pub last_contact: u64,
}

fn copy_cla_list(v: &Vec<(ConvergenceLayerAgents, Option<u16>)>) -> (r: Vec<
    (ConvergenceLayerAgents, Option<u16>),
>)
    ensures
        r@ == v@,
{
    let mut r: Vec<(ConvergenceLayerAgents, Option<u16>)> = Vec::new();
    let mut i: usize = 0;
    while i < v.len()
        invariant
            0 <= i <= v@.len(),
            r@ == v@.take(i as int),
        decreases v@.len() - i,
    {
        r.push(v[i]);
        assert(r@ =~= v@.take(i + 1));
        i = i + 1;
    }
    assert(r@ =~= v@);
    r
}

impl Clone for DtnPeer {
    fn clone(&self) -> (r: Self)
        ensures
            r.eid == self.eid,
            r.addr == self.addr,
            r.con_type == self.con_type,
            r.period == self.period,
            r.cla_list@ == self.cla_list@,
            r.services@ == self.services@,
            r.last_contact == self.last_contact,
    {
        let cla_list = copy_cla_list(&self.cla_list);
        DtnPeer {
            eid: self.eid.clone(),
            addr: self.addr.clone(),
            con_type: self.con_type,
            period: self.period,
            cla_list,
            services: self.services.clone(),
            last_contact: self.last_contact,
        }
    }
}

/// An agent of a peer that bundles can be sent through.
#[derive(Debug, Clone)]
pub struct ClaSender {
    pub remote: PeerAddress,
    pub port: Option<u16>,
    pub agent: ConvergenceLayerAgents,
}

/// Whether `p`, last seen at `p.last_contact`, still counts as reachable at
/// `now`. Static peers always do. A dynamic peer does for `peer_timeout`
/// seconds where a custom timeout is set (and is not zero) or it announced
/// no beacon period; otherwise for twice its beacon period.
pub open spec fn spec_still_valid(p: DtnPeer, now: u64, peer_timeout: u64, custom_timeout: bool) -> bool {
    if p.con_type == PeerType::Static {
        true
    } else if (custom_timeout && peer_timeout > 0) || p.period is None {
        now - p.last_contact < peer_timeout
    } else {
        now - p.last_contact < p.period->0 * 2
    }
}

impl DtnPeer {
    /// A peer seen at `now`.
    pub fn new(
        eid: EndpointID,
        addr: PeerAddress,
        con_type: PeerType,
        period: Option<u64>,
        cla_list: Vec<(ConvergenceLayerAgents, Option<u16>)>,
        services: HashMap<u8, String>,
        now: u64,
    ) -> (r: DtnPeer)
        ensures
            r.eid == eid,
            r.addr == addr,
            r.con_type == con_type,
            r.period == period,
            r.cla_list == cla_list,
            r.services == services,
            r.last_contact == now,
    {
        DtnPeer { eid, addr, con_type, period, cla_list, services, last_contact: now }
    }

    /// Records that the peer was seen at `now`.
    pub fn touch(&mut self, now: u64)
        ensures
            final(self).last_contact == now,
            final(self).eid == old(self).eid,
            final(self).addr == old(self).addr,
            final(self).con_type == old(self).con_type,
            final(self).period == old(self).period,
            final(self).cla_list == old(self).cla_list,
            final(self).services == old(self).services,
    {
        self.last_contact = now;
    }

    /// Whether the peer still counts as reachable at `now`, given the
    /// configured peer timeout (seconds) and whether it was set explicitly.
    pub fn still_valid(&self, now: u64, peer_timeout: u64, custom_timeout: bool) -> (r: bool)
        requires
            self.con_type == PeerType::Dynamic ==> self.last_contact <= now,
            self.con_type == PeerType::Dynamic && !((custom_timeout && peer_timeout > 0)
                || self.period is None) ==> self.period->0 * 2 <= u64::MAX,
        ensures
            r == spec_still_valid(*self, now, peer_timeout, custom_timeout),
    {
        if self.con_type == PeerType::Static {
            return true;
        }
        match self.period {
            Some(period) => {
                if custom_timeout && peer_timeout > 0 {
                    now - self.last_contact < peer_timeout
                } else {
                    now - self.last_contact < period * 2
                }
            },
            None => now - self.last_contact < peer_timeout,
        }
    }

    /// The peer's address.
    pub fn addr(&self) -> (r: &PeerAddress)
        ensures
            *r == self.addr,
    {
        &self.addr
    }

    /// A sender through the peer's first agent, if it has any.
    pub fn first_cla(&self) -> (r: Option<ClaSender>)
        ensures
            match r {
                None => self.cla_list@.len() == 0,
                Some(s) => self.cla_list@.len() > 0 && s.remote == self.addr && s.agent
                    == self.cla_list@[0].0 && s.port == self.cla_list@[0].1,
            },
    {
        if self.cla_list.len() > 0 {
            let (agent, port) = self.cla_list[0];
            Some(ClaSender { remote: self.addr.clone(), port, agent })
        } else {
            None
        }
    }
}

} // verus!
