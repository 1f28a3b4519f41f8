//! The external routing interface: the node tells a routing agent what
//! happens to bundles and peers, and asks it where bundles should go.
use vstd::prelude::*;
use crate::bp::eid::EndpointID;
use crate::node::bundlepack::BundlePack;
use crate::node::peer::{ClaSender, DtnPeer};

verus! {

/// A whole bundle, as the `bp7` crate holds it; carried through unread.
#[verifier::external_type_specification]
#[verifier::external_body]
pub struct ExBundle(bp7::Bundle);

/// Asks where the bundle `bp` should go, given the node's agents.
pub struct SendForBundlePacket {
    pub clas: Vec<String>,
    pub bp: BundlePack,
}

/// The agents a bundle should go through.
pub struct SendForBundleResponsePacket {
    pub clas: Vec<ClaSender>,
}

/// Sending the bundle `b` to the node `a` failed.
pub struct SendingFailedPacket {
    pub a: String,
    pub b: String,
}

/// A bundle arrived.
pub struct IncomingBundlePacket {
    pub bndl: bp7::Bundle,
}

/// A bundle arrived from a node that did not name itself.
pub struct IncomingBundleWithoutPreviousNodePacket {
    pub a: String,
    pub b: String,
}

/// A peer was met.
pub struct EncounteredPeerPacket {
    pub eid: EndpointID,
    pub peer: DtnPeer,
}

/// A peer was lost.
pub struct DroppedPeerPacket {
    pub eid: EndpointID,
}

/// All peers, under their names.
pub struct PeerStatePacket {
    pub peers: Vec<(String, DtnPeer)>,
}

/// What the node and a routing agent send each other.
pub enum Packet {
    SendForBundlePacket(SendForBundlePacket),
    SendForBundleResponsePacket(SendForBundleResponsePacket),
    SendingFailedPacket(SendingFailedPacket),
    IncomingBundlePacket(IncomingBundlePacket),
    IncomingBundleWithoutPreviousNodePacket(IncomingBundleWithoutPreviousNodePacket),
    EncounteredPeerPacket(EncounteredPeerPacket),
    DroppedPeerPacket(DroppedPeerPacket),
    PeerStatePacket(PeerStatePacket),
}

/// What routing is told about.
pub enum RoutingNotifcation {
    /// Sending the bundle (second) to the node (first) failed.
    SendingFailed(String, String),
    /// A bundle arrived.
    IncomingBundle(bp7::Bundle),
    /// A bundle (first) arrived from a node that did not name itself.
    IncomingBundleWithoutPreviousNode(String, String),
    /// A peer was met.
    EncounteredPeer(EndpointID),
    /// A peer was lost.
    DroppedPeer(EndpointID),
}

/// The packet that tells a routing agent of `notification`. For a peer that
/// was met, `peer` is that peer as the node knows it, which must be given.
pub fn notify(notification: RoutingNotifcation, peer: Option<DtnPeer>) -> (r: Packet)
    requires
        notification is EncounteredPeer ==> peer is Some,
    ensures
        match notification {
            RoutingNotifcation::SendingFailed(a, b) => r matches Packet::SendingFailedPacket(p) && p.a
                == a && p.b == b,
            RoutingNotifcation::IncomingBundle(bndl) => r matches Packet::IncomingBundlePacket(p)
                && p.bndl == bndl,
            RoutingNotifcation::IncomingBundleWithoutPreviousNode(a, b) => r matches Packet::IncomingBundleWithoutPreviousNodePacket(
                p,
            ) && p.a == a && p.b == b,
            RoutingNotifcation::EncounteredPeer(eid) => r matches Packet::EncounteredPeerPacket(p)
                && p.eid == eid && peer == Some(p.peer),
            RoutingNotifcation::DroppedPeer(eid) => r matches Packet::DroppedPeerPacket(p) && p.eid
                == eid,
        },
{
    match notification {
        RoutingNotifcation::SendingFailed(a, b) => Packet::SendingFailedPacket(
            SendingFailedPacket { a, b },
        ),
        RoutingNotifcation::IncomingBundle(bndl) => Packet::IncomingBundlePacket(
            IncomingBundlePacket { bndl },
        ),
        RoutingNotifcation::IncomingBundleWithoutPreviousNode(a, b) => Packet::IncomingBundleWithoutPreviousNodePacket(
            IncomingBundleWithoutPreviousNodePacket { a, b },
        ),
        RoutingNotifcation::EncounteredPeer(eid) => {
            match peer {
                Some(p) => Packet::EncounteredPeerPacket(EncounteredPeerPacket { eid, peer: p }),
                None => {
                    assert(false);
                    Packet::DroppedPeerPacket(DroppedPeerPacket { eid })
                },
            }
        },
        RoutingNotifcation::DroppedPeer(eid) => Packet::DroppedPeerPacket(DroppedPeerPacket { eid }),
    }
}

/// Whether a routing agent that connects is taken: only where the node is
/// configured for external routing, and only while no other agent is
/// connected.
pub fn accepts_routing_agent(routing: &str, agent_connected: bool) -> (r: bool)
    ensures
        r == (routing@ == "external"@ && !agent_connected),
{
    let external = routing.to_owned() == "external".to_owned();
    external && !agent_connected
}

/// The question to a routing agent where `bp` should go, naming the node's
/// agents `clas`.
pub fn sender_for_bundle_request(clas: Vec<String>, bp: BundlePack) -> (r: Packet)
    ensures
        r matches Packet::SendForBundlePacket(p) && p.clas == clas && p.bp == bp,
{
    Packet::SendForBundlePacket(SendForBundlePacket { clas, bp })
}

} // verus!
