use std::collections::HashMap;

use dtn7::bp::bundle::{BLOCK_DELETE_BUNDLE, BLOCK_REMOVE, BLOCK_STATUS_REPORT, BUNDLE_STATUS_REQUEST_FORWARD, BUNDLE_STATUS_REQUEST_RECEPTION};
use dtn7::bp::canonical::{new_canonical_block, new_payload_block, CanonicalData};
use dtn7::bp::eid::EndpointID;
use dtn7::cla::ConvergenceLayerAgents;
use dtn7::node::bundlepack::{BundlePack, Constraint};
use dtn7::node::peer::{DtnPeer, IpAddress, PeerAddress, PeerType};
use dtn7::node::processing::{
    forward_outcome, forwarding_report_due, reception_report_due, unknown_block_decision,
    updated_bundle_age, ForwardOutcome,
};
use dtn7::node::store::{bundle_stores, new, BundleStoresEnum, InMemoryBundleStore, StoreError};
use dtn7::node::{process_bundles, process_peers, DtnStatistics};

fn pack(id: &str, constraints: Vec<Constraint>) -> BundlePack {
    BundlePack {
        source: EndpointID::with_dtn("src".to_string()),
        destination: EndpointID::with_dtn("dst".to_string()),
        received_time: 1,
        creation_time: 2,
        id: id.to_string(),
        administrative: false,
        size: 10,
        constraints,
    }
}

fn peer(con_type: PeerType, period: Option<u64>, last_contact: u64) -> DtnPeer {
    DtnPeer::new(
        EndpointID::with_dtn("peer".to_string()),
        PeerAddress::Ip(IpAddress::V4([10, 0, 0, 1])),
        con_type,
        period,
        vec![(ConvergenceLayerAgents::MtcpConvergenceLayer, Some(16162))],
        HashMap::new(),
        last_contact,
    )
}

#[test]
fn statistics_start_at_zero() {
    let s = DtnStatistics::new();
    assert_eq!((s.incoming, s.dups, s.outgoing, s.delivered, s.broken), (0, 0, 0, 0, 0));
}

#[test]
fn constraints() {
    let mut bp = pack("b1", vec![]);
    assert!(!bp.has_constraints());
    bp.add_constraint(Constraint::ForwardPending);
    bp.add_constraint(Constraint::ForwardPending);
    assert_eq!(bp.constraints, vec![Constraint::ForwardPending]);
    assert!(bp.has_constraint(Constraint::ForwardPending));
    assert!(bp.has_constraints());
    bp.add_constraint(Constraint::LocalEndpoint);
    bp.remove_constraint(Constraint::ForwardPending);
    assert!(!bp.has_constraint(Constraint::ForwardPending));
    assert!(bp.has_constraint(Constraint::LocalEndpoint));
    bp.add_constraint(Constraint::Deleted);
    bp.clear_constraints();
    assert_eq!(bp.constraints, vec![Constraint::LocalEndpoint]);
    bp.remove_constraint(Constraint::LocalEndpoint);
    bp.add_constraint(Constraint::Contraindicated);
    bp.clear_constraints();
    assert!(!bp.has_constraints());
    bp.set_constraints(vec![Constraint::DispatchPending]);
    assert!(bp.has_constraint(Constraint::DispatchPending));
}

#[test]
fn receiver_and_id() {
    let mut bp = pack("b2", vec![]);
    assert_eq!(bp.id(), "b2");
    assert!(bp.has_receiver());
    bp.destination = EndpointID::with_dtn_none();
    assert!(!bp.has_receiver());
}

#[test]
fn store_reads_back_what_was_pushed() {
    let mut s = InMemoryBundleStore::new();
    assert_eq!(s.count(), 0);
    let a = pack("a", vec![Constraint::ForwardPending]);
    assert_eq!(s.push(&a), Ok(()));
    assert_eq!(s.push(&a), Err(StoreError::AlreadyStored));
    assert_eq!(s.count(), 1);
    assert!(s.has_item("a"));
    assert!(!s.has_item("b"));
    let got = s.get("a").unwrap();
    assert_eq!(got.id, "a");
    assert_eq!(got.constraints, vec![Constraint::ForwardPending]);
    assert!(s.get("b").is_none());
}

#[test]
fn store_update_and_remove() {
    let mut s = InMemoryBundleStore::new();
    assert_eq!(s.update(&pack("a", vec![])), Err(StoreError::NotStored));
    assert_eq!(s.count(), 0);
    s.push(&pack("a", vec![])).unwrap();
    s.push(&pack("b", vec![])).unwrap();
    assert_eq!(s.update(&pack("a", vec![Constraint::Deleted])), Ok(()));
    assert_eq!(s.get("a").unwrap().constraints, vec![Constraint::Deleted]);
    let removed = s.remove("a").unwrap();
    assert_eq!(removed.constraints, vec![Constraint::Deleted]);
    assert!(!s.has_item("a"));
    assert!(s.has_item("b"));
    assert!(s.remove("a").is_none());
    assert_eq!(s.count(), 1);
    assert_eq!(StoreError::AlreadyStored.message(), "Bundle already in store!");
    assert_eq!(StoreError::NotStored.message(), "Bundle not in store!");
}

#[test]
fn store_listings() {
    let mut s = InMemoryBundleStore::new();
    s.push(&pack("fwd", vec![Constraint::ForwardPending])).unwrap();
    s.push(&pack("contra", vec![Constraint::Contraindicated])).unwrap();
    s.push(&pack("frag", vec![Constraint::ForwardPending, Constraint::ReassemblyPending])).unwrap();
    s.push(&pack("local", vec![Constraint::LocalEndpoint])).unwrap();
    let mut ids = s.all_ids();
    ids.sort();
    assert_eq!(ids, vec!["contra", "frag", "fwd", "local"]);
    let mut pending = s.pending();
    pending.sort();
    assert_eq!(pending, vec!["contra", "fwd"]);
    let mut ready = s.ready();
    ready.sort();
    assert_eq!(ready, vec!["fwd", "local"]);
    let mut forwarding = s.forwarding();
    forwarding.sort();
    assert_eq!(forwarding, vec!["frag", "fwd"]);
    let mut again = process_bundles(&s);
    again.sort();
    assert_eq!(again, forwarding);
    assert_eq!(s.bundles().len(), 4);
}

#[test]
fn store_kinds() {
    assert_eq!(bundle_stores(), vec!["mem", "sled", "sneakers"]);
    match new("mem") {
        Some(BundleStoresEnum::InMemoryBundleStore(s)) => assert_eq!(s.count(), 0),
        None => panic!("no store in memory"),
    }
    assert!(new("sled").is_none());
    assert!(new("sneakers").is_none());
}

#[test]
fn peer_validity() {
    let p = peer(PeerType::Static, None, 0);
    assert!(p.still_valid(1_000_000, 20, false));
    let d = peer(PeerType::Dynamic, None, 100);
    assert!(d.still_valid(119, 20, false));
    assert!(!d.still_valid(120, 20, false));
    let b = peer(PeerType::Dynamic, Some(10), 100);
    assert!(b.still_valid(119, 5, false));
    assert!(!b.still_valid(120, 500, false));
    assert!(!b.still_valid(106, 5, true));
    assert!(b.still_valid(119, 0, true));
}

#[test]
fn peer_touch_and_first_cla() {
    let mut p = peer(PeerType::Dynamic, None, 5);
    p.touch(42);
    assert_eq!(p.last_contact, 42);
    let sender = p.first_cla().unwrap();
    assert_eq!(sender.agent, ConvergenceLayerAgents::MtcpConvergenceLayer);
    assert_eq!(sender.port, Some(16162));
    assert_eq!(sender.remote, PeerAddress::Ip(IpAddress::V4([10, 0, 0, 1])));
    assert_eq!(p.addr(), &PeerAddress::Ip(IpAddress::V4([10, 0, 0, 1])));
    p.cla_list.clear();
    assert!(p.first_cla().is_none());
}

#[test]
fn peers_cleanup_keeps_static_and_valid() {
    let mut peers = vec![
        ("static".to_string(), peer(PeerType::Static, None, 0)),
        ("stale".to_string(), peer(PeerType::Dynamic, None, 0)),
        ("fresh".to_string(), peer(PeerType::Dynamic, None, 95)),
        ("beacon".to_string(), peer(PeerType::Dynamic, Some(40), 0)),
        ("announced".to_string(), peer(PeerType::Dynamic, Some(60), 0)),
    ];
    process_peers(&mut peers, 100, 20, false);
    let names: Vec<&str> = peers.iter().map(|(n, _)| n.as_str()).collect();
    assert_eq!(names, vec!["static", "fresh", "announced"]);
}

#[test]
fn unknown_blocks() {
    let blocks = vec![
        new_payload_block(0, vec![1]),
        new_canonical_block(20, 2, BLOCK_REMOVE | BLOCK_STATUS_REPORT, CanonicalData::Data(vec![])),
        new_canonical_block(21, 3, 0, CanonicalData::Data(vec![])),
        new_canonical_block(22, 4, BLOCK_REMOVE, CanonicalData::Data(vec![])),
    ];
    let d = unknown_block_decision(&blocks, true);
    assert_eq!(d.reports, 1);
    assert!(!d.delete);
    assert_eq!(d.remove, vec![0, 2]);
    let d = unknown_block_decision(&blocks, false);
    assert_eq!(d.reports, 0);
    let deleting = vec![
        new_canonical_block(30, 2, BLOCK_DELETE_BUNDLE | BLOCK_STATUS_REPORT, CanonicalData::Data(vec![])),
        new_canonical_block(31, 3, BLOCK_REMOVE | BLOCK_STATUS_REPORT, CanonicalData::Data(vec![])),
    ];
    let d = unknown_block_decision(&deleting, true);
    assert_eq!(d.reports, 1);
    assert!(d.delete);
    assert!(d.remove.is_empty());
}

#[test]
fn reports_and_outcomes() {
    assert!(reception_report_due(BUNDLE_STATUS_REQUEST_RECEPTION, false, true));
    assert!(!reception_report_due(BUNDLE_STATUS_REQUEST_RECEPTION, true, true));
    assert!(!reception_report_due(BUNDLE_STATUS_REQUEST_FORWARD, false, true));
    assert!(forwarding_report_due(BUNDLE_STATUS_REQUEST_FORWARD, false, true));
    assert!(!forwarding_report_due(BUNDLE_STATUS_REQUEST_FORWARD, false, false));
    assert_eq!(updated_bundle_age(1000, 5000, 4000), Some(2000));
    assert_eq!(updated_bundle_age(0, 4000, 4000), None);
    assert_eq!(forward_outcome(false, false, true, false), ForwardOutcome::NoPeers);
    assert_eq!(forward_outcome(true, true, true, false), ForwardOutcome::Remove);
    assert_eq!(forward_outcome(true, true, false, true), ForwardOutcome::InspectAndContraindicate);
    assert_eq!(forward_outcome(true, true, false, false), ForwardOutcome::Keep);
    assert_eq!(forward_outcome(true, false, true, false), ForwardOutcome::Contraindicate);
}

use dtn7::node::application_agent::{DtnCore, SimpleApplicationAgent};

fn bundle(payload: &[u8]) -> bp7::Bundle {
    bp7::bundle::new_std_payload_bundle(
        bp7::EndpointID::with_dtn("node1/src").unwrap(),
        bp7::EndpointID::with_dtn("node2/dst").unwrap(),
        payload.to_vec(),
    )
}

#[test]
fn agent_queues_until_connected() {
    let (one, two, three) = (bundle(b"one"), bundle(b"two"), bundle(b"three"));
    let mut aa: SimpleApplicationAgent<u32> =
        SimpleApplicationAgent::with(EndpointID::with_dtn("node1/in".to_string()));
    assert_eq!(aa.eid(), &EndpointID::with_dtn("node1/in".to_string()));
    assert!(aa.push(one.clone()).is_none());
    assert!(aa.push(two.clone()).is_none());
    assert_eq!(aa.pop(), Some(one));
    aa.set_delivery_addr(7);
    assert_eq!(aa.delivery_addr(), Some(&7));
    assert_eq!(aa.push(three.clone()), Some(three));
    aa.clear_delivery_addr();
    assert_eq!(aa.delivery_addr(), None);
    assert_eq!(aa.pop(), Some(two));
    assert_eq!(aa.pop(), None);
}

#[test]
fn core_registry() {
    let mut core: DtnCore<u32> = DtnCore::new();
    let a = EndpointID::with_dtn("node1/a".to_string());
    let b = EndpointID::with_dtn("node1/b".to_string());
    assert!(!core.is_in_endpoints(&a));
    core.register_application_agent(SimpleApplicationAgent::with(a.clone()));
    core.register_application_agent(SimpleApplicationAgent::with(b.clone()));
    assert!(core.is_in_endpoints(&a));
    assert_eq!(core.get_endpoint(&b).unwrap().eid(), &b);
    assert_eq!(core.eids(), vec!["dtn://node1/a", "dtn://node1/b"]);
    core.unregister_application_agent(&a);
    assert!(!core.is_in_endpoints(&a));
    assert!(core.get_endpoint(&a).is_none());
    assert_eq!(core.eids(), vec!["dtn://node1/b"]);
}

use dtn7::bp::eid::IpnAddress;
use dtn7::node::processing::{
    mark_contraindicated, mark_deleted, mark_for_forwarding, mark_for_transmission,
    mark_locally_delivered, status_report_allowed, status_report_drops_bundle,
};
use dtn7::node::peers::{
    is_local_node_id, node_name, peer_address_eq, peer_find_by_remote, peers_add,
    peers_clear, peers_cla_for_node, peers_count, peers_get_for_node,
};

fn named_peer(eid: &str, addr: [u8; 4]) -> DtnPeer {
    DtnPeer::new(
        EndpointID::with_dtn(eid.to_string()),
        PeerAddress::Ip(IpAddress::V4(addr)),
        PeerType::Dynamic,
        None,
        vec![(ConvergenceLayerAgents::TcpConvergenceLayer, Some(4556))],
        HashMap::new(),
        1,
    )
}

#[test]
fn node_names() {
    assert_eq!(node_name(&EndpointID::with_dtn("node1/incoming".to_string())), Some("node1".to_string()));
    assert_eq!(node_name(&EndpointID::with_dtn("node2".to_string())), Some("node2".to_string()));
    assert_eq!(node_name(&EndpointID::with_ipn(IpnAddress(23, 42))), Some("23".to_string()));
    assert_eq!(node_name(&EndpointID::with_dtn_none()), None);
    assert!(is_local_node_id(
        &EndpointID::with_dtn("node1/in".to_string()),
        &EndpointID::with_dtn("node1".to_string())
    ));
    assert!(!is_local_node_id(
        &EndpointID::with_dtn("node2/in".to_string()),
        &EndpointID::with_dtn("node1".to_string())
    ));
    assert!(!is_local_node_id(
        &EndpointID::with_ipn(IpnAddress(1, 1)),
        &EndpointID::with_dtn("1".to_string())
    ));
}

#[test]
fn peer_table() {
    let mut peers: Vec<(String, DtnPeer)> = Vec::new();
    peers_add(&mut peers, named_peer("node1/a", [10, 0, 0, 1]));
    peers_add(&mut peers, named_peer("node2", [10, 0, 0, 2]));
    peers_add(&mut peers, named_peer("node1/b", [10, 0, 0, 3]));
    assert_eq!(peers.len(), 2);
    assert_eq!(peers[0].0, "node1");
    assert_eq!(peers[0].1.addr, PeerAddress::Ip(IpAddress::V4([10, 0, 0, 3])));
    let found = peers_get_for_node(&peers, &EndpointID::with_dtn("node2/x".to_string())).unwrap();
    assert_eq!(found.addr, PeerAddress::Ip(IpAddress::V4([10, 0, 0, 2])));
    assert!(peers_get_for_node(&peers, &EndpointID::with_dtn("node9".to_string())).is_none());
    let sender = peers_cla_for_node(&peers, &EndpointID::with_dtn("node1".to_string())).unwrap();
    assert_eq!(sender.agent, ConvergenceLayerAgents::TcpConvergenceLayer);
    assert_eq!(sender.port, Some(4556));
    assert_eq!(
        peer_find_by_remote(&peers, &PeerAddress::Ip(IpAddress::V4([10, 0, 0, 2]))),
        Some("node2".to_string())
    );
    assert_eq!(peer_find_by_remote(&peers, &PeerAddress::Generic("lora:1".to_string())), None);
    assert!(peer_address_eq(
        &PeerAddress::Generic("x".to_string()),
        &PeerAddress::Generic("x".to_string())
    ));
    assert!(!peer_address_eq(
        &PeerAddress::Ip(IpAddress::V6([0; 16])),
        &PeerAddress::Ip(IpAddress::V4([0; 4]))
    ));
}

#[test]
fn bundle_lifecycle() {
    let mut bp = pack("life", vec![]);
    mark_for_transmission(&mut bp);
    assert!(bp.has_constraint(Constraint::DispatchPending));
    mark_for_forwarding(&mut bp);
    assert!(bp.has_constraint(Constraint::ForwardPending));
    assert!(!bp.has_constraint(Constraint::DispatchPending));
    mark_contraindicated(&mut bp);
    assert!(bp.has_constraint(Constraint::Contraindicated));
    let mut local = bp.clone();
    mark_locally_delivered(&mut local, true);
    assert_eq!(local.constraints, vec![Constraint::LocalEndpoint]);
    let mut transit = bp.clone();
    mark_locally_delivered(&mut transit, false);
    assert!(transit.has_constraint(Constraint::LocalEndpoint));
    assert!(transit.has_constraint(Constraint::ForwardPending));
    mark_deleted(&mut bp);
    assert!(!bp.has_constraints());
    assert!(status_report_allowed(0, false));
    assert!(!status_report_allowed(dtn7::bp::bundle::BUNDLE_ADMINISTRATIVE_RECORD_PAYLOAD, false));
    assert!(!status_report_allowed(0, true));
    assert!(status_report_drops_bundle(4, true));
    assert!(!status_report_drops_bundle(4, false));
    assert!(!status_report_drops_bundle(3, true));
    assert!(!status_report_drops_bundle(0, true));
}

use dtn7::node::processing::{dispatch_targets, transmission_source_accepted, DispatchTargets};

#[test]
fn transmission_sources_and_dispatch() {
    let mut core: DtnCore<u32> = DtnCore::new();
    let local = EndpointID::with_dtn("node1/app".to_string());
    let stranger = EndpointID::with_dtn("node9/app".to_string());
    assert!(transmission_source_accepted(&core, &EndpointID::new()));
    assert!(!transmission_source_accepted(&core, &local));
    core.register_application_agent(SimpleApplicationAgent::with(local.clone()));
    assert!(transmission_source_accepted(&core, &local));
    assert!(!transmission_source_accepted(&core, &stranger));
    let host = EndpointID::with_dtn("node1".to_string());
    assert_eq!(
        dispatch_targets(&core, &local, &host),
        DispatchTargets { local_delivery: true, forward: false }
    );
    assert_eq!(
        dispatch_targets(&core, &stranger, &host),
        DispatchTargets { local_delivery: false, forward: true }
    );
    assert_eq!(
        dispatch_targets(&core, &EndpointID::with_dtn("node1/other".to_string()), &host),
        DispatchTargets { local_delivery: false, forward: false }
    );
}

#[test]
fn peer_table_count_and_clear() {
    let mut peers: Vec<(String, DtnPeer)> = Vec::new();
    assert_eq!(peers_count(&peers), 0);
    peers_add(&mut peers, named_peer("node1/x", [10, 0, 0, 1]));
    peers_add(&mut peers, named_peer("node2/y", [10, 0, 0, 2]));
    peers_add(&mut peers, named_peer("node1/z", [10, 0, 0, 3]));
    assert_eq!(peers_count(&peers), 2);
    peers_clear(&mut peers);
    assert_eq!(peers_count(&peers), 0);
    assert!(peers_get_for_node(&peers, &EndpointID::with_dtn("node1/x".to_string())).is_none());
}

use dtn7::node::helpers::{parse_ipv4, parse_peer_url};

#[test]
fn static_peer_urls() {
    // The documented example.
    let p = parse_peer_url("mtcp://192.168.2.1:2342/node1", 7).unwrap();
    assert_eq!(p.eid, EndpointID::try_from("dtn://node1".to_string()).unwrap());
    assert!(peer_address_eq(&p.addr, &PeerAddress::Ip(IpAddress::V4([192, 168, 2, 1]))));
    assert_eq!(p.con_type, PeerType::Static);
    assert_eq!(p.period, None);
    assert_eq!(p.cla_list, vec![(ConvergenceLayerAgents::MtcpConvergenceLayer, Some(2342))]);
    assert!(p.services.is_empty());
    assert_eq!(p.last_contact, 7);
    // An unknown agent and a missing node id are refused.
    assert!(parse_peer_url("nosuchcla://192.168.2.1/node1", 0).is_none());
    assert!(parse_peer_url("mtcp://192.168.2.1", 0).is_none());
    assert!(parse_peer_url("mtcp://192.168.2.1/", 0).is_none());
    // The host must be an address.
    assert!(parse_peer_url("tcp://example.org/node1", 0).is_none());
    assert!(parse_peer_url("tcp://[::1]:4556/node1", 0).is_none());
    assert!(parse_peer_url("not a url", 0).is_none());
    // Slashes of the path are dropped; a default port of the scheme is not reported.
    let p = parse_peer_url("tcp://10.0.0.3/a/b", 0).unwrap();
    assert_eq!(p.eid, EndpointID::with_dtn("ab".to_string()));
    assert_eq!(p.cla_list, vec![(ConvergenceLayerAgents::TcpConvergenceLayer, None)]);
    let p = parse_peer_url("http://10.0.0.3:80/n", 0).unwrap();
    assert_eq!(p.cla_list, vec![(ConvergenceLayerAgents::HttpConvergenceLayer, None)]);
}

#[test]
fn ipv4_texts() {
    assert_eq!(parse_ipv4("192.168.2.1"), Some([192, 168, 2, 1]));
    assert_eq!(parse_ipv4("0.0.0.0"), Some([0, 0, 0, 0]));
    assert_eq!(parse_ipv4("255.255.255.255"), Some([255, 255, 255, 255]));
    assert_eq!(parse_ipv4("256.1.1.1"), None);
    assert_eq!(parse_ipv4("01.1.1.1"), None);
    assert_eq!(parse_ipv4("1.1.1"), None);
    assert_eq!(parse_ipv4("1.1.1.1.1"), None);
    assert_eq!(parse_ipv4("1..1.1"), None);
    assert_eq!(parse_ipv4("1.1.1.x"), None);
    assert_eq!(parse_ipv4("1000.1.1.1"), None);
    assert_eq!(parse_ipv4("::1"), None);
}

use dtn7::node::steps::{
    forward_step, receive_step, DeleteReason, ForwardAction, ForwardEvent, ForwardState,
    ReceiveAction, ReceiveEvent, ReceiveState,
};

#[test]
fn forwarding_steps() {
    let mut s = ForwardState::Start;
    let mut actions = Vec::new();
    for e in [
        ForwardEvent::Begin,
        ForwardEvent::Lifetime(false),
        ForwardEvent::Peers(true, true),
        ForwardEvent::HopCount(false),
        ForwardEvent::PreviousNodeUpdated,
        ForwardEvent::Age(false),
        ForwardEvent::Sent(true, false),
    ] {
        let (n, a) = forward_step(s, e);
        s = n;
        actions.push(a);
    }
    assert_eq!(
        actions,
        vec![
            ForwardAction::MarkAndCheckLifetime,
            ForwardAction::FindPeers,
            ForwardAction::IncreaseHopCount,
            ForwardAction::UpdatePreviousNode,
            ForwardAction::UpdateAge,
            ForwardAction::Send,
            ForwardAction::Finish(ForwardOutcome::Remove),
        ]
    );
    assert_eq!(s, ForwardState::Done);
    assert_eq!(forward_step(s, ForwardEvent::Begin), (ForwardState::Done, ForwardAction::Ignore));
    assert_eq!(
        forward_step(ForwardState::AwaitLifetime, ForwardEvent::Lifetime(true)),
        (ForwardState::Done, ForwardAction::Delete(DeleteReason::LifetimeExpired))
    );
    assert_eq!(
        forward_step(ForwardState::AwaitLifetime, ForwardEvent::BundleMissing),
        (ForwardState::Done, ForwardAction::Fail)
    );
    assert_eq!(
        forward_step(ForwardState::AwaitPeers, ForwardEvent::Peers(false, true)),
        (ForwardState::Done, ForwardAction::Finish(ForwardOutcome::NoPeers))
    );
    assert_eq!(
        forward_step(ForwardState::AwaitHopCount(false), ForwardEvent::HopCount(true)),
        (ForwardState::Done, ForwardAction::Delete(DeleteReason::HopLimitExceeded))
    );
    assert_eq!(
        forward_step(ForwardState::AwaitAge(false), ForwardEvent::Age(true)),
        (ForwardState::Done, ForwardAction::Delete(DeleteReason::LifetimeExpired))
    );
    assert_eq!(
        forward_step(ForwardState::AwaitSending(false), ForwardEvent::Sent(false, false)),
        (ForwardState::Done, ForwardAction::Finish(ForwardOutcome::Contraindicate))
    );
}

#[test]
fn receiving_steps() {
    assert_eq!(
        receive_step(ReceiveState::Start, ReceiveEvent::Received(true)),
        (ReceiveState::Done, ReceiveAction::SkipDuplicate)
    );
    let (s, a) = receive_step(ReceiveState::Start, ReceiveEvent::Received(false));
    assert_eq!((s, a), (ReceiveState::AwaitStored, ReceiveAction::StoreAndMark));
    let (s, a) = receive_step(s, ReceiveEvent::Stored(BUNDLE_STATUS_REQUEST_RECEPTION, false, true));
    assert_eq!((s, a), (ReceiveState::AwaitScan, ReceiveAction::ScanBlocks(true)));
    assert_eq!(
        receive_step(ReceiveState::AwaitStored, ReceiveEvent::Stored(BUNDLE_STATUS_REQUEST_RECEPTION, true, true)).1,
        ReceiveAction::ScanBlocks(false)
    );
    assert_eq!(
        receive_step(s, ReceiveEvent::Scanned(1, true)),
        (ReceiveState::Done, ReceiveAction::ReportAndDelete(1, DeleteReason::BlockUnintelligible))
    );
    let (s, a) = receive_step(s, ReceiveEvent::Scanned(2, false));
    assert_eq!((s, a), (ReceiveState::AwaitStoredAgain, ReceiveAction::ReportAndRemoveBlocks(2)));
    assert_eq!(receive_step(s, ReceiveEvent::StoredAgain), (ReceiveState::Done, ReceiveAction::Dispatch));
    assert_eq!(receive_step(s, ReceiveEvent::StoreFailed), (ReceiveState::Done, ReceiveAction::Fail));
    assert_eq!(
        receive_step(ReceiveState::AwaitScan, ReceiveEvent::StoredAgain),
        (ReceiveState::AwaitScan, ReceiveAction::Ignore)
    );
}
