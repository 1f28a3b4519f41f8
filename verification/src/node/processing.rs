//! The decisions of bundle processing: what to do with unknown extension
//! blocks of a received bundle, when status reports are due, how a bundle's
//! age grows, where a bundle is dispatched, and what becomes of a bundle
//! after a forwarding attempt.
use vstd::prelude::*;
use crate::bp::bundle::{
    BlockControlFlags, BundleControlFlags, BLOCK_DELETE_BUNDLE, BLOCK_REMOVE, BLOCK_STATUS_REPORT,
    BUNDLE_STATUS_REQUEST_FORWARD, BUNDLE_STATUS_REQUEST_RECEPTION,
};
use crate::bp::canonical::CanonicalBlock;
use crate::bp::eid::{EndpointID, EidView, eid_eq, ENDPOINT_URI_SCHEME_DTN};
use super::application_agent::{DtnCore, first_agent};
use super::bundlepack::{BundlePack, Constraint};
use super::peers::{is_local_node_id, node_key};

verus! {

/// Block types below this are ones the node knows.
pub const FIRST_UNKNOWN_BLOCK_TYPE: u64 = 11;

/// Where the scan of a received bundle's blocks stands: the reports it
/// asked for so far, whether a block demanded the bundle's deletion, the
/// positions to remove, and the running position among unknown blocks.
pub struct BlockScan {
    pub reports: nat,
    pub delete: bool,
    pub remove: Seq<usize>,
    pub index: nat,
}

/// The scan of the first `i` blocks. A known block is passed over. An
/// unknown block asks for a status report if its flags say so and reports
/// are generated; it ends the scan with deletion if its flags demand it;
/// otherwise it is marked for removal if its flags say so, under the count
/// of unknown blocks before it.
pub open spec fn scan_blocks(types: Seq<u64>, flags: Seq<BlockControlFlags>, generate_reports: bool, i: nat) -> BlockScan
    decreases i,
{
    if i == 0 {
        BlockScan { reports: 0, delete: false, remove: Seq::empty(), index: 0 }
    } else {
        let s = scan_blocks(types, flags, generate_reports, (i - 1) as nat);
        let t = types[i - 1];
        let f = flags[i - 1];
        if s.delete || t < FIRST_UNKNOWN_BLOCK_TYPE {
            s
        } else {
            let reports = if f & BLOCK_STATUS_REPORT != 0 && generate_reports {
                s.reports + 1
            } else {
                s.reports
            };
            if f & BLOCK_DELETE_BUNDLE != 0 {
                BlockScan { reports, delete: true, remove: s.remove, index: s.index }
            } else {
                BlockScan {
                    reports,
                    delete: false,
                    remove: if f & BLOCK_REMOVE != 0 {
                        s.remove.push(s.index as usize)
                    } else {
                        s.remove
                    },
                    index: s.index + 1,
                }
            }
        }
    }
}

pub open spec fn block_types(blocks: Seq<CanonicalBlock>) -> Seq<u64> {
    blocks.map_values(|b: CanonicalBlock| b.block_type)
}

pub open spec fn block_flags(blocks: Seq<CanonicalBlock>) -> Seq<BlockControlFlags> {
    blocks.map_values(|b: CanonicalBlock| b.block_control_flags)
}

/// What a received bundle's unknown blocks ask for.
#[derive(Debug)]
pub struct BlockDecision {
    /// How many "block unintelligible" status reports to send.
    pub reports: usize,
    /// Whether to delete the bundle.
    pub delete: bool,
    /// The positions to remove, in order.
    pub remove: Vec<usize>,
}

/// Scans the blocks of a received bundle as the node does; `generate_reports`
/// is whether the node sends status reports.
pub fn unknown_block_decision(blocks: &Vec<CanonicalBlock>, generate_reports: bool) -> (r: BlockDecision)
    ensures
        r.reports == scan_blocks(block_types(blocks@), block_flags(blocks@), generate_reports, blocks@.len()).reports,
        r.delete == scan_blocks(block_types(blocks@), block_flags(blocks@), generate_reports, blocks@.len()).delete,
        r.remove@ == scan_blocks(block_types(blocks@), block_flags(blocks@), generate_reports, blocks@.len()).remove,
{
    let ghost types = block_types(blocks@);
    let ghost flags = block_flags(blocks@);
    let mut reports: usize = 0;
    let mut delete = false;
    let mut remove: Vec<usize> = Vec::new();
    let mut index: usize = 0;
    let mut i: usize = 0;
    while i < blocks.len()
        invariant
            0 <= i <= blocks@.len(),
            types == block_types(blocks@),
            flags == block_flags(blocks@),
            reports <= i,
            index <= i,
            reports == scan_blocks(types, flags, generate_reports, i as nat).reports,
            delete == scan_blocks(types, flags, generate_reports, i as nat).delete,
            remove@ == scan_blocks(types, flags, generate_reports, i as nat).remove,
            index == scan_blocks(types, flags, generate_reports, i as nat).index,
        decreases blocks@.len() - i,
    {
        let t = blocks[i].block_type;
        let f = blocks[i].block_control_flags;
        assert(types[i as int] == t);
        assert(flags[i as int] == f);
        if !delete && t >= FIRST_UNKNOWN_BLOCK_TYPE {
            if f & BLOCK_STATUS_REPORT != 0 && generate_reports {
                reports = reports + 1;
            }
            if f & BLOCK_DELETE_BUNDLE != 0 {
                delete = true;
            } else {
                if f & BLOCK_REMOVE != 0 {
                    remove.push(index);
                }
                index = index + 1;
            }
        }
        i = i + 1;
    }
    BlockDecision { reports, delete, remove }
}

/// How the scan answers one more block. A block after one that demanded the
/// bundle's deletion, or a block of a known type, changes nothing. An
/// unknown block before any deletion adds one report exactly when it asks
/// for one and the node generates reports, whatever else its flags say; it
/// ends the scan with deletion exactly when it demands deletion.
pub proof fn law_unknown_block_step(types: Seq<u64>, flags: Seq<BlockControlFlags>, generate_reports: bool, i: nat)
    ensures
        ({
            let before = scan_blocks(types, flags, generate_reports, i);
            let after = scan_blocks(types, flags, generate_reports, i + 1);
            &&& (before.delete || types[i as int] < FIRST_UNKNOWN_BLOCK_TYPE) ==> after == before
            &&& (!before.delete && types[i as int] >= FIRST_UNKNOWN_BLOCK_TYPE) ==> {
                &&& after.reports == before.reports + if generate_reports && flags[i as int]
                    & BLOCK_STATUS_REPORT != 0 {
                    1nat
                } else {
                    0nat
                }
                &&& after.delete == (flags[i as int] & BLOCK_DELETE_BUNDLE != 0)
            }
        }),
{
}

/// A node that generates no status reports sends none for unknown blocks,
/// and once a block has demanded deletion, no later block adds a report or
/// a removal.
pub proof fn law_unknown_block_reports_bounded(types: Seq<u64>, flags: Seq<BlockControlFlags>, generate_reports: bool, i: nat, j: nat)
    requires
        i <= j,
    ensures
        !generate_reports ==> scan_blocks(types, flags, generate_reports, j).reports == 0,
        scan_blocks(types, flags, generate_reports, j).reports <= j,
        scan_blocks(types, flags, generate_reports, i).delete ==> scan_blocks(types, flags, generate_reports, j)
            == scan_blocks(types, flags, generate_reports, i),
    decreases j,
{
    if j > 0 {
        if i < j {
            law_unknown_block_reports_bounded(types, flags, generate_reports, i, (j - 1) as nat);
        } else {
            law_unknown_block_reports_bounded(types, flags, generate_reports, 0, (j - 1) as nat);
        }
    }
}

/// A bundle whose only unknown block asks for a status report gets exactly
/// one "block unintelligible" report from a node that generates reports,
/// whatever else the block's flags demand.
pub proof fn law_single_unknown_block_report(known: Seq<CanonicalBlock>, b: CanonicalBlock)
    requires
        forall|k: int| 0 <= k < known.len() ==> #[trigger] known[k].block_type < FIRST_UNKNOWN_BLOCK_TYPE,
        b.block_type >= FIRST_UNKNOWN_BLOCK_TYPE,
        b.block_control_flags & BLOCK_STATUS_REPORT != 0,
    ensures
        scan_blocks(
            block_types(known.push(b)),
            block_flags(known.push(b)),
            true,
            known.len() + 1,
        ).reports == 1,
{
    let all = known.push(b);
    let types = block_types(all);
    let flags = block_flags(all);
    assert forall|n: nat| n <= known.len() implies scan_blocks(types, flags, true, n).reports == 0
        && !scan_blocks(types, flags, true, n).delete by {
        lemma_known_prefix(types, flags, known.len(), n);
    }
    assert(types[known.len() as int] == b.block_type);
    assert(flags[known.len() as int] == b.block_control_flags);
    law_unknown_block_step(types, flags, true, known.len());
}

proof fn lemma_known_prefix(types: Seq<u64>, flags: Seq<BlockControlFlags>, m: nat, n: nat)
    requires
        n <= m,
        m <= types.len(),
        forall|k: int| 0 <= k < m ==> types[k] < FIRST_UNKNOWN_BLOCK_TYPE,
    ensures
        scan_blocks(types, flags, true, n).reports == 0,
        !scan_blocks(types, flags, true, n).delete,
    decreases n,
{
    if n > 0 {
        lemma_known_prefix(types, flags, m, (n - 1) as nat);
    }
}

/// Whether a status report is due for a bundle with the control flags
/// `flags` on the event that `request` asks about: the bundle asks for it,
/// is no administrative record, and the node generates reports.
pub open spec fn report_due(flags: BundleControlFlags, request: BundleControlFlags, administrative: bool, generate_reports: bool) -> bool {
    flags & request != 0 && !administrative && generate_reports
}

/// No status report is ever due for an administrative record, nor from a
/// node that generates none; otherwise one is due exactly when the bundle
/// asks for a report on that event.
pub proof fn law_report_due(flags: BundleControlFlags, request: BundleControlFlags, administrative: bool, generate_reports: bool)
    ensures
        administrative ==> !report_due(flags, request, administrative, generate_reports),
        !generate_reports ==> !report_due(flags, request, administrative, generate_reports),
        !administrative && generate_reports ==> (report_due(flags, request, administrative, generate_reports)
            <==> flags & request != 0),
{
}

/// Whether a reception report is due for a received bundle.
pub fn reception_report_due(flags: BundleControlFlags, administrative: bool, generate_reports: bool) -> (r: bool)
    ensures
        r == report_due(flags, BUNDLE_STATUS_REQUEST_RECEPTION, administrative, generate_reports),
{
    flags & BUNDLE_STATUS_REQUEST_RECEPTION != 0 && !administrative && generate_reports
}

/// Whether a forwarding report is due for a forwarded bundle.
pub fn forwarding_report_due(flags: BundleControlFlags, administrative: bool, generate_reports: bool) -> (r: bool)
    ensures
        r == report_due(flags, BUNDLE_STATUS_REQUEST_FORWARD, administrative, generate_reports),
{
    flags & BUNDLE_STATUS_REQUEST_FORWARD != 0 && !administrative && generate_reports
}

/// A bundle age block's new age (milliseconds): its age plus the time the
/// bundle has been held since it was received; none where that is zero.
pub fn updated_bundle_age(age: u64, now: u64, received_time: u64) -> (r: Option<u64>)
    requires
        received_time <= now,
        age + (now - received_time) <= u64::MAX,
    ensures
        r == if age + (now - received_time) != 0 {
            Some((age + (now - received_time)) as u64)
        } else {
            None::<u64>
        },
{
    let new_age = age + (now - received_time);
    if new_age != 0 {
        Some(new_age)
    } else {
        None
    }
}

/// What becomes of a bundle after a forwarding attempt.
#[derive(Debug, Clone, Copy, PartialEq, Eq, Structural)]
pub enum ForwardOutcome {
    /// No peer to forward to was found; the bundle stays as it is.
    NoPeers,
    /// It was sent, and routing says it can go: remove it from the store.
    Remove,
    /// It was sent and is kept; as an administrative record it is inspected
    /// and marked contraindicated.
    InspectAndContraindicate,
    /// It was sent and is kept as it is.
    Keep,
    /// No agent took it: mark it contraindicated.
    Contraindicate,
}

/// The outcome of a forwarding attempt.
pub open spec fn spec_forward_outcome(peers_found: bool, sent: bool, delete_afterwards: bool, administrative: bool) -> ForwardOutcome {
    if !peers_found {
        ForwardOutcome::NoPeers
    } else if sent {
        if delete_afterwards {
            ForwardOutcome::Remove
        } else if administrative {
            ForwardOutcome::InspectAndContraindicate
        } else {
            ForwardOutcome::Keep
        }
    } else {
        ForwardOutcome::Contraindicate
    }
}

/// Decides what becomes of a bundle after a forwarding attempt: whether any
/// peer was found, whether any agent took the bundle, whether routing lets
/// it go afterwards, and whether it is an administrative record.
pub fn forward_outcome(peers_found: bool, sent: bool, delete_afterwards: bool, administrative: bool) -> (r: ForwardOutcome)
    ensures
        r == spec_forward_outcome(peers_found, sent, delete_afterwards, administrative),
{
    if !peers_found {
        ForwardOutcome::NoPeers
    } else if sent {
        if delete_afterwards {
            ForwardOutcome::Remove
        } else if administrative {
            ForwardOutcome::InspectAndContraindicate
        } else {
            ForwardOutcome::Keep
        }
    } else {
        ForwardOutcome::Contraindicate
    }
}

/// What a forwarding attempt leaves: without peers the bundle stays as it
/// is; once sent, a bundle that routing lets go is removed, whether or not
/// it is an administrative record, and one that is kept is inspected and
/// marked contraindicated exactly when it is an administrative record; a
/// bundle that no agent took is marked contraindicated.
pub proof fn law_forward_outcome(peers_found: bool, sent: bool, delete_afterwards: bool, administrative: bool)
    ensures
        !peers_found ==> spec_forward_outcome(peers_found, sent, delete_afterwards, administrative)
            == ForwardOutcome::NoPeers,
        peers_found && sent && delete_afterwards ==> spec_forward_outcome(
            peers_found,
            sent,
            delete_afterwards,
            administrative,
        ) == ForwardOutcome::Remove,
        peers_found && sent && !delete_afterwards ==> (spec_forward_outcome(
            peers_found,
            sent,
            delete_afterwards,
            administrative,
        ) == ForwardOutcome::InspectAndContraindicate <==> administrative),
        peers_found && sent && !delete_afterwards && !administrative ==> spec_forward_outcome(
            peers_found,
            sent,
            delete_afterwards,
            administrative,
        ) == ForwardOutcome::Keep,
        peers_found && !sent ==> spec_forward_outcome(peers_found, sent, delete_afterwards, administrative)
            == ForwardOutcome::Contraindicate,
        delete_afterwards ==> spec_forward_outcome(peers_found, sent, delete_afterwards, administrative)
            == spec_forward_outcome(peers_found, sent, delete_afterwards, !administrative),
{
}

/// A bundle handed over for transmission awaits dispatching.
pub fn mark_for_transmission(bp: &mut BundlePack)
    ensures
        final(bp).constraint_set() == old(bp).constraint_set().insert(Constraint::DispatchPending),
        final(bp).id == old(bp).id,
{
    bp.add_constraint(Constraint::DispatchPending);
}

/// A bundle going to forwarding awaits forwarding, and no longer
/// dispatching.
pub fn mark_for_forwarding(bp: &mut BundlePack)
    ensures
        final(bp).constraint_set() == old(bp).constraint_set().insert(
            Constraint::ForwardPending,
        ).remove(Constraint::DispatchPending),
        final(bp).id == old(bp).id,
{
    bp.add_constraint(Constraint::ForwardPending);
    bp.remove_constraint(Constraint::DispatchPending);
}

/// A bundle that no agent took waits for another chance.
pub fn mark_contraindicated(bp: &mut BundlePack)
    ensures
        final(bp).constraint_set() == old(bp).constraint_set().insert(Constraint::Contraindicated),
        final(bp).id == old(bp).id,
{
    bp.add_constraint(Constraint::Contraindicated);
}

/// A deleted bundle loses its constraints; only a local endpoint's hold
/// stays.
pub fn mark_deleted(bp: &mut BundlePack)
    ensures
        final(bp).constraint_set() == if old(bp).constraint_set().contains(
            Constraint::LocalEndpoint,
        ) {
            set![Constraint::LocalEndpoint]
        } else {
            Set::<Constraint>::empty()
        },
        final(bp).id == old(bp).id,
{
    bp.clear_constraints();
}

/// A bundle delivered to a local endpoint is held for it. If the node is
/// the bundle's destination, nothing else holds it; otherwise it is also
/// forwarded on.
pub fn mark_locally_delivered(bp: &mut BundlePack, destination_is_local: bool)
    ensures
        destination_is_local ==> final(bp).constraint_set() == set![Constraint::LocalEndpoint],
        !destination_is_local ==> final(bp).constraint_set() == old(bp).constraint_set().insert(
            Constraint::LocalEndpoint,
        ).insert(Constraint::ForwardPending),
        final(bp).id == old(bp).id,
{
    bp.add_constraint(Constraint::LocalEndpoint);
    if destination_is_local {
        bp.clear_constraints();
    } else {
        bp.add_constraint(Constraint::ForwardPending);
    }
}

/// Whether a status report may be sent about a bundle: not about an
/// administrative record, and not to the node itself.
pub fn status_report_allowed(flags: BundleControlFlags, report_to_is_local: bool) -> (r: bool)
    ensures
        r == (flags & crate::bp::bundle::BUNDLE_ADMINISTRATIVE_RECORD_PAYLOAD == 0
            && !report_to_is_local),
{
    flags & crate::bp::bundle::BUNDLE_ADMINISTRATIVE_RECORD_PAYLOAD == 0 && !report_to_is_local
}

/// Whether a received status report makes the node drop the bundle it
/// refers to: it holds status information, the bundle is stored, and it
/// holds exactly the four positions of a bundle status report, the last of
/// which is the delivery's.
pub fn status_report_drops_bundle(status_information: usize, refbundle_stored: bool) -> (r: bool)
    ensures
        r == (status_information != 0 && refbundle_stored && status_information == 4),
{
    status_information != 0 && refbundle_stored && status_information == 4
}

/// A bundle's retention ends with its delivery or deletion: once it was
/// delivered to its local destination or deleted, no constraint but a local
/// endpoint's hold is left, so no forwarding or dispatching is pending.
pub proof fn law_retention_ends(before: Set<Constraint>, delivered_locally: Set<Constraint>, deleted: Set<Constraint>)
    requires
        delivered_locally == set![Constraint::LocalEndpoint],
        deleted == if before.contains(Constraint::LocalEndpoint) {
            set![Constraint::LocalEndpoint]
        } else {
            Set::<Constraint>::empty()
        },
    ensures
        !delivered_locally.contains(Constraint::ForwardPending),
        !delivered_locally.contains(Constraint::DispatchPending),
        !deleted.contains(Constraint::ForwardPending),
        !deleted.contains(Constraint::DispatchPending),
        forall|c: Constraint| deleted.contains(c) ==> c == Constraint::LocalEndpoint,
{
}

/// Whether a bundle that the node is asked to transmit may go out: its
/// source is the null endpoint or an endpoint of one of the node's agents.
/// A bundle from any other source is deleted instead.
pub fn transmission_source_accepted<D>(core: &DtnCore<D>, source: &EndpointID) -> (r: bool)
    ensures
        r == (source@ == EidView::DtnNone(ENDPOINT_URI_SCHEME_DTN, 0) || first_agent(core.endpoints@, source@) is Some),
{
    let none = EndpointID::new();
    eid_eq(source, &none) || core.is_in_endpoints(source)
}

/// Where a dispatched bundle goes.
#[derive(Debug, Clone, Copy, PartialEq, Eq, Structural)]
pub struct DispatchTargets {
    /// To the agent of its destination on this node.
    pub local_delivery: bool,
    /// On to other nodes.
    pub forward: bool,
}

/// Where a bundle for `destination` goes when it is dispatched on the node
/// `host_eid`: to a local agent if one serves the destination, and on to
/// other nodes unless the destination belongs to this node.
pub fn dispatch_targets<D>(core: &DtnCore<D>, destination: &EndpointID, host_eid: &EndpointID) -> (r: DispatchTargets)
    ensures
        r.local_delivery == (first_agent(core.endpoints@, destination@) is Some),
        r.forward == (node_key(destination@) != node_key(host_eid@)),
{
    DispatchTargets {
        local_delivery: core.is_in_endpoints(destination),
        forward: !is_local_node_id(destination, host_eid),
    }
}

} // verus!
