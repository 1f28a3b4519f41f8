//! The order of the steps in which the node receives and forwards a
//! bundle: from where processing stands and what the last outside step
//! gave, the next state and the next thing to do. The daemon performs each
//! action (store access, bundle block updates, sending) and hands back its
//! result as the next event.
use vstd::prelude::*;
use crate::bp::bundle::BundleControlFlags;
use super::processing::{ForwardOutcome, spec_forward_outcome, report_due, reception_report_due};
use crate::bp::bundle::BUNDLE_STATUS_REQUEST_RECEPTION;

verus! {

/// Why a bundle is deleted, as its status report says.
#[derive(Debug, Clone, Copy, PartialEq, Eq, Structural)]
pub enum DeleteReason {
    LifetimeExpired,
    HopLimitExceeded,
    BlockUnintelligible,
}

/// Where forwarding a bundle stands. The flag is whether routing lets the
/// bundle go once it was sent.
#[derive(Debug, Clone, Copy, PartialEq, Eq, Structural)]
pub enum ForwardState {
    Start,
    AwaitLifetime,
    AwaitPeers,
    AwaitHopCount(bool),
    AwaitPreviousNode(bool),
    AwaitAge(bool),
    AwaitSending(bool),
    Done,
}

/// What the last step of forwarding gave.
#[derive(Debug, Clone, Copy, PartialEq, Eq, Structural)]
pub enum ForwardEvent {
    /// Forwarding is asked for.
    Begin,
    /// The bundle is not in the store.
    BundleMissing,
    /// Whether the primary block's lifetime is exceeded.
    Lifetime(bool),
    /// Whether peers to send to were found (directly or by routing), and
    /// whether routing lets the bundle go once sent.
    Peers(bool, bool),
    /// Whether the hop count, once increased, exceeds its limit.
    HopCount(bool),
    /// The previous node block now names this node.
    PreviousNodeUpdated,
    /// Whether the bundle age, once updated, reaches the lifetime.
    Age(bool),
    /// Whether any agent took the bundle, and whether it is an
    /// administrative record.
    Sent(bool, bool),
}

/// What the daemon does next while forwarding.
#[derive(Debug, Clone, Copy, PartialEq, Eq, Structural)]
pub enum ForwardAction {
    /// Mark the bundle pending forwarding and no longer dispatching, store
    /// that, fetch the bundle and check its lifetime.
    MarkAndCheckLifetime,
    /// Give up: the bundle is gone.
    Fail,
    /// Delete the bundle for this reason.
    Delete(DeleteReason),
    /// Look for a peer of the destination, else ask routing.
    FindPeers,
    /// Increase the hop count, if the bundle has a hop count block.
    IncreaseHopCount,
    /// Make the previous node block name this node, adding one if missing.
    UpdatePreviousNode,
    /// Update the bundle age block, if there is one.
    UpdateAge,
    /// Send the bundle to the peers found.
    Send,
    /// Forwarding is over with this outcome.
    Finish(ForwardOutcome),
    /// The event does not fit where forwarding stands: nothing happens.
    Ignore,
}

/// One step of forwarding.
pub open spec fn spec_forward_step(s: ForwardState, e: ForwardEvent) -> (ForwardState, ForwardAction) {
    match (s, e) {
        (ForwardState::Start, ForwardEvent::Begin) => (ForwardState::AwaitLifetime, ForwardAction::MarkAndCheckLifetime),
        (ForwardState::AwaitLifetime, ForwardEvent::BundleMissing) => (ForwardState::Done, ForwardAction::Fail),
        (ForwardState::AwaitLifetime, ForwardEvent::Lifetime(exceeded)) => if exceeded {
            (ForwardState::Done, ForwardAction::Delete(DeleteReason::LifetimeExpired))
        } else {
            (ForwardState::AwaitPeers, ForwardAction::FindPeers)
        },
        (ForwardState::AwaitPeers, ForwardEvent::Peers(found, delete_afterwards)) => if found {
            (ForwardState::AwaitHopCount(delete_afterwards), ForwardAction::IncreaseHopCount)
        } else {
            (ForwardState::Done, ForwardAction::Finish(ForwardOutcome::NoPeers))
        },
        (ForwardState::AwaitHopCount(d), ForwardEvent::HopCount(exceeded)) => if exceeded {
            (ForwardState::Done, ForwardAction::Delete(DeleteReason::HopLimitExceeded))
        } else {
            (ForwardState::AwaitPreviousNode(d), ForwardAction::UpdatePreviousNode)
        },
        (ForwardState::AwaitPreviousNode(d), ForwardEvent::PreviousNodeUpdated) => (ForwardState::AwaitAge(d), ForwardAction::UpdateAge),
        (ForwardState::AwaitAge(d), ForwardEvent::Age(exceeded)) => if exceeded {
            (ForwardState::Done, ForwardAction::Delete(DeleteReason::LifetimeExpired))
        } else {
            (ForwardState::AwaitSending(d), ForwardAction::Send)
        },
        (ForwardState::AwaitSending(d), ForwardEvent::Sent(sent, administrative)) => (
            ForwardState::Done,
            ForwardAction::Finish(spec_forward_outcome(true, sent, d, administrative)),
        ),
        _ => (s, ForwardAction::Ignore),
    }
}

/// One step of forwarding a bundle: its lifetime is checked first, then
/// peers are looked for; with peers, the hop count, the previous node and
/// the bundle age are updated in turn, any of them ending forwarding with
/// a deletion, before the bundle is sent.
pub fn forward_step(s: ForwardState, e: ForwardEvent) -> (r: (ForwardState, ForwardAction))
    ensures
        r == spec_forward_step(s, e),
{
    match (s, e) {
        (ForwardState::Start, ForwardEvent::Begin) => (ForwardState::AwaitLifetime, ForwardAction::MarkAndCheckLifetime),
        (ForwardState::AwaitLifetime, ForwardEvent::BundleMissing) => (ForwardState::Done, ForwardAction::Fail),
        (ForwardState::AwaitLifetime, ForwardEvent::Lifetime(exceeded)) => if exceeded {
            (ForwardState::Done, ForwardAction::Delete(DeleteReason::LifetimeExpired))
        } else {
            (ForwardState::AwaitPeers, ForwardAction::FindPeers)
        },
        (ForwardState::AwaitPeers, ForwardEvent::Peers(found, delete_afterwards)) => if found {
            (ForwardState::AwaitHopCount(delete_afterwards), ForwardAction::IncreaseHopCount)
        } else {
            (ForwardState::Done, ForwardAction::Finish(ForwardOutcome::NoPeers))
        },
        (ForwardState::AwaitHopCount(d), ForwardEvent::HopCount(exceeded)) => if exceeded {
            (ForwardState::Done, ForwardAction::Delete(DeleteReason::HopLimitExceeded))
        } else {
            (ForwardState::AwaitPreviousNode(d), ForwardAction::UpdatePreviousNode)
        },
        (ForwardState::AwaitPreviousNode(d), ForwardEvent::PreviousNodeUpdated) => (ForwardState::AwaitAge(d), ForwardAction::UpdateAge),
        (ForwardState::AwaitAge(d), ForwardEvent::Age(exceeded)) => if exceeded {
            (ForwardState::Done, ForwardAction::Delete(DeleteReason::LifetimeExpired))
        } else {
            (ForwardState::AwaitSending(d), ForwardAction::Send)
        },
        (ForwardState::AwaitSending(d), ForwardEvent::Sent(sent, administrative)) => (
            ForwardState::Done,
            ForwardAction::Finish(super::processing::forward_outcome(true, sent, d, administrative)),
        ),
        _ => (s, ForwardAction::Ignore),
    }
}

/// Forwarding runs its steps in order: a bundle within its lifetime and
/// hop limit, with peers, is marked, checked, its hop count, previous node
/// and age updated, then sent, and forwarding ends with the outcome of the
/// sending. Once done, forwarding ignores every event.
pub proof fn law_forward_in_order(d: bool, sent: bool, administrative: bool, e: ForwardEvent)
    ensures
        spec_forward_step(ForwardState::Start, ForwardEvent::Begin) == (ForwardState::AwaitLifetime, ForwardAction::MarkAndCheckLifetime),
        spec_forward_step(ForwardState::AwaitLifetime, ForwardEvent::Lifetime(false)) == (ForwardState::AwaitPeers, ForwardAction::FindPeers),
        spec_forward_step(ForwardState::AwaitPeers, ForwardEvent::Peers(true, d)) == (ForwardState::AwaitHopCount(d), ForwardAction::IncreaseHopCount),
        spec_forward_step(ForwardState::AwaitHopCount(d), ForwardEvent::HopCount(false)) == (ForwardState::AwaitPreviousNode(d), ForwardAction::UpdatePreviousNode),
        spec_forward_step(ForwardState::AwaitPreviousNode(d), ForwardEvent::PreviousNodeUpdated) == (ForwardState::AwaitAge(d), ForwardAction::UpdateAge),
        spec_forward_step(ForwardState::AwaitAge(d), ForwardEvent::Age(false)) == (ForwardState::AwaitSending(d), ForwardAction::Send),
        spec_forward_step(ForwardState::AwaitSending(d), ForwardEvent::Sent(sent, administrative)) == (
            ForwardState::Done,
            ForwardAction::Finish(spec_forward_outcome(true, sent, d, administrative)),
        ),
        spec_forward_step(ForwardState::Done, e) == (ForwardState::Done, ForwardAction::Ignore),
{
}

/// A bundle is sent only once its hop count, previous node and age were
/// handled and none ended forwarding; it is deleted only for an exceeded
/// lifetime, an exceeded hop limit or an age that reached its lifetime.
pub proof fn law_forward_send_and_delete(s: ForwardState, e: ForwardEvent)
    ensures
        spec_forward_step(s, e).1 == ForwardAction::Send ==> (s matches ForwardState::AwaitAge(_)) && e == ForwardEvent::Age(false),
        spec_forward_step(s, e).1 matches ForwardAction::Delete(r) ==> (
            (r == DeleteReason::LifetimeExpired && (
                (s == ForwardState::AwaitLifetime && e == ForwardEvent::Lifetime(true))
                || ((s matches ForwardState::AwaitAge(_)) && e == ForwardEvent::Age(true))))
            || (r == DeleteReason::HopLimitExceeded && (s matches ForwardState::AwaitHopCount(_)) && e == ForwardEvent::HopCount(true))
        ),
{
}

/// Where receiving a bundle stands.
#[derive(Debug, Clone, Copy, PartialEq, Eq, Structural)]
pub enum ReceiveState {
    Start,
    AwaitStored,
    AwaitScan,
    AwaitStoredAgain,
    Done,
}

/// What the last step of receiving gave.
#[derive(Debug, Clone, Copy, PartialEq, Eq, Structural)]
pub enum ReceiveEvent {
    /// A bundle arrived; whether the store already holds it.
    Received(bool),
    /// Storing the bundle failed.
    StoreFailed,
    /// The bundle is stored and marked pending dispatch: its control flags,
    /// whether it is an administrative record, whether the node sends
    /// status reports.
    Stored(BundleControlFlags, bool, bool),
    /// Its unknown blocks were scanned (`unknown_block_decision`): how many
    /// "block unintelligible" reports they ask for, and whether one asks
    /// for the bundle's deletion.
    Scanned(usize, bool),
    /// The bundle, without the blocks to remove, is stored again.
    StoredAgain,
}

/// What the daemon does next while receiving.
#[derive(Debug, Clone, Copy, PartialEq, Eq, Structural)]
pub enum ReceiveAction {
    /// The bundle is known already: leave it, delete nothing.
    SkipDuplicate,
    /// Store the bundle, mark its pack pending dispatch, store that.
    StoreAndMark,
    /// Give up with an error.
    Fail,
    /// Send a reception report where the flag says so, then scan the
    /// bundle's unknown blocks.
    ScanBlocks(bool),
    /// Send this many "block unintelligible" reports, then delete the
    /// bundle for the reason given.
    ReportAndDelete(usize, DeleteReason),
    /// Send this many "block unintelligible" reports, remove the blocks
    /// marked for removal and store the bundle again.
    ReportAndRemoveBlocks(usize),
    /// Dispatch the bundle.
    Dispatch,
    /// The event does not fit where receiving stands: nothing happens.
    Ignore,
}

/// One step of receiving.
pub open spec fn spec_receive_step(s: ReceiveState, e: ReceiveEvent) -> (ReceiveState, ReceiveAction) {
    match (s, e) {
        (ReceiveState::Start, ReceiveEvent::Received(known)) => if known {
            (ReceiveState::Done, ReceiveAction::SkipDuplicate)
        } else {
            (ReceiveState::AwaitStored, ReceiveAction::StoreAndMark)
        },
        (ReceiveState::AwaitStored, ReceiveEvent::StoreFailed) => (ReceiveState::Done, ReceiveAction::Fail),
        (ReceiveState::AwaitStored, ReceiveEvent::Stored(flags, administrative, generate)) => (
            ReceiveState::AwaitScan,
            ReceiveAction::ScanBlocks(report_due(flags, BUNDLE_STATUS_REQUEST_RECEPTION, administrative, generate)),
        ),
        (ReceiveState::AwaitScan, ReceiveEvent::Scanned(reports, delete)) => if delete {
            (ReceiveState::Done, ReceiveAction::ReportAndDelete(reports, DeleteReason::BlockUnintelligible))
        } else {
            (ReceiveState::AwaitStoredAgain, ReceiveAction::ReportAndRemoveBlocks(reports))
        },
        (ReceiveState::AwaitStoredAgain, ReceiveEvent::StoreFailed) => (ReceiveState::Done, ReceiveAction::Fail),
        (ReceiveState::AwaitStoredAgain, ReceiveEvent::StoredAgain) => (ReceiveState::Done, ReceiveAction::Dispatch),
        _ => (s, ReceiveAction::Ignore),
    }
}

/// One step of receiving a bundle: a known bundle is skipped; a new one is
/// stored and marked pending dispatch, a reception report is sent where
/// due, its unknown blocks are scanned, and it is then deleted or, without
/// the blocks marked for removal, stored again and dispatched.
pub fn receive_step(s: ReceiveState, e: ReceiveEvent) -> (r: (ReceiveState, ReceiveAction))
    ensures
        r == spec_receive_step(s, e),
{
    match (s, e) {
        (ReceiveState::Start, ReceiveEvent::Received(known)) => if known {
            (ReceiveState::Done, ReceiveAction::SkipDuplicate)
        } else {
            (ReceiveState::AwaitStored, ReceiveAction::StoreAndMark)
        },
        (ReceiveState::AwaitStored, ReceiveEvent::StoreFailed) => (ReceiveState::Done, ReceiveAction::Fail),
        (ReceiveState::AwaitStored, ReceiveEvent::Stored(flags, administrative, generate)) => (
            ReceiveState::AwaitScan,
            ReceiveAction::ScanBlocks(reception_report_due(flags, administrative, generate)),
        ),
        (ReceiveState::AwaitScan, ReceiveEvent::Scanned(reports, delete)) => if delete {
            (ReceiveState::Done, ReceiveAction::ReportAndDelete(reports, DeleteReason::BlockUnintelligible))
        } else {
            (ReceiveState::AwaitStoredAgain, ReceiveAction::ReportAndRemoveBlocks(reports))
        },
        (ReceiveState::AwaitStoredAgain, ReceiveEvent::StoreFailed) => (ReceiveState::Done, ReceiveAction::Fail),
        (ReceiveState::AwaitStoredAgain, ReceiveEvent::StoredAgain) => (ReceiveState::Done, ReceiveAction::Dispatch),
        _ => (s, ReceiveAction::Ignore),
    }
}

/// A known bundle is never stored, reported on or dispatched again, and a
/// bundle is dispatched only once it was stored, scanned without a demand
/// for its deletion, and stored again.
pub proof fn law_receive_duplicates_and_dispatch(s: ReceiveState, e: ReceiveEvent)
    ensures
        spec_receive_step(ReceiveState::Start, ReceiveEvent::Received(true)) == (ReceiveState::Done, ReceiveAction::SkipDuplicate),
        spec_receive_step(ReceiveState::Done, e) == (ReceiveState::Done, ReceiveAction::Ignore),
        spec_receive_step(s, e).1 == ReceiveAction::Dispatch ==> s == ReceiveState::AwaitStoredAgain && e == ReceiveEvent::StoredAgain,
        s != ReceiveState::AwaitStoredAgain && spec_receive_step(s, e).0 == ReceiveState::AwaitStoredAgain ==> s == ReceiveState::AwaitScan && (e matches ReceiveEvent::Scanned(_, false)),
{
}

/// A new bundle's reception report is asked for exactly when one is due,
/// and the reports that its unknown blocks ask for are sent as counted,
/// whether the bundle is then deleted or kept without the removed blocks.
pub proof fn law_receive_reports(flags: BundleControlFlags, administrative: bool, generate: bool, reports: usize, delete: bool)
    ensures
        spec_receive_step(ReceiveState::Start, ReceiveEvent::Received(false)) == (ReceiveState::AwaitStored, ReceiveAction::StoreAndMark),
        spec_receive_step(ReceiveState::AwaitStored, ReceiveEvent::Stored(flags, administrative, generate)) == (
            ReceiveState::AwaitScan,
            ReceiveAction::ScanBlocks(flags & BUNDLE_STATUS_REQUEST_RECEPTION != 0 && !administrative && generate),
        ),
        delete ==> spec_receive_step(ReceiveState::AwaitScan, ReceiveEvent::Scanned(reports, delete)) == (
            ReceiveState::Done,
            ReceiveAction::ReportAndDelete(reports, DeleteReason::BlockUnintelligible),
        ),
        !delete ==> spec_receive_step(ReceiveState::AwaitScan, ReceiveEvent::Scanned(reports, delete)) == (
            ReceiveState::AwaitStoredAgain,
            ReceiveAction::ReportAndRemoveBlocks(reports),
        ),
        spec_receive_step(ReceiveState::AwaitStoredAgain, ReceiveEvent::StoredAgain) == (ReceiveState::Done, ReceiveAction::Dispatch),
{
}

} // verus!
