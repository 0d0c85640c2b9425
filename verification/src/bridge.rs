//! The handshake with the interactive selector.
//!
//! The selector is started first and is fed while it is already on screen:
//! the local labels at once, the remote labels when the host has answered.
//! The user may decide before the remote labels arrive; a remote batch that
//! can no longer be written is dropped, and that is no fault. The caller
//! performs each action and reports how it went; the functions here decide
//! what comes next.

use crate::lifecycle::Event;
use vstd::prelude::*;

verus! {

/// Where the handshake stands: what the caller is doing at the moment.
#[derive(Clone, Copy, Debug, PartialEq, Eq, Structural)]
pub enum BridgeStage {
    /// Starting the selector.
    Spawning,
    /// Writing the local labels.
    WritingLocal,
    /// Asking the host for the remote projects.
    FetchingRemote,
    /// Writing the remote labels.
    WritingRemote,
    /// Waiting for the selector to exit with the user's choice.
    Awaiting,
    /// The selector handed back its text.
    Finished,
    /// Ended by a failure.
    Failed,
}

/// What the caller is to do next.
#[derive(Clone, Copy, Debug, PartialEq, Eq, Structural)]
pub enum BridgeAction {
    /// Nothing.
    Nothing,
    /// Start the selector.
    Spawn,
    /// Write the labels of the local projects to the selector.
    WriteLocal,
    /// Ask the host for the remote projects; a failure counts as none.
    FetchRemote,
    /// Write the labels of the remote projects to the selector.
    WriteRemote,
    /// Wait for the selector to exit and take its text.
    AwaitAnswer,
    /// Resolve the text that the selector handed back.
    Resolve,
    /// Report the failure and end.
    ReportFailure,
}

/// Whether remote projects are offered: the remote side is switched on and
/// the selection is not restricted to local projects.
pub open spec fn remote_wanted(remote_enabled: bool, local_only: bool) -> bool {
    remote_enabled && !local_only
}

/// The stage and the action that follow when `event` is reported at
/// `stage`. `with_remote` tells whether remote projects are offered.
///
/// A failed remote listing and a failed remote write are passed over; every
/// other failure ends the handshake, and so does an event that does not
/// answer the stage's action.
pub open spec fn bridge_step_spec(stage: BridgeStage, event: Event, with_remote: bool) -> (
    BridgeStage,
    BridgeAction,
) {
    match (stage, event) {
        (BridgeStage::Finished, _) => (BridgeStage::Finished, BridgeAction::Nothing),
        (BridgeStage::Failed, _) => (BridgeStage::Failed, BridgeAction::Nothing),
        (BridgeStage::Spawning, Event::Succeeded) => (
            BridgeStage::WritingLocal,
            BridgeAction::WriteLocal,
        ),
        (BridgeStage::WritingLocal, Event::Succeeded) => if with_remote {
            (BridgeStage::FetchingRemote, BridgeAction::FetchRemote)
        } else {
            (BridgeStage::Awaiting, BridgeAction::AwaitAnswer)
        },
        (BridgeStage::FetchingRemote, Event::Succeeded) => (
            BridgeStage::WritingRemote,
            BridgeAction::WriteRemote,
        ),
        (BridgeStage::FetchingRemote, Event::Failed) => (
            BridgeStage::WritingRemote,
            BridgeAction::WriteRemote,
        ),
        (BridgeStage::WritingRemote, Event::Succeeded) => (
            BridgeStage::Awaiting,
            BridgeAction::AwaitAnswer,
        ),
        (BridgeStage::WritingRemote, Event::Failed) => (
            BridgeStage::Awaiting,
            BridgeAction::AwaitAnswer,
        ),
        (BridgeStage::Awaiting, Event::Succeeded) => (BridgeStage::Finished, BridgeAction::Resolve),
        (_, _) => (BridgeStage::Failed, BridgeAction::ReportFailure),
    }
}

/// The stage reached from the start after the events `events`, in order.
pub open spec fn bridge_stage_after(events: Seq<Event>, with_remote: bool) -> BridgeStage
    decreases events.len(),
{
    if events.len() == 0 {
        BridgeStage::Spawning
    } else {
        bridge_step_spec(
            bridge_stage_after(events.drop_last(), with_remote),
            events.last(),
            with_remote,
        ).0
    }
}

/// The action asked for when event number `k` of `events` is reported.
pub open spec fn bridge_action_at(events: Seq<Event>, k: int, with_remote: bool) -> BridgeAction {
    bridge_step_spec(bridge_stage_after(events.take(k), with_remote), events[k], with_remote).1
}

/// Whether remote projects are offered.
pub fn offers_remote(remote_enabled: bool, local_only: bool) -> (wanted: bool)
    ensures
        wanted == remote_wanted(remote_enabled, local_only),
{
    remote_enabled && !local_only
}

/// Begins the handshake: the selector is started before anything else.
pub fn bridge_begin() -> (first: (BridgeStage, BridgeAction))
    ensures
        first == (BridgeStage::Spawning, BridgeAction::Spawn),
{
    (BridgeStage::Spawning, BridgeAction::Spawn)
}

/// Advances the handshake by one reported event.
pub fn bridge_step(stage: BridgeStage, event: Event, with_remote: bool) -> (next: (
    BridgeStage,
    BridgeAction,
))
    ensures
        next == bridge_step_spec(stage, event, with_remote),
{
    match (stage, event) {
        (BridgeStage::Finished, _) => (BridgeStage::Finished, BridgeAction::Nothing),
        (BridgeStage::Failed, _) => (BridgeStage::Failed, BridgeAction::Nothing),
        (BridgeStage::Spawning, Event::Succeeded) => (
            BridgeStage::WritingLocal,
            BridgeAction::WriteLocal,
        ),
        (BridgeStage::WritingLocal, Event::Succeeded) => if with_remote {
            (BridgeStage::FetchingRemote, BridgeAction::FetchRemote)
        } else {
            (BridgeStage::Awaiting, BridgeAction::AwaitAnswer)
        },
        (BridgeStage::FetchingRemote, Event::Succeeded) | (
            BridgeStage::FetchingRemote,
            Event::Failed,
        ) => (BridgeStage::WritingRemote, BridgeAction::WriteRemote),
        (BridgeStage::WritingRemote, Event::Succeeded) | (
            BridgeStage::WritingRemote,
            Event::Failed,
        ) => (BridgeStage::Awaiting, BridgeAction::AwaitAnswer),
        (BridgeStage::Awaiting, Event::Succeeded) => (BridgeStage::Finished, BridgeAction::Resolve),
        (_, _) => (BridgeStage::Failed, BridgeAction::ReportFailure),
    }
}

/// Whether the handshake has ended.
pub fn bridge_finished(stage: BridgeStage) -> (ended: bool)
    ensures
        ended == (stage == BridgeStage::Finished || stage == BridgeStage::Failed),
{
    match stage {
        BridgeStage::Finished => true,
        BridgeStage::Failed => true,
        _ => false,
    }
}

/// The stage before the last event of a non-empty run.
proof fn lemma_bridge_unfold(events: Seq<Event>, k: int, with_remote: bool)
    requires
        0 < k <= events.len(),
    ensures
        bridge_stage_after(events.take(k), with_remote) == bridge_step_spec(
            bridge_stage_after(events.take(k - 1), with_remote),
            events[k - 1],
            with_remote,
        ).0,
{
    assert(events.take(k).drop_last() =~= events.take(k - 1));
    assert(events.take(k).last() == events[k - 1]);
}

/// The stage after `k` events is one of the first `k + 1` stages or an end.
proof fn lemma_bridge_progress(events: Seq<Event>, k: int, with_remote: bool)
    requires
        0 <= k <= events.len(),
    ensures
        ({
            let stage = bridge_stage_after(events.take(k), with_remote);
            &&& stage == BridgeStage::Spawning <==> k == 0
            &&& stage == BridgeStage::WritingLocal ==> k == 1
            &&& stage == BridgeStage::FetchingRemote ==> k == 2 && with_remote
            &&& stage == BridgeStage::WritingRemote ==> k == 3 && with_remote
        }),
    decreases k,
{
    if k > 0 {
        lemma_bridge_progress(events, k - 1, with_remote);
        lemma_bridge_unfold(events, k, with_remote);
    }
}

/// Local labels always reach the selector before remote ones: whatever is
/// reported, the remote labels are written only if remote projects are
/// offered, and only after the selector was started and the local labels
/// were written with success.
pub proof fn law_local_before_remote(events: Seq<Event>, k: int, with_remote: bool)
    requires
        0 <= k < events.len(),
    ensures
        bridge_action_at(events, k, with_remote) == BridgeAction::WriteRemote ==> with_remote && k
            == 2 && events[0] == Event::Succeeded && events[1] == Event::Succeeded
            && bridge_action_at(events, 0, with_remote) == BridgeAction::WriteLocal,
        bridge_action_at(events, k, with_remote) == BridgeAction::WriteLocal ==> k == 0,
{
    lemma_bridge_progress(events, k, with_remote);
    if k >= 1 {
        lemma_bridge_unfold(events, k, with_remote);
        lemma_bridge_progress(events, k - 1, with_remote);
        if k >= 2 {
            lemma_bridge_unfold(events, k - 1, with_remote);
            lemma_bridge_progress(events, k - 2, with_remote);
        }
    }
    assert(events.take(0) =~= Seq::<Event>::empty());
}

/// A remote batch that fails is no fault: whether the host's listing and
/// the write of the remote labels succeed or fail, the handshake goes on to
/// wait for the user's choice.
pub proof fn law_remote_is_best_effort(fetched: bool, written: bool, with_remote: bool)
    ensures
        ({
            let fetch = if fetched {
                Event::Succeeded
            } else {
                Event::Failed
            };
            let write = if written {
                Event::Succeeded
            } else {
                Event::Failed
            };
            let after_fetch = bridge_step_spec(BridgeStage::FetchingRemote, fetch, with_remote);
            let after_write = bridge_step_spec(after_fetch.0, write, with_remote);
            &&& after_fetch == (BridgeStage::WritingRemote, BridgeAction::WriteRemote)
            &&& after_write == (BridgeStage::Awaiting, BridgeAction::AwaitAnswer)
        }),
{
}

} // verus!
