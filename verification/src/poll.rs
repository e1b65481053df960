//! The poll loop's state machine: track the live/offline state across ticks
//! and fire the notifier exactly once on each offline-to-live edge.

use crate::status::LiveResult;
use vstd::prelude::*;

verus! {

/// The loop's state between ticks. `Done` is reached only after a chat
/// message was sent and acknowledged.
#[derive(Clone, Copy, Debug, PartialEq, Eq, Structural)]
pub enum PollState {
    Offline,
    Live,
    Done,
}

/// What became of the tick's chat send: none was planned, it was
/// acknowledged, or it failed.
#[derive(Clone, Copy, Debug, PartialEq, Eq, Structural)]
pub enum SendOutcome {
    NotAttempted,
    Sent,
    Failed,
}

/// The side effects one tick calls for.
#[derive(Clone, Copy, Debug, PartialEq, Eq, Structural)]
pub struct TickAction {
    /// Invoke the notifier: play the audio cue.
    pub notify: bool,
    /// Send the configured chat message.
    pub send_chat: bool,
}

/// The side effects owed on a tick: the notifier runs exactly on the
/// offline-to-live edge, and a chat send happens only then and only with a
/// non-empty message.
pub open spec fn spec_plan(state: PollState, live: bool, message_nonempty: bool) -> TickAction {
    TickAction {
        notify: state is Offline && live,
        send_chat: state is Offline && live && message_nonempty,
    }
}

/// The state after a tick: `Done` is absorbing; a non-live result resets to
/// `Offline`; an acknowledged send on the offline-to-live edge terminates;
/// any other live result leaves the loop in `Live`.
pub open spec fn spec_next(state: PollState, live: bool, sent: bool) -> PollState {
    if state is Done {
        PollState::Done
    } else if !live {
        PollState::Offline
    } else if state is Offline && sent {
        PollState::Done
    } else {
        PollState::Live
    }
}

/// Decide the tick's side effects from the state and the check's result.
pub fn plan_tick(state: &PollState, result: &LiveResult, message_nonempty: bool) -> (a: TickAction)
    ensures
        a == spec_plan(*state, *result is Live, message_nonempty),
{
    let on_edge = match state {
        PollState::Offline => match result {
            LiveResult::Live(_) => true,
            _ => false,
        },
        _ => false,
    };
    let send_chat = on_edge && message_nonempty;
    TickAction { notify: on_edge, send_chat }
}

/// Advance the state after a tick, given the check's result and what became
/// of the chat send.
pub fn next_state(state: &PollState, result: &LiveResult, send: &SendOutcome) -> (s: PollState)
    ensures
        s == spec_next(*state, *result is Live, *send is Sent),
{
    match state {
        PollState::Done => PollState::Done,
        PollState::Offline => match result {
            LiveResult::Live(_) => match send {
                SendOutcome::Sent => PollState::Done,
                _ => PollState::Live,
            },
            _ => PollState::Offline,
        },
        PollState::Live => match result {
            LiveResult::Live(_) => PollState::Live,
            _ => PollState::Offline,
        },
    }
}

/// The state before tick `i` of a loop that starts offline and whose chat
/// send never succeeds (an empty message, or sends that fail), given the
/// live flags of the checks so far.
pub open spec fn state_before(results: Seq<bool>, i: int) -> PollState
    decreases i,
{
    if i <= 0 {
        PollState::Offline
    } else {
        spec_next(state_before(results, i - 1), results[i - 1], false)
    }
}

/// The notifier fires on tick `i` of such a loop.
pub open spec fn notifies_at(results: Seq<bool>, i: int) -> bool {
    spec_plan(state_before(results, i), results[i], false).notify
}

/// While no chat send succeeds, the loop never reaches `Done`.
pub proof fn lemma_never_done(results: Seq<bool>, i: int)
    ensures
        state_before(results, i) !is Done,
    decreases i,
{
    if i > 0 {
        lemma_never_done(results, i - 1);
    }
}

/// The notifier fires on a tick exactly when that tick's check reports live
/// and the tick is the first, or the previous check did not report live: once
/// per maximal run of consecutive live results that follows the start of the
/// loop or a non-live result, and never inside such a run.
pub proof fn lemma_notify_once_per_run(results: Seq<bool>, i: int)
    requires
        0 <= i < results.len(),
    ensures
        notifies_at(results, i) <==> (results[i] && (i == 0 || !results[i - 1])),
{
    if i > 0 {
        lemma_never_done(results, i - 1);
    }
}

/// With an empty message, a detected live transition still invokes the
/// notifier but plans no chat send, and the loop continues in `Live` rather
/// than terminating.
pub proof fn lemma_empty_message_no_send(state: PollState, live: bool)
    requires
        state is Offline,
        live,
    ensures
        spec_plan(state, live, false).notify,
        !spec_plan(state, live, false).send_chat,
        spec_next(state, live, false) is Live,
{
}

/// A failed chat send on the live transition leaves the loop in `Live`, not
/// `Done`, and the following still-live tick plans no further send attempt.
pub proof fn lemma_failed_send_not_retried(message_nonempty: bool)
    ensures
        spec_next(PollState::Offline, true, false) is Live,
        !spec_plan(PollState::Live, true, message_nonempty).notify,
        !spec_plan(PollState::Live, true, message_nonempty).send_chat,
        spec_next(PollState::Live, true, false) is Live,
{
}

} // verus!
