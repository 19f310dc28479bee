//! The decisions of the background loop that keeps a pool's channel alive.
//!
//! Each round of the loop first reads whether pinging is enabled (a pool
//! enables it when it hands out its first channel). While it is not, the
//! round only sleeps. Otherwise the round takes the held channel, or opens
//! one when none is held, pings the service over it, drops the channel when
//! the ping timed out or its task panicked, reports a channel that could
//! not be opened, and sleeps. The loop runs these rounds without end.
//!
//! The loop itself awaits network calls and timers, so the caller performs
//! each `PingAction` and reports what came of it as a `PingEvent`;
//! `ping_step` decides the next action.

use vstd::prelude::*;

verus! {

/// How a ping finished within its task.
pub enum PingResult {
    Success,
    Timeout,
}

/// How the task that ran a ping ended.
pub enum PingTaskOutcome {
    /// The task ran to its end with this result.
    Finished(PingResult),
    /// The task panicked.
    Panicked,
}

/// Why the loop drops the held channel.
pub enum DropReason {
    PingTimeout,
    PingPanic,
}

impl DropReason {
    /// The text the loop gives with the drop.
    pub fn message(&self) -> (res: &'static str)
        ensures
            res@ == match self {
                DropReason::PingTimeout => "Ping Timeout"@,
                DropReason::PingPanic => "Ping Panic"@,
            },
    {
        proof {
            reveal_strlit("Ping Timeout");
            reveal_strlit("Ping Panic");
        }
        match self {
            DropReason::PingTimeout => "Ping Timeout",
            DropReason::PingPanic => "Ping Panic",
        }
    }
}

/// Where the loop stands: which action it waits on.
pub enum PingLoopState {
    /// Waits for the flag that enables pinging.
    CheckingFlag,
    /// Waits for the held channel, if any.
    ReusingChannel,
    /// Waits for a new channel to be opened.
    CreatingChannel,
    /// Waits for the ping task.
    Pinging,
    /// Waits for the channel to be dropped.
    DroppingChannel,
    /// Waits for the failure to open a channel to be reported.
    ReportingError,
    /// Waits for the pause between rounds to end.
    Sleeping,
}

/// What the caller is to do next.
pub enum PingAction {
    /// Read whether pinging is enabled.
    ReadFlag,
    /// Pause for the ping interval.
    Sleep,
    /// Take a handle to the held channel, if any.
    ReuseExistingChannel,
    /// Ask the settings for the service's URL and open a channel to it.
    CreateChannel,
    /// Build the service over the channel and ping it within the ping timeout.
    Ping,
    /// Drop the held channel, for this reason.
    DropChannel(DropReason),
    /// Ask the settings for the URL again and report that no channel opened.
    ReportCreateError,
}

/// What came of the last action.
pub enum PingEvent {
    /// Pinging is enabled or not.
    FlagRead(bool),
    /// A channel was held or not.
    ExistingChannel(bool),
    /// A new channel opened or not.
    ChannelCreated(bool),
    /// The ping task ended so.
    PingFinished(PingTaskOutcome),
    /// An action without a result is done.
    Done,
}

/// Whether `event` answers the action that the loop waits on in `state`.
pub open spec fn expects(state: PingLoopState, event: PingEvent) -> bool {
    match state {
        PingLoopState::CheckingFlag => event is FlagRead,
        PingLoopState::ReusingChannel => event is ExistingChannel,
        PingLoopState::CreatingChannel => event is ChannelCreated,
        PingLoopState::Pinging => event is PingFinished,
        PingLoopState::DroppingChannel => event is Done,
        PingLoopState::ReportingError => event is Done,
        PingLoopState::Sleeping => event is Done,
    }
}

/// The next state and action of the loop, in `state`, on `event`.
pub open spec fn next(state: PingLoopState, event: PingEvent) -> (PingLoopState, PingAction) {
    match event {
        PingEvent::FlagRead(enabled) => if enabled {
            (PingLoopState::ReusingChannel, PingAction::ReuseExistingChannel)
        } else {
            (PingLoopState::Sleeping, PingAction::Sleep)
        },
        PingEvent::ExistingChannel(found) => if found {
            (PingLoopState::Pinging, PingAction::Ping)
        } else {
            (PingLoopState::CreatingChannel, PingAction::CreateChannel)
        },
        PingEvent::ChannelCreated(opened) => if opened {
            (PingLoopState::Pinging, PingAction::Ping)
        } else {
            (PingLoopState::ReportingError, PingAction::ReportCreateError)
        },
        PingEvent::PingFinished(outcome) => match outcome {
            PingTaskOutcome::Finished(PingResult::Success) => (PingLoopState::Sleeping, PingAction::Sleep),
            PingTaskOutcome::Finished(PingResult::Timeout) => (
                PingLoopState::DroppingChannel,
                PingAction::DropChannel(DropReason::PingTimeout),
            ),
            PingTaskOutcome::Panicked => (
                PingLoopState::DroppingChannel,
                PingAction::DropChannel(DropReason::PingPanic),
            ),
        },
        PingEvent::Done => match state {
            PingLoopState::Sleeping => (PingLoopState::CheckingFlag, PingAction::ReadFlag),
            _ => (PingLoopState::Sleeping, PingAction::Sleep),
        },
    }
}


/// The actions the loop takes from `state` when the events of `events`
/// answer them in turn. It stops at the first event that answers no action
/// the loop waits on.
pub open spec fn run_actions(state: PingLoopState, events: Seq<PingEvent>) -> Seq<PingAction>
    decreases events.len(),
{
    if events.len() == 0 || !expects(state, events[0]) {
        Seq::empty()
    } else {
        seq![next(state, events[0]).1] + run_actions(next(state, events[0]).0, events.drop_first())
    }
}

/// Whether, in `actions`, the pauses and the reads of the flag take turns,
/// the first of them being a pause when `sleep_due` holds and a read of the
/// flag otherwise.
pub open spec fn paced(actions: Seq<PingAction>, sleep_due: bool) -> bool
    decreases actions.len(),
{
    if actions.len() == 0 {
        true
    } else if actions[0] is Sleep {
        sleep_due && paced(actions.drop_first(), false)
    } else if actions[0] is ReadFlag {
        !sleep_due && paced(actions.drop_first(), true)
    } else {
        paced(actions.drop_first(), sleep_due)
    }
}

/// Whether every read of the flag in `events` finds pinging disabled.
pub open spec fn pinging_disabled_throughout(events: Seq<PingEvent>) -> bool {
    forall|i: int| 0 <= i < events.len() ==> !(#[trigger] events[i] matches PingEvent::FlagRead(true))
}

/// While pinging is disabled the loop does nothing but read the flag and
/// sleep: it takes no channel, opens none, pings nothing and drops nothing.
pub proof fn law_idle_while_disabled(state: PingLoopState, events: Seq<PingEvent>)
    requires
        state is CheckingFlag || state is Sleeping,
        pinging_disabled_throughout(events),
    ensures
        forall|i: int|
            0 <= i < run_actions(state, events).len() ==> (#[trigger] run_actions(state, events)[i] is ReadFlag
                || run_actions(state, events)[i] is Sleep),
    decreases events.len(),
{
    if events.len() > 0 && expects(state, events[0]) {
        let rest = events.drop_first();
        assert(!(events[0] matches PingEvent::FlagRead(true)));
        assert forall|i: int| 0 <= i < rest.len() implies !(#[trigger] rest[i] matches PingEvent::FlagRead(true)) by {
            assert(rest[i] == events[i + 1]);
        }
        let s2 = next(state, events[0]).0;
        law_idle_while_disabled(s2, rest);
        let tail = run_actions(s2, rest);
        let all = run_actions(state, events);
        assert(all == seq![next(state, events[0]).1] + tail);
        assert forall|i: int| 0 <= i < all.len() implies (#[trigger] all[i] is ReadFlag || all[i] is Sleep) by {
            if i > 0 {
                assert(all[i] == tail[i - 1]);
            }
        }
    }
}

/// Every round of the loop sleeps exactly once: from any state, the pauses
/// and the reads of the flag take turns, and a pause comes first unless the
/// loop is sleeping already.
pub proof fn law_one_sleep_per_round(state: PingLoopState, events: Seq<PingEvent>)
    ensures
        paced(run_actions(state, events), !(state is Sleeping)),
    decreases events.len(),
{
    if events.len() > 0 && expects(state, events[0]) {
        let rest = events.drop_first();
        let s2 = next(state, events[0]).0;
        law_one_sleep_per_round(s2, rest);
        let all = run_actions(state, events);
        assert(all.drop_first() == run_actions(s2, rest));
    }
}

/// The loop drops its channel only right after a ping that timed out or
/// whose task panicked, and pings only right after it found or opened a
/// channel.
pub proof fn law_drop_and_ping_causes(state: PingLoopState, event: PingEvent)
    requires
        expects(state, event),
    ensures
        next(state, event).1 is DropChannel ==> (event matches PingEvent::PingFinished(outcome) && !(
        outcome matches PingTaskOutcome::Finished(PingResult::Success))),
        next(state, event).1 is Ping ==> (event == PingEvent::ExistingChannel(true) || event
            == PingEvent::ChannelCreated(true)),
        event == PingEvent::PingFinished(PingTaskOutcome::Finished(PingResult::Success)) ==> next(
            state,
            event,
        ).1 is Sleep,
{
}


/// The state in which the loop waits on the result of `action`.
pub open spec fn awaited(action: PingAction) -> PingLoopState {
    match action {
        PingAction::ReadFlag => PingLoopState::CheckingFlag,
        PingAction::Sleep => PingLoopState::Sleeping,
        PingAction::ReuseExistingChannel => PingLoopState::ReusingChannel,
        PingAction::CreateChannel => PingLoopState::CreatingChannel,
        PingAction::Ping => PingLoopState::Pinging,
        PingAction::DropChannel(_) => PingLoopState::DroppingChannel,
        PingAction::ReportCreateError => PingLoopState::ReportingError,
    }
}

/// An event that answers the action that the loop waits on in `state`.
pub open spec fn some_answer(state: PingLoopState) -> PingEvent {
    match state {
        PingLoopState::CheckingFlag => PingEvent::FlagRead(true),
        PingLoopState::ReusingChannel => PingEvent::ExistingChannel(true),
        PingLoopState::CreatingChannel => PingEvent::ChannelCreated(true),
        PingLoopState::Pinging => PingEvent::PingFinished(PingTaskOutcome::Panicked),
        _ => PingEvent::Done,
    }
}

/// The loop never stops: it has no final state. After every step it waits
/// on exactly the action it has just asked for, and every state takes an
/// answer, so each action, once performed, leads to one more step.
pub proof fn law_loop_never_stops(state: PingLoopState, event: PingEvent)
    requires
        expects(state, event),
    ensures
        next(state, event).0 == awaited(next(state, event).1),
        expects(next(state, event).0, some_answer(next(state, event).0)),
        forall|s: PingLoopState| expects(s, #[trigger] some_answer(s)),
        awaited(PingAction::ReadFlag) == PingLoopState::CheckingFlag,
{
}

/// A channel that a failed ping dropped is opened again in the next round
/// that finds pinging enabled: after the drop the loop sleeps, reads the
/// flag, looks for a held channel and, finding the holder empty (as the
/// drop leaves it), opens a new one.
pub proof fn law_reopen_after_drop(events: Seq<PingEvent>)
    requires
        events.len() >= 4,
        expects(PingLoopState::DroppingChannel, events[0]),
        expects(PingLoopState::Sleeping, events[1]),
        events[2] == PingEvent::FlagRead(true),
        events[3] == PingEvent::ExistingChannel(false),
    ensures
        run_actions(PingLoopState::DroppingChannel, events).len() >= 4,
        run_actions(PingLoopState::DroppingChannel, events)[0] == PingAction::Sleep,
        run_actions(PingLoopState::DroppingChannel, events)[1] == PingAction::ReadFlag,
        run_actions(PingLoopState::DroppingChannel, events)[2] == PingAction::ReuseExistingChannel,
        run_actions(PingLoopState::DroppingChannel, events)[3] == PingAction::CreateChannel,
{
    let e1 = events.drop_first();
    let e2 = e1.drop_first();
    let e3 = e2.drop_first();
    let e4 = e3.drop_first();
    assert(e1[0] == events[1]);
    assert(e2[0] == events[2]);
    assert(e3[0] == events[3]);
    let r3 = run_actions(PingLoopState::CreatingChannel, e4);
    let r2 = run_actions(PingLoopState::ReusingChannel, e3);
    assert(r2 == seq![PingAction::CreateChannel] + r3);
    let r1 = run_actions(PingLoopState::CheckingFlag, e2);
    assert(r1 == seq![PingAction::ReuseExistingChannel] + r2);
    let r0 = run_actions(PingLoopState::Sleeping, e1);
    assert(r0 == seq![PingAction::ReadFlag] + r1);
    let all = run_actions(PingLoopState::DroppingChannel, events);
    assert(all == seq![PingAction::Sleep] + r0);
}

/// Each waiting state takes only the kind of event that answers the action
/// it waits on: a read of the flag answers only a read of the flag, and
/// the waits on a drop, on a report and on a pause end only with `Done`.
pub proof fn law_answers_match_actions(event: PingEvent)
    ensures
        expects(PingLoopState::CheckingFlag, event) <==> event is FlagRead,
        expects(PingLoopState::ReusingChannel, event) <==> event is ExistingChannel,
        expects(PingLoopState::CreatingChannel, event) <==> event is ChannelCreated,
        expects(PingLoopState::Pinging, event) <==> event is PingFinished,
        expects(PingLoopState::DroppingChannel, event) <==> event is Done,
        expects(PingLoopState::ReportingError, event) <==> event is Done,
        expects(PingLoopState::Sleeping, event) <==> event is Done,
{
}

/// After a channel could not be opened, or after the channel was dropped,
/// the loop sleeps before it does anything else: whatever answer it takes
/// there, its next action is the pause.
pub proof fn law_sleep_after_report_or_drop(event: PingEvent)
    ensures
        expects(PingLoopState::ReportingError, event) ==> next(PingLoopState::ReportingError, event)
            == (PingLoopState::Sleeping, PingAction::Sleep),
        expects(PingLoopState::DroppingChannel, event) ==> next(PingLoopState::DroppingChannel, event)
            == (PingLoopState::Sleeping, PingAction::Sleep),
        expects(PingLoopState::Sleeping, event) ==> next(PingLoopState::Sleeping, event) == (
            PingLoopState::CheckingFlag,
            PingAction::ReadFlag,
        ),
{
}

/// The state and first action of a loop that has just started.
pub fn ping_loop_start() -> (res: (PingLoopState, PingAction))
    ensures
        res == (PingLoopState::CheckingFlag, PingAction::ReadFlag),
{
    (PingLoopState::CheckingFlag, PingAction::ReadFlag)
}

/// Whether `event` answers the action that the loop waits on in `state`.
pub fn accepts(state: &PingLoopState, event: &PingEvent) -> (res: bool)
    ensures
        res == expects(*state, *event),
        res == match *state {
            PingLoopState::CheckingFlag => *event is FlagRead,
            PingLoopState::ReusingChannel => *event is ExistingChannel,
            PingLoopState::CreatingChannel => *event is ChannelCreated,
            PingLoopState::Pinging => *event is PingFinished,
            _ => *event is Done,
        },
{
    match state {
        PingLoopState::CheckingFlag => matches!(event, PingEvent::FlagRead(_)),
        PingLoopState::ReusingChannel => matches!(event, PingEvent::ExistingChannel(_)),
        PingLoopState::CreatingChannel => matches!(event, PingEvent::ChannelCreated(_)),
        PingLoopState::Pinging => matches!(event, PingEvent::PingFinished(_)),
        PingLoopState::DroppingChannel => matches!(event, PingEvent::Done),
        PingLoopState::ReportingError => matches!(event, PingEvent::Done),
        PingLoopState::Sleeping => matches!(event, PingEvent::Done),
    }
}

/// One decision of the loop: in `state`, with `event` the result of the
/// action it waited on, the next state and the next action.
pub fn ping_step(state: PingLoopState, event: PingEvent) -> (res: (PingLoopState, PingAction))
    requires
        expects(state, event),
    ensures
        res == next(state, event),
{
    match event {
        PingEvent::FlagRead(enabled) => if enabled {
            (PingLoopState::ReusingChannel, PingAction::ReuseExistingChannel)
        } else {
            (PingLoopState::Sleeping, PingAction::Sleep)
        },
        PingEvent::ExistingChannel(found) => if found {
            (PingLoopState::Pinging, PingAction::Ping)
        } else {
            (PingLoopState::CreatingChannel, PingAction::CreateChannel)
        },
        PingEvent::ChannelCreated(opened) => if opened {
            (PingLoopState::Pinging, PingAction::Ping)
        } else {
            (PingLoopState::ReportingError, PingAction::ReportCreateError)
        },
        PingEvent::PingFinished(outcome) => match outcome {
            PingTaskOutcome::Finished(PingResult::Success) => (PingLoopState::Sleeping, PingAction::Sleep),
            PingTaskOutcome::Finished(PingResult::Timeout) => (
                PingLoopState::DroppingChannel,
                PingAction::DropChannel(DropReason::PingTimeout),
            ),
            PingTaskOutcome::Panicked => (
                PingLoopState::DroppingChannel,
                PingAction::DropChannel(DropReason::PingPanic),
            ),
        },
        PingEvent::Done => match state {
            PingLoopState::Sleeping => (PingLoopState::CheckingFlag, PingAction::ReadFlag),
            _ => (PingLoopState::Sleeping, PingAction::Sleep),
        },
    }
}

} // verus!
