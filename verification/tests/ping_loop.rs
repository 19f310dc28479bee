use beevulyk_grpc_extensions::channel_pool::{
    accepts, ping_loop_start, ping_step, DropReason, PingAction, PingEvent, PingLoopState,
    PingResult, PingTaskOutcome,
};

fn drive(events: Vec<PingEvent>) -> Vec<PingAction> {
    let (mut state, first) = ping_loop_start();
    let mut actions = vec![first];
    for event in events {
        assert!(accepts(&state, &event));
        let (next, action) = ping_step(state, event);
        state = next;
        actions.push(action);
    }
    actions
}

fn is_drop(action: &PingAction, reason: &str) -> bool {
    match action {
        PingAction::DropChannel(r) => r.message() == reason,
        _ => false,
    }
}

#[test]
fn loop_starts_by_reading_the_flag() {
    let (state, action) = ping_loop_start();
    assert!(matches!(state, PingLoopState::CheckingFlag));
    assert!(matches!(action, PingAction::ReadFlag));
}

#[test]
fn disabled_loop_only_sleeps() {
    let actions = drive(vec![
        PingEvent::FlagRead(false),
        PingEvent::Done,
        PingEvent::FlagRead(false),
        PingEvent::Done,
    ]);
    assert_eq!(actions.len(), 5);
    for action in &actions {
        assert!(matches!(action, PingAction::ReadFlag | PingAction::Sleep));
    }
    assert!(matches!(actions[1], PingAction::Sleep));
    assert!(matches!(actions[2], PingAction::ReadFlag));
}

#[test]
fn held_channel_is_pinged_then_loop_sleeps() {
    let actions = drive(vec![
        PingEvent::FlagRead(true),
        PingEvent::ExistingChannel(true),
        PingEvent::PingFinished(PingTaskOutcome::Finished(PingResult::Success)),
        PingEvent::Done,
    ]);
    assert!(matches!(actions[1], PingAction::ReuseExistingChannel));
    assert!(matches!(actions[2], PingAction::Ping));
    assert!(matches!(actions[3], PingAction::Sleep));
    assert!(matches!(actions[4], PingAction::ReadFlag));
}

#[test]
fn missing_channel_is_created_then_pinged() {
    let actions = drive(vec![
        PingEvent::FlagRead(true),
        PingEvent::ExistingChannel(false),
        PingEvent::ChannelCreated(true),
    ]);
    assert!(matches!(actions[2], PingAction::CreateChannel));
    assert!(matches!(actions[3], PingAction::Ping));
}

#[test]
fn failed_creation_is_reported_then_loop_sleeps() {
    let actions = drive(vec![
        PingEvent::FlagRead(true),
        PingEvent::ExistingChannel(false),
        PingEvent::ChannelCreated(false),
        PingEvent::Done,
    ]);
    assert!(matches!(actions[3], PingAction::ReportCreateError));
    assert!(matches!(actions[4], PingAction::Sleep));
}

#[test]
fn ping_timeout_drops_the_channel() {
    let actions = drive(vec![
        PingEvent::FlagRead(true),
        PingEvent::ExistingChannel(true),
        PingEvent::PingFinished(PingTaskOutcome::Finished(PingResult::Timeout)),
        PingEvent::Done,
    ]);
    assert!(is_drop(&actions[3], "Ping Timeout"));
    assert!(matches!(actions[4], PingAction::Sleep));
}

#[test]
fn ping_panic_drops_the_channel() {
    let actions = drive(vec![
        PingEvent::FlagRead(true),
        PingEvent::ExistingChannel(true),
        PingEvent::PingFinished(PingTaskOutcome::Panicked),
    ]);
    assert!(is_drop(&actions[3], "Ping Panic"));
}

#[test]
fn drop_reason_messages() {
    assert_eq!(DropReason::PingTimeout.message(), "Ping Timeout");
    assert_eq!(DropReason::PingPanic.message(), "Ping Panic");
}

#[test]
fn unexpected_event_is_not_accepted() {
    assert!(!accepts(&PingLoopState::CheckingFlag, &PingEvent::Done));
    assert!(!accepts(&PingLoopState::Pinging, &PingEvent::FlagRead(true)));
    assert!(accepts(&PingLoopState::Sleeping, &PingEvent::Done));
}

#[test]
fn every_round_sleeps_once() {
    let actions = drive(vec![
        PingEvent::FlagRead(true),
        PingEvent::ExistingChannel(true),
        PingEvent::PingFinished(PingTaskOutcome::Finished(PingResult::Timeout)),
        PingEvent::Done,
        PingEvent::Done,
        PingEvent::FlagRead(false),
        PingEvent::Done,
    ]);
    let paced: Vec<bool> = actions
        .iter()
        .filter(|a| matches!(a, PingAction::Sleep | PingAction::ReadFlag))
        .map(|a| matches!(a, PingAction::Sleep))
        .collect();
    assert_eq!(paced, vec![false, true, false, true, false]);
}

#[test]
fn dropped_channel_is_reopened_next_round() {
    let actions = drive(vec![
        PingEvent::FlagRead(true),
        PingEvent::ExistingChannel(true),
        PingEvent::PingFinished(PingTaskOutcome::Panicked),
        PingEvent::Done,
        PingEvent::Done,
        PingEvent::FlagRead(true),
        PingEvent::ExistingChannel(false),
    ]);
    assert!(matches!(actions[4], PingAction::Sleep));
    assert!(matches!(actions[5], PingAction::ReadFlag));
    assert!(matches!(actions[6], PingAction::ReuseExistingChannel));
    assert!(matches!(actions[7], PingAction::CreateChannel));
}
