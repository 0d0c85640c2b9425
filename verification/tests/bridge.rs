use workflows::bridge::{
    bridge_begin, bridge_finished, bridge_step, offers_remote, BridgeAction, BridgeStage,
};
use workflows::lifecycle::Event;

fn run(events: &[Event], with_remote: bool) -> (BridgeStage, Vec<BridgeAction>) {
    let (mut stage, first) = bridge_begin();
    let mut actions = vec![first];
    for event in events {
        let next = bridge_step(stage, *event, with_remote);
        stage = next.0;
        actions.push(next.1);
    }
    (stage, actions)
}

#[test]
fn remote_projects_are_offered_when_enabled_and_wanted() {
    assert!(offers_remote(true, false));
    assert!(!offers_remote(true, true));
    assert!(!offers_remote(false, false));
    assert!(!offers_remote(false, true));
}

#[test]
fn local_labels_are_written_before_remote_ones() {
    let all_well = [Event::Succeeded; 5];
    let (stage, actions) = run(&all_well, true);
    assert_eq!(stage, BridgeStage::Finished);
    assert_eq!(
        actions,
        vec![
            BridgeAction::Spawn,
            BridgeAction::WriteLocal,
            BridgeAction::FetchRemote,
            BridgeAction::WriteRemote,
            BridgeAction::AwaitAnswer,
            BridgeAction::Resolve
        ]
    );
}

#[test]
fn local_only_selection_fetches_nothing() {
    let (stage, actions) = run(&[Event::Succeeded; 3], false);
    assert_eq!(stage, BridgeStage::Finished);
    assert_eq!(
        actions,
        vec![
            BridgeAction::Spawn,
            BridgeAction::WriteLocal,
            BridgeAction::AwaitAnswer,
            BridgeAction::Resolve
        ]
    );
}

#[test]
fn late_remote_write_is_dropped() {
    let events =
        [Event::Succeeded, Event::Succeeded, Event::Succeeded, Event::Failed, Event::Succeeded];
    let (stage, actions) = run(&events, true);
    assert_eq!(stage, BridgeStage::Finished);
    assert_eq!(actions[4], BridgeAction::AwaitAnswer);
    assert_eq!(actions[5], BridgeAction::Resolve);
}

#[test]
fn failed_remote_listing_is_passed_over() {
    let events =
        [Event::Succeeded, Event::Succeeded, Event::Failed, Event::Succeeded, Event::Succeeded];
    let (stage, actions) = run(&events, true);
    assert_eq!(stage, BridgeStage::Finished);
    assert_eq!(actions[3], BridgeAction::WriteRemote);
}

#[test]
fn failed_start_or_local_write_ends_the_handshake() {
    let (stage, actions) = run(&[Event::Failed, Event::Succeeded], true);
    assert_eq!(stage, BridgeStage::Failed);
    assert_eq!(actions, vec![BridgeAction::Spawn, BridgeAction::ReportFailure, BridgeAction::Nothing]);
    let (stage, actions) = run(&[Event::Succeeded, Event::Failed], true);
    assert_eq!(stage, BridgeStage::Failed);
    assert!(!actions.contains(&BridgeAction::WriteRemote));
    let (stage, _) = run(&[Event::Succeeded, Event::Succeeded, Event::Failed], false);
    assert_eq!(stage, BridgeStage::Failed);
}

#[test]
fn ended_handshake_stays_ended() {
    assert!(bridge_finished(BridgeStage::Finished));
    assert!(bridge_finished(BridgeStage::Failed));
    assert!(!bridge_finished(BridgeStage::Awaiting));
    assert_eq!(
        bridge_step(BridgeStage::Finished, Event::Failed, true),
        (BridgeStage::Finished, BridgeAction::Nothing)
    );
    assert_eq!(
        bridge_step(BridgeStage::Failed, Event::Succeeded, true),
        (BridgeStage::Failed, BridgeAction::Nothing)
    );
    assert_eq!(
        bridge_step(BridgeStage::Spawning, Event::Yes, true),
        (BridgeStage::Failed, BridgeAction::ReportFailure)
    );
}
