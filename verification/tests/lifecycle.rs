use workflows::lifecycle::{advance, begin, finished, Action, Event, Intent, Settings, Stage};

const ASK: Settings = Settings { confirm_cloning: true, open_new_projects: true };
const QUIET: Settings = Settings { confirm_cloning: false, open_new_projects: false };

fn run(start: (Stage, Action), events: &[Event], settings: Settings) -> (Stage, Vec<Action>) {
    let mut stage = start.0;
    let mut actions = vec![start.1];
    for event in events {
        let next = advance(stage, *event, settings);
        stage = next.0;
        actions.push(next.1);
    }
    (stage, actions)
}

#[test]
fn nothing_selected_ends_at_once() {
    for intent in [Intent::Open, Intent::Delete, Intent::Create, Intent::CloneUrl] {
        assert_eq!(begin(intent, None, ASK), (Stage::Done, Action::Nothing));
    }
}

#[test]
fn local_project_is_opened_directly() {
    let (stage, actions) = run(begin(Intent::Open, Some(true), ASK), &[Event::Succeeded], ASK);
    assert_eq!(stage, Stage::Done);
    assert_eq!(actions, vec![Action::StartSession, Action::Nothing]);
}

#[test]
fn remote_project_is_confirmed_cloned_and_opened() {
    let (stage, actions) = run(
        begin(Intent::Open, Some(false), ASK),
        &[Event::Yes, Event::Chosen, Event::Succeeded, Event::Succeeded],
        ASK,
    );
    assert_eq!(stage, Stage::Done);
    assert_eq!(
        actions,
        vec![
            Action::ConfirmClone,
            Action::ChooseDestination,
            Action::CloneProject,
            Action::StartSession,
            Action::Nothing
        ]
    );
}

#[test]
fn declined_clone_ends_quietly() {
    let (stage, actions) = run(begin(Intent::Open, Some(false), ASK), &[Event::No], ASK);
    assert_eq!(stage, Stage::Done);
    assert_eq!(actions, vec![Action::ConfirmClone, Action::Nothing]);
}

#[test]
fn clone_without_confirmation_when_switched_off() {
    assert_eq!(
        begin(Intent::Open, Some(false), QUIET),
        (Stage::ChoosingDestination, Action::ChooseDestination)
    );
    assert_eq!(
        advance(Stage::ChoosingDestination, Event::NotChosen, QUIET),
        (Stage::Done, Action::Nothing)
    );
}

#[test]
fn failed_clone_starts_no_session() {
    let (stage, actions) = run(
        begin(Intent::Open, Some(false), QUIET),
        &[Event::Chosen, Event::Failed, Event::Succeeded],
        QUIET,
    );
    assert_eq!(stage, Stage::Failed);
    assert!(!actions.contains(&Action::StartSession));
    assert_eq!(actions[2], Action::ReportFailure);
    assert_eq!(actions[3], Action::Nothing);
}

#[test]
fn deletion_checks_asks_then_removes_config_then_root() {
    let (stage, actions) = run(
        begin(Intent::Delete, Some(true), ASK),
        &[Event::Succeeded, Event::Yes, Event::Succeeded, Event::Succeeded],
        ASK,
    );
    assert_eq!(stage, Stage::Done);
    assert_eq!(
        actions,
        vec![
            Action::RunChecks,
            Action::ConfirmDelete,
            Action::RemoveSessionConfig,
            Action::RemoveRoot,
            Action::ReportDeleted
        ]
    );
}

#[test]
fn declined_deletion_removes_nothing() {
    let (stage, actions) =
        run(begin(Intent::Delete, Some(true), ASK), &[Event::Succeeded, Event::No], ASK);
    assert_eq!(stage, Stage::Done);
    assert_eq!(actions, vec![Action::RunChecks, Action::ConfirmDelete, Action::Nothing]);
}

#[test]
fn failed_config_removal_keeps_the_root() {
    let (stage, actions) = run(
        begin(Intent::Delete, Some(true), ASK),
        &[Event::Succeeded, Event::Yes, Event::Failed, Event::Succeeded],
        ASK,
    );
    assert_eq!(stage, Stage::Failed);
    assert!(!actions.contains(&Action::RemoveRoot));
}

#[test]
fn unexpected_answer_ends_in_failure() {
    assert_eq!(
        advance(Stage::Checking, Event::Yes, ASK),
        (Stage::Failed, Action::ReportFailure)
    );
    assert_eq!(
        advance(Stage::ConfirmingDelete, Event::Succeeded, ASK),
        (Stage::Failed, Action::ReportFailure)
    );
}

#[test]
fn created_project_is_opened_when_configured() {
    let events = [Event::Chosen, Event::Succeeded, Event::Chosen, Event::Succeeded, Event::Succeeded];
    let (stage, actions) = run(begin(Intent::Create, Some(true), ASK), &events, ASK);
    assert_eq!(stage, Stage::Done);
    assert_eq!(
        actions,
        vec![
            Action::ChooseDestination,
            Action::CreateDirectory,
            Action::ChooseTemplate,
            Action::RunTemplate,
            Action::StartSession,
            Action::Nothing
        ]
    );
}

#[test]
fn created_project_is_reported_when_not_opened() {
    let events = [Event::Chosen, Event::Succeeded, Event::NotChosen];
    let (stage, actions) = run(begin(Intent::Create, Some(true), QUIET), &events, QUIET);
    assert_eq!(stage, Stage::Done);
    assert_eq!(actions.last(), Some(&Action::ReportCreated));
}

#[test]
fn cloned_url_is_opened() {
    let events = [Event::Chosen, Event::Succeeded, Event::Succeeded];
    let (stage, actions) = run(begin(Intent::CloneUrl, Some(false), ASK), &events, ASK);
    assert_eq!(stage, Stage::Done);
    assert_eq!(
        actions,
        vec![
            Action::ChooseDestination,
            Action::CloneProject,
            Action::StartSession,
            Action::Nothing
        ]
    );
}

#[test]
fn ended_lifecycle_stays_ended() {
    for event in [Event::Yes, Event::No, Event::Chosen, Event::NotChosen, Event::Succeeded, Event::Failed] {
        assert_eq!(advance(Stage::Done, event, ASK), (Stage::Done, Action::Nothing));
        assert_eq!(advance(Stage::Failed, event, ASK), (Stage::Failed, Action::Nothing));
    }
    assert!(finished(Stage::Done));
    assert!(finished(Stage::Failed));
    assert!(!finished(Stage::Checking));
    assert!(!finished(Stage::Starting));
}
