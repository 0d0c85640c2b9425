//! The lifecycle of one invocation: which step follows which.
//!
//! The caller performs each action (asking the user, cloning, removing a
//! directory, starting a session) and reports how it went; the functions
//! here decide what comes next. One invocation performs one lifecycle and
//! ends in [`Stage::Done`] or [`Stage::Failed`].

use vstd::prelude::*;

verus! {

/// What the invocation is meant to do.
#[derive(Clone, Copy, Debug, PartialEq, Eq, Structural)]
pub enum Intent {
    /// Open the selected project, cloning it first if it is remote.
    Open,
    /// Delete the selected project.
    Delete,
    /// Create a new project.
    Create,
    /// Clone a project from a URL and open it.
    CloneUrl,
}

/// The preferences that the lifecycle depends on.
#[derive(Clone, Copy, Debug, PartialEq, Eq, Structural)]
pub struct Settings {
    /// Whether the user is asked before a remote project is cloned.
    pub confirm_cloning: bool,
    /// Whether a project is opened right after it is created.
    pub open_new_projects: bool,
}

/// Where a lifecycle stands: what the caller is doing at the moment.
#[derive(Clone, Copy, Debug, PartialEq, Eq, Structural)]
pub enum Stage {
    /// Asking whether the remote project may be cloned.
    ConfirmingClone,
    /// Choosing the directory to clone into.
    ChoosingDestination,
    /// Cloning.
    Cloning,
    /// Running the checks that precede a deletion.
    Checking,
    /// Asking whether the project may be deleted.
    ConfirmingDelete,
    /// Removing the session manager's configuration of the project.
    RemovingConfig,
    /// Removing the project's root directory.
    RemovingRoot,
    /// Choosing the directory to create the project in.
    ChoosingCreateDir,
    /// Creating the project's directory.
    CreatingDirectory,
    /// Choosing a template.
    ChoosingTemplate,
    /// Running the commands of the chosen template.
    RunningTemplate,
    /// Running the session.
    Starting,
    /// Finished.
    Done,
    /// Ended by a failure.
    Failed,
}

/// What the caller reports of the action it performed.
#[derive(Clone, Copy, Debug, PartialEq, Eq, Structural)]
pub enum Event {
    /// The user agreed.
    Yes,
    /// The user declined.
    No,
    /// A choice was made.
    Chosen,
    /// Nothing was chosen, or there was nothing to choose from.
    NotChosen,
    /// The action succeeded.
    Succeeded,
    /// The action failed.
    Failed,
}

/// What the caller is to do next.
#[derive(Clone, Copy, Debug, PartialEq, Eq, Structural)]
pub enum Action {
    /// Nothing.
    Nothing,
    /// Ask whether the remote project may be cloned.
    ConfirmClone,
    /// Choose the directory to clone into or to create the project in.
    ChooseDestination,
    /// Clone the project into the chosen directory.
    CloneProject,
    /// Start the session of the project, whose root is materialised.
    StartSession,
    /// Run the checks that are switched on and show their outcome.
    RunChecks,
    /// Ask, naming the project, whether it may be deleted.
    ConfirmDelete,
    /// Remove the session manager's configuration of the project.
    RemoveSessionConfig,
    /// Remove the project's root directory with all it holds.
    RemoveRoot,
    /// Report that the project was deleted.
    ReportDeleted,
    /// Create the project's directory and any missing parent.
    CreateDirectory,
    /// Offer the templates.
    ChooseTemplate,
    /// Run the commands of the chosen template in the new directory.
    RunTemplate,
    /// Report that the project was created.
    ReportCreated,
    /// Report the failure and end.
    ReportFailure,
}

/// How a lifecycle begins. `selected` tells whether there is a project to
/// act on (a selection, a name or a URL), and if so whether it is local.
pub open spec fn begin_spec(intent: Intent, selected: Option<bool>, settings: Settings) -> (
    Stage,
    Action,
) {
    match (intent, selected) {
        (_, None) => (Stage::Done, Action::Nothing),
        (Intent::Open, Some(true)) => (Stage::Starting, Action::StartSession),
        (Intent::Open, Some(false)) => if settings.confirm_cloning {
            (Stage::ConfirmingClone, Action::ConfirmClone)
        } else {
            (Stage::ChoosingDestination, Action::ChooseDestination)
        },
        (Intent::Delete, Some(_)) => (Stage::Checking, Action::RunChecks),
        (Intent::Create, Some(_)) => (Stage::ChoosingCreateDir, Action::ChooseDestination),
        (Intent::CloneUrl, Some(_)) => (Stage::ChoosingDestination, Action::ChooseDestination),
    }
}

/// What follows once a project has been created.
pub open spec fn after_creation(settings: Settings) -> (Stage, Action) {
    if settings.open_new_projects {
        (Stage::Starting, Action::StartSession)
    } else {
        (Stage::Done, Action::ReportCreated)
    }
}

/// The stage and the action that follow when `event` is reported at `stage`.
/// A failure ends the lifecycle, and so does an event that does not answer
/// the stage's action.
pub open spec fn advance_spec(stage: Stage, event: Event, settings: Settings) -> (Stage, Action) {
    match (stage, event) {
        (Stage::Done, _) => (Stage::Done, Action::Nothing),
        (Stage::Failed, _) => (Stage::Failed, Action::Nothing),
        (Stage::ConfirmingClone, Event::Yes) => (
            Stage::ChoosingDestination,
            Action::ChooseDestination,
        ),
        (Stage::ConfirmingClone, Event::No) => (Stage::Done, Action::Nothing),
        (Stage::ChoosingDestination, Event::Chosen) => (Stage::Cloning, Action::CloneProject),
        (Stage::ChoosingDestination, Event::NotChosen) => (Stage::Done, Action::Nothing),
        (Stage::Cloning, Event::Succeeded) => (Stage::Starting, Action::StartSession),
        (Stage::Checking, Event::Succeeded) => (Stage::ConfirmingDelete, Action::ConfirmDelete),
        (Stage::ConfirmingDelete, Event::Yes) => (
            Stage::RemovingConfig,
            Action::RemoveSessionConfig,
        ),
        (Stage::ConfirmingDelete, Event::No) => (Stage::Done, Action::Nothing),
        (Stage::RemovingConfig, Event::Succeeded) => (Stage::RemovingRoot, Action::RemoveRoot),
        (Stage::RemovingRoot, Event::Succeeded) => (Stage::Done, Action::ReportDeleted),
        (Stage::ChoosingCreateDir, Event::Chosen) => (
            Stage::CreatingDirectory,
            Action::CreateDirectory,
        ),
        (Stage::ChoosingCreateDir, Event::NotChosen) => (Stage::Done, Action::Nothing),
        (Stage::CreatingDirectory, Event::Succeeded) => (
            Stage::ChoosingTemplate,
            Action::ChooseTemplate,
        ),
        (Stage::ChoosingTemplate, Event::Chosen) => (Stage::RunningTemplate, Action::RunTemplate),
        (Stage::ChoosingTemplate, Event::NotChosen) => after_creation(settings),
        (Stage::RunningTemplate, Event::Succeeded) => after_creation(settings),
        (Stage::Starting, Event::Succeeded) => (Stage::Done, Action::Nothing),
        (_, _) => (Stage::Failed, Action::ReportFailure),
    }
}

/// The stage reached from `start` after the events `events`, in order.
pub open spec fn stage_after(start: Stage, events: Seq<Event>, settings: Settings) -> Stage
    decreases events.len(),
{
    if events.len() == 0 {
        start
    } else {
        advance_spec(stage_after(start, events.drop_last(), settings), events.last(), settings).0
    }
}

/// The action asked for when event number `k` of `events` is reported.
pub open spec fn action_at(start: Stage, events: Seq<Event>, k: int, settings: Settings) -> Action {
    advance_spec(stage_after(start, events.take(k), settings), events[k], settings).1
}

/// Begins a lifecycle: the first stage and the first action.
pub fn begin(intent: Intent, selected: Option<bool>, settings: Settings) -> (next: (Stage, Action))
    ensures
        next == begin_spec(intent, selected, settings),
{
    match (intent, selected) {
        (_, None) => (Stage::Done, Action::Nothing),
        (Intent::Open, Some(true)) => (Stage::Starting, Action::StartSession),
        (Intent::Open, Some(false)) => if settings.confirm_cloning {
            (Stage::ConfirmingClone, Action::ConfirmClone)
        } else {
            (Stage::ChoosingDestination, Action::ChooseDestination)
        },
        (Intent::Delete, Some(_)) => (Stage::Checking, Action::RunChecks),
        (Intent::Create, Some(_)) => (Stage::ChoosingCreateDir, Action::ChooseDestination),
        (Intent::CloneUrl, Some(_)) => (Stage::ChoosingDestination, Action::ChooseDestination),
    }
}

/// Advances a lifecycle by one reported event.
pub fn advance(stage: Stage, event: Event, settings: Settings) -> (next: (Stage, Action))
    ensures
        next == advance_spec(stage, event, settings),
{
    let created = if settings.open_new_projects {
        (Stage::Starting, Action::StartSession)
    } else {
        (Stage::Done, Action::ReportCreated)
    };
    match (stage, event) {
        (Stage::Done, _) => (Stage::Done, Action::Nothing),
        (Stage::Failed, _) => (Stage::Failed, Action::Nothing),
        (Stage::ConfirmingClone, Event::Yes) => (
            Stage::ChoosingDestination,
            Action::ChooseDestination,
        ),
        (Stage::ConfirmingClone, Event::No) => (Stage::Done, Action::Nothing),
        (Stage::ChoosingDestination, Event::Chosen) => (Stage::Cloning, Action::CloneProject),
        (Stage::ChoosingDestination, Event::NotChosen) => (Stage::Done, Action::Nothing),
        (Stage::Cloning, Event::Succeeded) => (Stage::Starting, Action::StartSession),
        (Stage::Checking, Event::Succeeded) => (Stage::ConfirmingDelete, Action::ConfirmDelete),
        (Stage::ConfirmingDelete, Event::Yes) => (
            Stage::RemovingConfig,
            Action::RemoveSessionConfig,
        ),
        (Stage::ConfirmingDelete, Event::No) => (Stage::Done, Action::Nothing),
        (Stage::RemovingConfig, Event::Succeeded) => (Stage::RemovingRoot, Action::RemoveRoot),
        (Stage::RemovingRoot, Event::Succeeded) => (Stage::Done, Action::ReportDeleted),
        (Stage::ChoosingCreateDir, Event::Chosen) => (
            Stage::CreatingDirectory,
            Action::CreateDirectory,
        ),
        (Stage::ChoosingCreateDir, Event::NotChosen) => (Stage::Done, Action::Nothing),
        (Stage::CreatingDirectory, Event::Succeeded) => (
            Stage::ChoosingTemplate,
            Action::ChooseTemplate,
        ),
        (Stage::ChoosingTemplate, Event::Chosen) => (Stage::RunningTemplate, Action::RunTemplate),
        (Stage::ChoosingTemplate, Event::NotChosen) => created,
        (Stage::RunningTemplate, Event::Succeeded) => created,
        (Stage::Starting, Event::Succeeded) => (Stage::Done, Action::Nothing),
        (_, _) => (Stage::Failed, Action::ReportFailure),
    }
}

/// Whether a lifecycle has ended.
pub fn finished(stage: Stage) -> (ended: bool)
    ensures
        ended == (stage == Stage::Done || stage == Stage::Failed),
{
    match stage {
        Stage::Done => true,
        Stage::Failed => true,
        _ => false,
    }
}

/// The stage before the last event of a non-empty run.
proof fn lemma_stage_unfold(start: Stage, events: Seq<Event>, k: int, settings: Settings)
    requires
        0 < k <= events.len(),
    ensures
        stage_after(start, events.take(k), settings) == advance_spec(
            stage_after(start, events.take(k - 1), settings),
            events[k - 1],
            settings,
        ).0,
{
    assert(events.take(k).drop_last() =~= events.take(k - 1));
    assert(events.take(k).last() == events[k - 1]);
}

/// A lifecycle that has ended stays ended and asks for nothing more.
pub proof fn law_ended_stays_ended(stage: Stage, event: Event, settings: Settings)
    requires
        stage == Stage::Done || stage == Stage::Failed,
    ensures
        advance_spec(stage, event, settings) == (stage, Action::Nothing),
{
}

/// Nothing is removed without consent, and the root goes last: in a
/// deletion, whatever is reported, the root directory is removed only right
/// after the session configuration was removed with success, and that only
/// right after the user agreed to the deletion, which is asked only after
/// the checks have run.
pub proof fn law_delete_order(events: Seq<Event>, k: int, settings: Settings)
    requires
        0 <= k < events.len(),
    ensures
        action_at(Stage::Checking, events, k, settings) == Action::RemoveSessionConfig ==> k >= 1
            && events[k] == Event::Yes && events[k - 1] == Event::Succeeded && action_at(
            Stage::Checking,
            events,
            k - 1,
            settings,
        ) == Action::ConfirmDelete,
        action_at(Stage::Checking, events, k, settings) == Action::RemoveRoot ==> k >= 2
            && events[k] == Event::Succeeded && action_at(Stage::Checking, events, k - 1, settings)
            == Action::RemoveSessionConfig,
{
    let start = Stage::Checking;
    lemma_delete_stages(events, k, settings);
    if k >= 1 {
        lemma_stage_unfold(start, events, k, settings);
        lemma_delete_stages(events, k - 1, settings);
        if k >= 2 {
            lemma_stage_unfold(start, events, k - 1, settings);
            lemma_delete_stages(events, k - 2, settings);
        }
    }
}

/// The stages that a deletion can be in.
pub open spec fn delete_stage(stage: Stage) -> bool {
    stage == Stage::Checking || stage == Stage::ConfirmingDelete || stage == Stage::RemovingConfig
        || stage == Stage::RemovingRoot || stage == Stage::Done || stage == Stage::Failed
}

/// A deletion never leaves the stages of a deletion, and it is at its
/// first stage only before any event.
proof fn lemma_delete_stages(events: Seq<Event>, k: int, settings: Settings)
    requires
        0 <= k <= events.len(),
    ensures
        delete_stage(stage_after(Stage::Checking, events.take(k), settings)),
        k > 0 ==> stage_after(Stage::Checking, events.take(k), settings) != Stage::Checking,
    decreases k,
{
    if k > 0 {
        lemma_delete_stages(events, k - 1, settings);
        lemma_stage_unfold(Stage::Checking, events, k, settings);
    }
}

/// The stages that opening a remote project can be in.
pub open spec fn open_stage(stage: Stage) -> bool {
    stage == Stage::ConfirmingClone || stage == Stage::ChoosingDestination || stage
        == Stage::Cloning || stage == Stage::Starting || stage == Stage::Done || stage
        == Stage::Failed
}

/// Opening a remote project never leaves the stages of opening.
proof fn lemma_open_stages(start: Stage, events: Seq<Event>, k: int, settings: Settings)
    requires
        0 <= k <= events.len(),
        start == Stage::ConfirmingClone || start == Stage::ChoosingDestination,
    ensures
        open_stage(stage_after(start, events.take(k), settings)),
        k == 0 ==> stage_after(start, events.take(k), settings) == start,
    decreases k,
{
    if k > 0 {
        lemma_open_stages(start, events, k - 1, settings);
        lemma_stage_unfold(start, events, k, settings);
    }
}

/// A remote project is cloned before its session starts: when a project
/// that is not local is opened, whatever is reported, the session is started
/// only right after the clone succeeded.
pub proof fn law_open_clones_first(start: Stage, events: Seq<Event>, k: int, settings: Settings)
    requires
        0 <= k < events.len(),
        start == Stage::ConfirmingClone || start == Stage::ChoosingDestination,
    ensures
        action_at(start, events, k, settings) == Action::StartSession ==> k >= 1 && events[k]
            == Event::Succeeded && action_at(start, events, k - 1, settings)
            == Action::CloneProject,
{
    lemma_open_stages(start, events, k, settings);
    if k >= 1 {
        lemma_stage_unfold(start, events, k, settings);
        lemma_open_stages(start, events, k - 1, settings);
    }
}

} // verus!
