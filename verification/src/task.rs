//! The background task: one check, and where it finds an update, its
//! installation at once.

use crate::checker::{
    check_spec, CheckError, Fetched, FetchedView, UpdateChecker, UpdateDescriptor,
};
use crate::installer::{
    started, InstallError, InstallEvent, InstallState, Installer, Notification,
};
use crate::transcript::{notices_after, run_events, state_after};
use crate::version::VersionView;
use vstd::prelude::*;

verus! {

/// How the task ended.
#[derive(Clone, Copy, Debug, PartialEq, Eq, Structural)]
pub enum TaskOutcome {
    /// The advertised version is not newer than the running one.
    NoUpdate,
    /// The update that the check found was installed.
    Installed,
    /// The check failed; nothing was installed.
    CheckFailed(CheckError),
    /// An update was found, and its installation failed.
    InstallFailed(InstallError),
}

/// What the task does once the check is made.
#[derive(Debug, PartialEq, Eq)]
pub enum TaskStep {
    /// Drive this installer, which is started, to its end.
    Install(Installer),
    /// Stop with this outcome.
    Finish(TaskOutcome),
}

/// What the task came to.
#[derive(Clone, Debug, PartialEq, Eq)]
pub struct TaskReport {
    /// How the task ended; `None` if the events ended before the installation.
    pub outcome: Option<TaskOutcome>,
    /// What was reported during the installation, in order.
    pub notifications: Vec<Notification>,
}

/// How a task stands whose installation is in `state`.
pub open spec fn outcome_of_install(state: InstallState) -> Option<TaskOutcome> {
    match state {
        InstallState::Succeeded => Some(TaskOutcome::Installed),
        InstallState::Failed(reason) => Some(TaskOutcome::InstallFailed(reason)),
        _ => None,
    }
}

/// How a task ends that checks what was fetched for the running version
/// `current` and installs what it finds with these events.
pub open spec fn task_outcome(
    current: VersionView,
    fetched: FetchedView,
    events: Seq<InstallEvent>,
) -> Option<TaskOutcome> {
    match check_spec(current, fetched) {
        Err(error) => Some(TaskOutcome::CheckFailed(error)),
        Ok(None) => Some(TaskOutcome::NoUpdate),
        Ok(Some(update)) => outcome_of_install(state_after(update, started(), events)),
    }
}

/// What such a task reports on its way: nothing unless it installs.
pub open spec fn task_notices(
    current: VersionView,
    fetched: FetchedView,
    events: Seq<InstallEvent>,
) -> Seq<Notification> {
    match check_spec(current, fetched) {
        Ok(Some(update)) => notices_after(update, started(), events),
        _ => Seq::empty(),
    }
}

/// A task installs nothing but a version that is newer than the running one,
/// and reports nothing unless the check found an update.
pub proof fn task_installs_only_newer(
    current: VersionView,
    fetched: FetchedView,
    events: Seq<InstallEvent>,
)
    ensures
        task_outcome(current, fetched, events) == Some(TaskOutcome::Installed) ==> (check_spec(
            current,
            fetched,
        ) matches Ok(Some(update)) && update.version.newer_than(current)),
        !(check_spec(current, fetched) matches Ok(Some(_))) ==> task_notices(
            current,
            fetched,
            events,
        ) == Seq::<Notification>::empty(),
{
}

/// Decides what follows the check: an update is installed at once, anything
/// else ends the task.
pub fn after_check(found: Result<Option<UpdateDescriptor>, CheckError>) -> (step: TaskStep)
    ensures
        match found {
            Ok(Some(update)) => step matches TaskStep::Install(installer) && installer@.update
                == update@ && installer@.state == started(),
            Ok(None) => step == TaskStep::Finish(TaskOutcome::NoUpdate),
            Err(error) => step == TaskStep::Finish(TaskOutcome::CheckFailed(error)),
        },
{
    match found {
        Ok(Some(update)) => {
            let mut installer = Installer::new(update);
            installer.start();
            TaskStep::Install(installer)
        },
        Ok(None) => TaskStep::Finish(TaskOutcome::NoUpdate),
        Err(error) => TaskStep::Finish(TaskOutcome::CheckFailed(error)),
    }
}

/// How the task stands with this installer: ended, if the installation has.
pub fn after_install(installer: &Installer) -> (outcome: Option<TaskOutcome>)
    ensures
        outcome == outcome_of_install(installer@.state),
{
    match installer.state() {
        InstallState::Succeeded => Some(TaskOutcome::Installed),
        InstallState::Failed(reason) => Some(TaskOutcome::InstallFailed(reason)),
        _ => None,
    }
}

/// Runs the task against a record of what the host observed: checks what was
/// fetched, and installs what the check finds with `events`.
pub fn run_task(checker: &UpdateChecker, fetched: Fetched, events: &Vec<InstallEvent>) -> (report:
    TaskReport)
    ensures
        report.outcome == task_outcome(checker.current@, fetched@, events@),
        report.notifications@ == task_notices(checker.current@, fetched@, events@),
{
    match after_check(checker.check(fetched)) {
        TaskStep::Install(mut installer) => {
            let notifications = run_events(&mut installer, events);
            TaskReport { outcome: after_install(&installer), notifications }
        },
        TaskStep::Finish(outcome) => TaskReport {
            outcome: Some(outcome),
            notifications: Vec::new(),
        },
    }
}

} // verus!
