//! The update installer: a state machine that the host drives with what it
//! observed, and that answers with what to report.
//!
//! ```text
//! Idle -> Fetching -> Verifying -> Installing -> Succeeded
//!              \-> Failed   \-> Failed     \-> Failed
//! ```

use crate::checker::{DescriptorView, UpdateDescriptor};
use vstd::prelude::*;

verus! {

/// How far a transfer has come.
#[derive(Clone, Copy, Debug, PartialEq, Eq, Structural)]
pub struct DownloadProgress {
    /// The bytes transferred so far.
    pub transferred: u64,
    /// The length of the whole transfer in bytes, if the server advertised it.
    pub total: Option<u64>,
}

/// Why an installation failed.
#[derive(Clone, Copy, Debug, PartialEq, Eq, Structural)]
pub enum InstallError {
    /// The stream broke before its end.
    TransferInterrupted,
    /// A chunk could not be written to the staging location.
    StagingWriteFailed,
    /// The staged artifact does not have the descriptor's token.
    IntegrityMismatch,
    /// The platform refused to apply the artifact.
    PlatformRejected,
}

/// How an installation ended.
#[derive(Clone, Copy, Debug, PartialEq, Eq, Structural)]
pub enum InstallOutcome {
    /// The artifact is applied.
    Succeeded,
    /// The installation stopped for this reason.
    Failed(InstallError),
}

/// The stage that an installation is in.
#[derive(Clone, Copy, Debug, PartialEq, Eq, Structural)]
pub enum InstallState {
    /// Not started.
    Idle,
    /// Chunks are read and staged; `received` bytes have been so far.
    Fetching { received: u64 },
    /// The stream is at its end; the staged artifact's token is awaited.
    Verifying,
    /// The token matched; the platform applies the artifact.
    Installing,
    /// The artifact is applied.
    Succeeded,
    /// The installation stopped for this reason.
    Failed(InstallError),
}

/// What the host observed.
#[derive(Clone, Debug, PartialEq, Eq)]
pub enum InstallEvent {
    /// A chunk of `size` bytes was read and written to the staging location.
    /// `advertised` is the length of the whole transfer, if the server
    /// advertised one.
    ChunkStaged { size: u64, advertised: Option<u64> },
    /// The stream came to its end.
    StreamExhausted,
    /// The stream broke.
    TransferInterrupted,
    /// A chunk could not be written to the staging location.
    StagingWriteFailed,
    /// The integrity token of the staged artifact, computed by the host.
    ArtifactToken(String),
    /// The host's verifier held the staged artifact against the descriptor's
    /// token, and accepted it.
    ArtifactAccepted,
    /// The host's verifier held the staged artifact against the descriptor's
    /// token, and refused it.
    ArtifactRefused,
    /// The platform applied the artifact.
    PlatformInstalled,
    /// The platform refused the artifact.
    PlatformRejected,
}

/// What the host is to tell its listeners.
#[derive(Clone, Copy, Debug, PartialEq, Eq, Structural)]
pub enum Notification {
    /// For the progress callback.
    Progress(DownloadProgress),
    /// For the completion callback.
    DownloadComplete,
}

/// The work that the installer waits for.
#[derive(Clone, Copy, Debug, PartialEq, Eq, Structural)]
pub enum HostTask {
    /// Read the next chunk from the download location and stage it.
    FetchChunk,
    /// Compute the integrity token of the staged artifact.
    ComputeToken,
    /// Apply the staged artifact with the platform's installer.
    ApplyArtifact,
}

/// The sum of two byte counts, or the largest count where the sum is larger.
pub open spec fn capped_sum(a: u64, b: u64) -> u64 {
    if a + b > u64::MAX {
        u64::MAX
    } else {
        (a + b) as u64
    }
}

/// The state in which a started installation is before the first event.
pub open spec fn started() -> InstallState {
    InstallState::Fetching { received: 0 }
}

/// The state that follows `state` on `event`, for an installation of `update`.
///
/// An event that the stage does not wait for changes nothing.
pub open spec fn next_state(
    update: DescriptorView,
    state: InstallState,
    event: InstallEvent,
) -> InstallState {
    match state {
        InstallState::Fetching { received } => match event {
            InstallEvent::ChunkStaged { size, .. } => InstallState::Fetching {
                received: capped_sum(received, size),
            },
            InstallEvent::StreamExhausted => InstallState::Verifying,
            InstallEvent::TransferInterrupted => InstallState::Failed(
                InstallError::TransferInterrupted,
            ),
            InstallEvent::StagingWriteFailed => InstallState::Failed(
                InstallError::StagingWriteFailed,
            ),
            _ => state,
        },
        InstallState::Verifying => match event {
            InstallEvent::ArtifactToken(token) => if token@ == update.integrity {
                InstallState::Installing
            } else {
                InstallState::Failed(InstallError::IntegrityMismatch)
            },
            InstallEvent::ArtifactAccepted => InstallState::Installing,
            InstallEvent::ArtifactRefused => InstallState::Failed(InstallError::IntegrityMismatch),
            _ => state,
        },
        InstallState::Installing => match event {
            InstallEvent::PlatformInstalled => InstallState::Succeeded,
            InstallEvent::PlatformRejected => InstallState::Failed(InstallError::PlatformRejected),
            _ => state,
        },
        _ => state,
    }
}

/// What is to be reported when `event` arrives in `state`: after each staged
/// chunk the bytes so far, with the total that the server advertised, and the
/// completion when the stream ends.
pub open spec fn notice(update: DescriptorView, state: InstallState, event: InstallEvent) -> Option<
    Notification,
> {
    match state {
        InstallState::Fetching { received } => match event {
            InstallEvent::ChunkStaged { size, advertised } => Some(
                Notification::Progress(
                    DownloadProgress { transferred: capped_sum(received, size), total: advertised },
                ),
            ),
            InstallEvent::StreamExhausted => Some(Notification::DownloadComplete),
            _ => None,
        },
        _ => None,
    }
}

/// The work that is waited for in `state`.
pub open spec fn task_in(state: InstallState) -> Option<HostTask> {
    match state {
        InstallState::Fetching { .. } => Some(HostTask::FetchChunk),
        InstallState::Verifying => Some(HostTask::ComputeToken),
        InstallState::Installing => Some(HostTask::ApplyArtifact),
        _ => None,
    }
}

/// How an installation in `state` has ended, if it has.
pub open spec fn outcome_in(state: InstallState) -> Option<InstallOutcome> {
    match state {
        InstallState::Succeeded => Some(InstallOutcome::Succeeded),
        InstallState::Failed(reason) => Some(InstallOutcome::Failed(reason)),
        _ => None,
    }
}

/// What kind of error the host's work ended with.
#[derive(Clone, Copy, Debug, PartialEq, Eq, Structural)]
pub enum HostFault {
    /// A write to the staging location failed.
    Write,
    /// The verifier refused the staged artifact.
    Verification,
    /// Anything else.
    Other,
}

/// Why an installation in `state` fails when the host's work ends with
/// `fault`. While fetching, a failed write is that; any other fault is a
/// broken transfer. Once the stream is at its end, the verifier's fault is a
/// mismatch, and any other fault is the platform's. While installing, every
/// fault is the platform's.
pub open spec fn reason_of_failure(state: InstallState, fault: HostFault) -> InstallError {
    match state {
        InstallState::Verifying => if fault is Verification {
            InstallError::IntegrityMismatch
        } else {
            InstallError::PlatformRejected
        },
        InstallState::Installing => InstallError::PlatformRejected,
        _ => if fault is Write {
            InstallError::StagingWriteFailed
        } else {
            InstallError::TransferInterrupted
        },
    }
}

/// The events that record such a failure. A fault of the platform after the
/// stream's end says that the verifier had accepted the artifact.
pub open spec fn failure_events(state: InstallState, fault: HostFault) -> Seq<InstallEvent> {
    match state {
        InstallState::Fetching { .. } => if fault is Write {
            seq![InstallEvent::StagingWriteFailed]
        } else {
            seq![InstallEvent::TransferInterrupted]
        },
        InstallState::Verifying => if fault is Verification {
            seq![InstallEvent::ArtifactRefused]
        } else {
            seq![InstallEvent::ArtifactAccepted, InstallEvent::PlatformRejected]
        },
        InstallState::Installing => seq![InstallEvent::PlatformRejected],
        _ => Seq::empty(),
    }
}

/// The state in which such a failure leaves the installation: failed for its
/// reason if it was under way, and as it was if it had not started or had
/// ended.
pub open spec fn failed_from(state: InstallState, fault: HostFault) -> InstallState {
    if task_in(state) is Some {
        InstallState::Failed(reason_of_failure(state, fault))
    } else {
        state
    }
}

/// Why an installation in `state` fails when the host's work ends with
/// `fault`.
pub fn failure_reason(state: InstallState, fault: HostFault) -> (reason: InstallError)
    ensures
        reason == reason_of_failure(state, fault),
{
    match state {
        InstallState::Verifying => match fault {
            HostFault::Verification => InstallError::IntegrityMismatch,
            _ => InstallError::PlatformRejected,
        },
        InstallState::Installing => InstallError::PlatformRejected,
        _ => match fault {
            HostFault::Write => InstallError::StagingWriteFailed,
            _ => InstallError::TransferInterrupted,
        },
    }
}

/// An installation of one update.
#[derive(Debug, PartialEq, Eq)]
pub struct Installer {
    update: UpdateDescriptor,
    state: InstallState,
}

/// An installer as a mathematical value.
pub struct InstallerView {
    /// The update that is installed.
    pub update: DescriptorView,
    /// The stage that the installation is in.
    pub state: InstallState,
}

impl View for Installer {
    type V = InstallerView;

    closed spec fn view(&self) -> InstallerView {
        InstallerView { update: self.update@, state: self.state }
    }
}

impl Installer {
    /// Takes the update over. Nothing has started yet.
    pub fn new(update: UpdateDescriptor) -> (installer: Installer)
        ensures
            installer@.update == update@,
            installer@.state == InstallState::Idle,
    {
        Installer { update, state: InstallState::Idle }
    }

    /// Starts the installation: from `Idle` to `Fetching`, with nothing
    /// received. In any other state nothing changes.
    pub fn start(&mut self)
        ensures
            final(self)@.update == old(self)@.update,
            final(self)@.state == if old(self)@.state is Idle {
                started()
            } else {
                old(self)@.state
            },
    {
        if let InstallState::Idle = self.state {
            self.state = InstallState::Fetching { received: 0 };
        }
    }

    /// Takes one event: moves to the state that follows, and returns what is
    /// to be reported.
    pub fn handle(&mut self, event: &InstallEvent) -> (report: Option<Notification>)
        ensures
            final(self)@.update == old(self)@.update,
            final(self)@.state == next_state(old(self)@.update, old(self)@.state, *event),
            report == notice(old(self)@.update, old(self)@.state, *event),
    {
        match self.state {
            InstallState::Fetching { received } => match event {
                InstallEvent::ChunkStaged { size, advertised } => {
                    let transferred: u64 = received.saturating_add(*size);
                    self.state = InstallState::Fetching { received: transferred };
                    Some(
                        Notification::Progress(
                            DownloadProgress { transferred, total: *advertised },
                        ),
                    )
                },
                InstallEvent::StreamExhausted => {
                    self.state = InstallState::Verifying;
                    Some(Notification::DownloadComplete)
                },
                InstallEvent::TransferInterrupted => {
                    self.state = InstallState::Failed(InstallError::TransferInterrupted);
                    None
                },
                InstallEvent::StagingWriteFailed => {
                    self.state = InstallState::Failed(InstallError::StagingWriteFailed);
                    None
                },
                _ => None,
            },
            InstallState::Verifying => match event {
                InstallEvent::ArtifactToken(token) => {
                    if self.update.token_matches(token) {
                        self.state = InstallState::Installing;
                    } else {
                        self.state = InstallState::Failed(InstallError::IntegrityMismatch);
                    }
                    None
                },
                InstallEvent::ArtifactAccepted => {
                    self.state = InstallState::Installing;
                    None
                },
                InstallEvent::ArtifactRefused => {
                    self.state = InstallState::Failed(InstallError::IntegrityMismatch);
                    None
                },
                _ => None,
            },
            InstallState::Installing => match event {
                InstallEvent::PlatformInstalled => {
                    self.state = InstallState::Succeeded;
                    None
                },
                InstallEvent::PlatformRejected => {
                    self.state = InstallState::Failed(InstallError::PlatformRejected);
                    None
                },
                _ => None,
            },
            _ => None,
        }
    }

    /// Records that the host's work ended with `fault`: takes the events that
    /// say so, and so fails an installation that is under way.
    pub fn record_failure(&mut self, fault: HostFault)
        ensures
            final(self)@.update == old(self)@.update,
            final(self)@.state == failed_from(old(self)@.state, fault),
    {
        match self.state {
            InstallState::Fetching { .. } => {
                match fault {
                    HostFault::Write => {
                        self.handle(&InstallEvent::StagingWriteFailed);
                    },
                    _ => {
                        self.handle(&InstallEvent::TransferInterrupted);
                    },
                }
            },
            InstallState::Verifying => {
                match fault {
                    HostFault::Verification => {
                        self.handle(&InstallEvent::ArtifactRefused);
                    },
                    _ => {
                        self.handle(&InstallEvent::ArtifactAccepted);
                        self.handle(&InstallEvent::PlatformRejected);
                    },
                }
            },
            InstallState::Installing => {
                self.handle(&InstallEvent::PlatformRejected);
            },
            _ => {},
        }
    }

    /// The stage that the installation is in.
    pub fn state(&self) -> (state: InstallState)
        ensures
            state == self@.state,
    {
        self.state
    }

    /// The update that is installed.
    pub fn update(&self) -> (update: &UpdateDescriptor)
        ensures
            update@ == self@.update,
    {
        &self.update
    }

    /// The work that the installer waits for, if it waits for any.
    pub fn pending(&self) -> (task: Option<HostTask>)
        ensures
            task == task_in(self@.state),
    {
        match self.state {
            InstallState::Fetching { .. } => Some(HostTask::FetchChunk),
            InstallState::Verifying => Some(HostTask::ComputeToken),
            InstallState::Installing => Some(HostTask::ApplyArtifact),
            _ => None,
        }
    }

    /// How the installation ended, if it has ended.
    pub fn outcome(&self) -> (outcome: Option<InstallOutcome>)
        ensures
            outcome == outcome_in(self@.state),
    {
        match self.state {
            InstallState::Succeeded => Some(InstallOutcome::Succeeded),
            InstallState::Failed(reason) => Some(InstallOutcome::Failed(reason)),
            _ => None,
        }
    }
}

} // verus!
