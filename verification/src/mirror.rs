//! The synchronisation of one bare mirror: a repository that is not there
//! yet is cloned, one that is there is fetched.
//!
//! The library decides, the caller acts: [`clone_or_fetch_bare`] takes the
//! state of the synchronisation and what the last step brought, and answers
//! with the next state and the next action.

use vstd::prelude::*;
use crate::errors::{status_kind, status_kind_of, ErrorKind, Fault};

verus! {

/// The name of the remote that a mirror fetches from.
pub const ORIGIN: &'static str = "origin";

/// How a synchronisation ended.
#[derive(Clone, Copy, Debug, PartialEq, Eq, Structural)]
pub enum SyncOutcome {
    /// The mirror was not there; it was created and filled.
    Cloned,
    /// The mirror was there; it was brought up to date.
    Fetched,
    /// The mirror is not there; nothing was done.
    WouldClone,
    /// The mirror is there; nothing was done.
    WouldFetch,
}

/// One thing that the caller does for a synchronisation.
#[derive(Clone, Copy, Debug, PartialEq, Eq, Structural)]
pub enum SyncStep {
    /// Look whether the mirror's directory is there.
    Probe,
    /// Create the mirror's directory and those above it.
    CreateDirAll,
    /// Make a bare repository in the directory.
    InitBare,
    /// Give the repository the remote [`ORIGIN`] with the target's address.
    AddOrigin,
    /// Open the bare repository in the directory.
    OpenBare,
    /// Find the remote [`ORIGIN`] and fetch all that it offers.
    FetchOrigin,
}

/// Why a synchronisation ended without the mirror up to date.
#[derive(Clone, Copy, Debug, PartialEq, Eq, Structural)]
pub struct SyncError {
    /// The step that failed.
    pub step: SyncStep,
    pub kind: ErrorKind,
}

/// Where a synchronisation stands. Each state but the first and the last
/// waits for what one step brings.
#[derive(Clone, Copy, Debug, PartialEq, Eq, Structural)]
pub enum Sync {
    /// Nothing has been done yet.
    Idle { dry_run: bool },
    /// The directory is being looked for.
    Probing { dry_run: bool },
    /// The directory is being created.
    Creating,
    /// The bare repository is being made.
    Initializing,
    /// The remote is being attached.
    AddingOrigin,
    /// The bare repository is being opened.
    Opening,
    /// The remote is being fetched from, for a new mirror or an old one.
    Fetching { cloning: bool },
    /// The synchronisation has ended.
    Finished,
}

/// What a step brought.
#[derive(Clone, Copy, Debug, PartialEq, Eq, Structural)]
pub enum SyncEvent {
    /// The synchronisation is to begin.
    Started,
    /// Whether the mirror's directory is there.
    Exists(bool),
    /// The step was carried out.
    Completed,
    /// The step failed.
    Failed(Fault),
}

/// What the caller is to do next.
#[derive(Clone, Copy, Debug, PartialEq, Eq)]
pub enum SyncAction {
    /// Carry out this step and report what it brought.
    Perform(SyncStep),
    /// Stop; the synchronisation has ended as given.
    Finish(Result<SyncOutcome, SyncError>),
}

/// Whether a step changes anything on disk.
pub open spec fn writes_to_disk(step: SyncStep) -> bool {
    step is CreateDirAll || step is InitBare || step is AddOrigin || step is FetchOrigin
}

/// Whether a step talks to the remote.
pub open spec fn uses_network(step: SyncStep) -> bool {
    step is FetchOrigin
}

/// Whether a step belongs to the making of a new mirror alone.
pub open spec fn clones(step: SyncStep) -> bool {
    step is CreateDirAll || step is InitBare || step is AddOrigin
}

/// The end of a synchronisation in a failure.
pub open spec fn sync_failed(step: SyncStep, kind: ErrorKind) -> (Sync, SyncAction) {
    (Sync::Finished, SyncAction::Finish(Err(SyncError { step, kind })))
}

/// The kind of failure that a failed fetch stands for.
pub open spec fn fetch_failure(fault: Fault) -> ErrorKind {
    match fault {
        Fault::Transport => ErrorKind::Transport,
        Fault::Auth => ErrorKind::Auth,
        Fault::Status(status) => status_kind(status),
        _ => ErrorKind::RepositoryState,
    }
}

/// The step that a state waits for; for the first and the last state, the
/// first step.
pub open spec fn step_of(state: Sync) -> SyncStep {
    match state {
        Sync::Idle { .. } | Sync::Probing { .. } | Sync::Finished => SyncStep::Probe,
        Sync::Creating => SyncStep::CreateDirAll,
        Sync::Initializing => SyncStep::InitBare,
        Sync::AddingOrigin => SyncStep::AddOrigin,
        Sync::Opening => SyncStep::OpenBare,
        Sync::Fetching { .. } => SyncStep::FetchOrigin,
    }
}

/// One step of a synchronisation: the state and the action that follow
/// `state` once `event` has arrived.
///
/// The directory is looked for first. A dry run ends there and says what
/// would be done. Otherwise a mirror that is not there is created, made a
/// bare repository, given its remote and fetched; one that is there is
/// opened and fetched. The first step that fails ends the synchronisation,
/// and so does an event that the state does not wait for, as a protocol
/// failure.
pub open spec fn sync_step(state: Sync, event: SyncEvent) -> (Sync, SyncAction) {
    match (state, event) {
        (Sync::Idle { dry_run }, SyncEvent::Started) => (
            Sync::Probing { dry_run },
            SyncAction::Perform(SyncStep::Probe),
        ),
        (Sync::Probing { dry_run }, SyncEvent::Exists(exists)) => if dry_run {
            (
                Sync::Finished,
                SyncAction::Finish(
                    Ok(
                        if exists {
                            SyncOutcome::WouldFetch
                        } else {
                            SyncOutcome::WouldClone
                        },
                    ),
                ),
            )
        } else if exists {
            (Sync::Opening, SyncAction::Perform(SyncStep::OpenBare))
        } else {
            (Sync::Creating, SyncAction::Perform(SyncStep::CreateDirAll))
        },
        (Sync::Probing { .. }, SyncEvent::Failed(_)) => sync_failed(
            SyncStep::Probe,
            ErrorKind::Filesystem,
        ),
        (Sync::Creating, SyncEvent::Completed) => (
            Sync::Initializing,
            SyncAction::Perform(SyncStep::InitBare),
        ),
        (Sync::Creating, SyncEvent::Failed(_)) => sync_failed(
            SyncStep::CreateDirAll,
            ErrorKind::Filesystem,
        ),
        (Sync::Initializing, SyncEvent::Completed) => (
            Sync::AddingOrigin,
            SyncAction::Perform(SyncStep::AddOrigin),
        ),
        (Sync::Initializing, SyncEvent::Failed(_)) => sync_failed(
            SyncStep::InitBare,
            ErrorKind::RepositoryState,
        ),
        (Sync::AddingOrigin, SyncEvent::Completed) => (
            Sync::Fetching { cloning: true },
            SyncAction::Perform(SyncStep::FetchOrigin),
        ),
        (Sync::AddingOrigin, SyncEvent::Failed(_)) => sync_failed(
            SyncStep::AddOrigin,
            ErrorKind::RepositoryState,
        ),
        (Sync::Opening, SyncEvent::Completed) => (
            Sync::Fetching { cloning: false },
            SyncAction::Perform(SyncStep::FetchOrigin),
        ),
        (Sync::Opening, SyncEvent::Failed(_)) => sync_failed(
            SyncStep::OpenBare,
            ErrorKind::RepositoryState,
        ),
        (Sync::Fetching { cloning }, SyncEvent::Completed) => (
            Sync::Finished,
            SyncAction::Finish(
                Ok(
                    if cloning {
                        SyncOutcome::Cloned
                    } else {
                        SyncOutcome::Fetched
                    },
                ),
            ),
        ),
        (Sync::Fetching { .. }, SyncEvent::Failed(fault)) => sync_failed(
            SyncStep::FetchOrigin,
            fetch_failure(fault),
        ),
        _ => sync_failed(step_of(state), ErrorKind::Protocol),
    }
}

impl Sync {
    /// The state of a synchronisation that has not begun.
    pub fn new(dry_run: bool) -> (state: Sync)
        ensures
            state == (Sync::Idle { dry_run }),
    {
        Sync::Idle { dry_run }
    }
}

fn failed(step: SyncStep, kind: ErrorKind) -> (next: (Sync, SyncAction))
    ensures
        next == sync_failed(step, kind),
{
    (Sync::Finished, SyncAction::Finish(Err(SyncError { step, kind })))
}

fn awaited_step(state: Sync) -> (step: SyncStep)
    ensures
        step == step_of(state),
{
    match state {
        Sync::Idle { .. } | Sync::Probing { .. } | Sync::Finished => SyncStep::Probe,
        Sync::Creating => SyncStep::CreateDirAll,
        Sync::Initializing => SyncStep::InitBare,
        Sync::AddingOrigin => SyncStep::AddOrigin,
        Sync::Opening => SyncStep::OpenBare,
        Sync::Fetching { .. } => SyncStep::FetchOrigin,
    }
}

/// Takes one step of the synchronisation of a mirror: given where it stands
/// and what the last step brought, says where it stands now and what is to
/// be done next.
///
/// A synchronisation begins in [`Sync::new`] with the event `Started`, and
/// has ended when the action is `Finish`.
pub fn clone_or_fetch_bare(state: Sync, event: SyncEvent) -> (next: (Sync, SyncAction))
    ensures
        next == sync_step(state, event),
{
    match (state, event) {
        (Sync::Idle { dry_run }, SyncEvent::Started) => (
            Sync::Probing { dry_run },
            SyncAction::Perform(SyncStep::Probe),
        ),
        (Sync::Probing { dry_run }, SyncEvent::Exists(exists)) => {
            if dry_run {
                let outcome = if exists {
                    SyncOutcome::WouldFetch
                } else {
                    SyncOutcome::WouldClone
                };
                (Sync::Finished, SyncAction::Finish(Ok(outcome)))
            } else if exists {
                (Sync::Opening, SyncAction::Perform(SyncStep::OpenBare))
            } else {
                (Sync::Creating, SyncAction::Perform(SyncStep::CreateDirAll))
            }
        },
        (Sync::Probing { .. }, SyncEvent::Failed(_)) => failed(
            SyncStep::Probe,
            ErrorKind::Filesystem,
        ),
        (Sync::Creating, SyncEvent::Completed) => (
            Sync::Initializing,
            SyncAction::Perform(SyncStep::InitBare),
        ),
        (Sync::Creating, SyncEvent::Failed(_)) => failed(
            SyncStep::CreateDirAll,
            ErrorKind::Filesystem,
        ),
        (Sync::Initializing, SyncEvent::Completed) => (
            Sync::AddingOrigin,
            SyncAction::Perform(SyncStep::AddOrigin),
        ),
        (Sync::Initializing, SyncEvent::Failed(_)) => failed(
            SyncStep::InitBare,
            ErrorKind::RepositoryState,
        ),
        (Sync::AddingOrigin, SyncEvent::Completed) => (
            Sync::Fetching { cloning: true },
            SyncAction::Perform(SyncStep::FetchOrigin),
        ),
        (Sync::AddingOrigin, SyncEvent::Failed(_)) => failed(
            SyncStep::AddOrigin,
            ErrorKind::RepositoryState,
        ),
        (Sync::Opening, SyncEvent::Completed) => (
            Sync::Fetching { cloning: false },
            SyncAction::Perform(SyncStep::FetchOrigin),
        ),
        (Sync::Opening, SyncEvent::Failed(_)) => failed(
            SyncStep::OpenBare,
            ErrorKind::RepositoryState,
        ),
        (Sync::Fetching { cloning }, SyncEvent::Completed) => {
            let outcome = if cloning {
                SyncOutcome::Cloned
            } else {
                SyncOutcome::Fetched
            };
            (Sync::Finished, SyncAction::Finish(Ok(outcome)))
        },
        (Sync::Fetching { .. }, SyncEvent::Failed(fault)) => {
            let kind = match fault {
                Fault::Transport => ErrorKind::Transport,
                Fault::Auth => ErrorKind::Auth,
                Fault::Status(status) => status_kind_of(status),
                _ => ErrorKind::RepositoryState,
            };
            failed(SyncStep::FetchOrigin, kind)
        },
        (state, _) => failed(awaited_step(state), ErrorKind::Protocol),
    }
}

/// The signal that a transfer has begun. However often the transfer
/// reports activity during one synchronisation, the signal is given once.
#[derive(Clone, Copy, Debug, PartialEq, Eq, Structural)]
pub struct Progress {
    /// Whether the signal has been given.
    pub announced: bool,
}

impl Progress {
    /// The signal of a synchronisation that has not transferred anything.
    pub fn new() -> (progress: Progress)
        ensures
            !progress.announced,
    {
        Progress { announced: false }
    }

    /// Takes note of activity in the transfer. Says whether this is the
    /// first of the synchronisation, which is when the signal is due.
    pub fn transfer_progress(&mut self) -> (first: bool)
        ensures
            first == !old(self).announced,
            final(self).announced,
    {
        let first = !self.announced;
        self.announced = true;
        first
    }
}

} // verus!
