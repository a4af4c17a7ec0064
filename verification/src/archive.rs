//! The export of one repository: the job is created, polled with growing
//! waits until it ends, and its archive is downloaded beside the archive of
//! the last run, which it replaces only once it is complete.
//!
//! The library decides, the caller acts: [`archive_repo`] takes the state of
//! the export and what the last action brought, and answers with the next
//! state and the next action.

use vstd::prelude::*;
use vstd::string::*;
use crate::errors::{
    reply_body, reply_failure, status_kind, status_kind_of, ErrorKind, Fault, Reply,
};
use crate::layout::{
    migration_address, migration_archive_address, migration_archive_url, migration_url,
    MIGRATIONS_ACCEPT, MIGRATIONS_URL,
};
use crate::text::{same_text, texts};

verus! {

/// The wait before the first poll, in seconds.
pub const INITIAL_WAIT: u64 = 2;

/// The longest wait between two polls, in seconds.
pub const MAX_WAIT: u64 = 64;

/// The state that the service reports of an export job.
#[derive(Clone, Copy, Debug, PartialEq, Eq, Structural)]
pub enum JobState {
    Queued,
    Exporting,
    Exported,
    Failed,
    Other,
}

/// An export job as the service reports it.
#[derive(Clone, Copy, Debug, PartialEq, Eq, Structural)]
pub struct ExportJob {
    pub id: u64,
    pub state: JobState,
}

/// How an export ended, where it did not fail.
#[derive(Clone, Copy, Debug, PartialEq, Eq, Structural)]
pub enum ExportOutcome {
    /// The new archive stands in the place of the last.
    Replaced,
    /// Nothing was done: the run is a dry one.
    WouldExport,
}

/// The part of the export that a failure belongs to.
#[derive(Clone, Copy, Debug, PartialEq, Eq, Structural)]
pub enum ExportStage {
    /// The request that creates the job.
    Creation,
    /// The requests for the job's state, and the job itself.
    Polling,
    /// The download of the archive and the replacement of the last one.
    Download,
}

/// Why an export ended without a new archive.
#[derive(Clone, Copy, Debug, PartialEq, Eq, Structural)]
pub struct ExportError {
    pub stage: ExportStage,
    pub kind: ErrorKind,
}

/// Where an export stands. Each state but the first and the last waits for
/// what one action brings.
#[derive(Clone, Copy, Debug, PartialEq, Eq)]
pub enum Export {
    /// Nothing has been asked for yet.
    Idle { dry_run: bool },
    /// The request that creates the job is out.
    Creating,
    /// A request for the job's state is out, or about to be; `wait` is the
    /// wait that the request after it will follow.
    Polling { id: u64, wait: u64 },
    /// The job is exported; the archive directory is being made sure of.
    Preparing { id: u64 },
    /// A leftover of an interrupted download is being looked for.
    Probing { id: u64 },
    /// The leftover is being removed.
    Clearing { id: u64 },
    /// The archive is being written beside the last one.
    Downloading,
    /// The complete download is being renamed over the last archive.
    Replacing,
    /// The export has ended.
    Finished,
}

/// What an action brought.
#[derive(Clone, Debug, PartialEq, Eq)]
pub enum ExportEvent {
    /// The export is to begin.
    Started,
    /// The service's answer to the creation of the job or to a poll.
    Job(Reply<ExportJob>),
    /// Whether a leftover download is there.
    Exists(bool),
    /// The action was carried out in full.
    Completed,
    /// The action failed.
    Failed(Fault),
}

/// What the caller is to do next.
#[derive(Clone, Copy, Debug, PartialEq, Eq)]
pub enum ExportAction {
    /// Ask the service for an export job of the one repository.
    CreateJob,
    /// Wait for `wait` seconds, then ask for the state of job `id`.
    Poll { id: u64, wait: u64 },
    /// Create the directory of the archive file unless it is there.
    EnsureDir,
    /// Look whether a leftover download is there.
    ProbeNew,
    /// Remove the leftover download.
    RemoveNew,
    /// Write the archive of job `id` into the download file.
    Download { id: u64 },
    /// Rename the download file over the archive file.
    Replace,
    /// Stop; the export has ended as given.
    Finish(Result<ExportOutcome, ExportError>),
}

/// How a request is made.
#[derive(Clone, Copy, Debug, PartialEq, Eq, Structural)]
pub enum Method {
    Get,
    Post,
}

/// A request to the service about an export job. Each is made in the name
/// of the account, and asks for the media type in `accept`.
#[derive(Clone, Debug, PartialEq, Eq)]
pub struct JobRequest {
    pub method: Method,
    pub url: String,
    pub accept: &'static str,
    /// The repositories that the request names in its body, if it has one.
    pub repositories: Option<Vec<String>>,
}

/// A request about an export job by its characters.
pub struct JobRequestView {
    pub method: Method,
    pub url: Seq<char>,
    pub accept: Seq<char>,
    pub repositories: Option<Seq<Seq<char>>>,
}

impl View for JobRequest {
    type V = JobRequestView;

    open spec fn view(&self) -> JobRequestView {
        JobRequestView {
            method: self.method,
            url: self.url@,
            accept: self.accept@,
            repositories: match self.repositories {
                Some(names) => Some(texts(names@)),
                None => None,
            },
        }
    }
}

/// A request by its characters, where there is one.
pub open spec fn request_view(request: Option<JobRequest>) -> Option<JobRequestView> {
    match request {
        Some(request) => Some(request@),
        None => None,
    }
}

/// The request that an action of the export of `repository` stands for:
/// the job is created by posting the name of the one repository, its state
/// is read from the job's own address, and its archive from the address
/// below that. The other actions are no requests.
pub open spec fn request_of(action: ExportAction, repository: Seq<char>) -> Option<JobRequestView> {
    match action {
        ExportAction::CreateJob => Some(
            JobRequestView {
                method: Method::Post,
                url: MIGRATIONS_URL@,
                accept: MIGRATIONS_ACCEPT@,
                repositories: Some(seq![repository]),
            },
        ),
        ExportAction::Poll { id, wait } => Some(
            JobRequestView {
                method: Method::Get,
                url: migration_address(id),
                accept: MIGRATIONS_ACCEPT@,
                repositories: None,
            },
        ),
        ExportAction::Download { id } => Some(
            JobRequestView {
                method: Method::Get,
                url: migration_archive_address(id),
                accept: MIGRATIONS_ACCEPT@,
                repositories: None,
            },
        ),
        _ => None,
    }
}

/// The wait that follows a wait of `wait` seconds: twice as long, but never
/// longer than the cap.
pub open spec fn next_wait(wait: u64) -> u64 {
    if 2 * wait >= MAX_WAIT {
        MAX_WAIT
    } else {
        (2 * wait) as u64
    }
}

/// The wait before poll number `n`, counted from zero.
pub open spec fn wait_before_poll(n: nat) -> u64
    decreases n,
{
    if n == 0 {
        INITIAL_WAIT
    } else {
        next_wait(wait_before_poll((n - 1) as nat))
    }
}

/// The end of an export in a failure.
pub open spec fn export_failed(stage: ExportStage, kind: ErrorKind) -> (Export, ExportAction) {
    (Export::Finished, ExportAction::Finish(Err(ExportError { stage, kind })))
}

/// What follows a report of the job: the download once it is exported, the
/// end once it has failed, and otherwise a poll after `wait` seconds.
pub open spec fn after_report(id: u64, state: JobState, wait: u64) -> (Export, ExportAction) {
    match state {
        JobState::Exported => (Export::Preparing { id }, ExportAction::EnsureDir),
        JobState::Failed => export_failed(ExportStage::Polling, ErrorKind::Job),
        _ => (Export::Polling { id, wait: next_wait(wait) }, ExportAction::Poll { id, wait }),
    }
}

/// The kind of failure that a failed download stands for.
pub open spec fn download_failure(fault: Fault) -> ErrorKind {
    match fault {
        Fault::Auth => ErrorKind::Auth,
        Fault::Status(status) => status_kind(status),
        Fault::Filesystem => ErrorKind::Filesystem,
        _ => ErrorKind::Transport,
    }
}

/// The part of the export that a state belongs to.
pub open spec fn stage_of(state: Export) -> ExportStage {
    match state {
        Export::Idle { .. } | Export::Creating => ExportStage::Creation,
        Export::Polling { .. } => ExportStage::Polling,
        _ => ExportStage::Download,
    }
}

/// One step of an export: the state and the action that follow `state` once
/// `event` has arrived. A dry run ends at once, with nothing asked for. An
/// event that the state does not wait for ends the export in a protocol
/// failure.
pub open spec fn export_step(state: Export, event: ExportEvent) -> (Export, ExportAction) {
    match (state, event) {
        (Export::Idle { dry_run }, ExportEvent::Started) => if dry_run {
            (Export::Finished, ExportAction::Finish(Ok(ExportOutcome::WouldExport)))
        } else {
            (Export::Creating, ExportAction::CreateJob)
        },
        (Export::Creating, ExportEvent::Job(reply)) => match reply_failure(reply) {
            Some(kind) => export_failed(ExportStage::Creation, kind),
            None => after_report(reply->body->0.id, reply->body->0.state, INITIAL_WAIT),
        },
        (Export::Polling { id, wait }, ExportEvent::Job(reply)) => match reply_failure(reply) {
            Some(kind) => export_failed(ExportStage::Polling, kind),
            None => after_report(id, reply->body->0.state, wait),
        },
        (Export::Preparing { id }, ExportEvent::Completed) => (
            Export::Probing { id },
            ExportAction::ProbeNew,
        ),
        (Export::Preparing { id }, ExportEvent::Failed(_)) => export_failed(
            ExportStage::Download,
            ErrorKind::Filesystem,
        ),
        (Export::Probing { id }, ExportEvent::Exists(true)) => (
            Export::Clearing { id },
            ExportAction::RemoveNew,
        ),
        (Export::Probing { id }, ExportEvent::Exists(false)) => (
            Export::Downloading,
            ExportAction::Download { id },
        ),
        (Export::Clearing { id }, ExportEvent::Completed) => (
            Export::Downloading,
            ExportAction::Download { id },
        ),
        (Export::Clearing { id }, ExportEvent::Failed(_)) => export_failed(
            ExportStage::Download,
            ErrorKind::Filesystem,
        ),
        (Export::Downloading, ExportEvent::Completed) => (Export::Replacing, ExportAction::Replace),
        (Export::Downloading, ExportEvent::Failed(fault)) => export_failed(
            ExportStage::Download,
            download_failure(fault),
        ),
        (Export::Replacing, ExportEvent::Completed) => (
            Export::Finished,
            ExportAction::Finish(Ok(ExportOutcome::Replaced)),
        ),
        (Export::Replacing, ExportEvent::Failed(_)) => export_failed(
            ExportStage::Download,
            ErrorKind::Filesystem,
        ),
        _ => export_failed(stage_of(state), ErrorKind::Protocol),
    }
}

/// Reads the state of a job from the name that the service gives it.
pub open spec fn job_state_named(name: Seq<char>) -> JobState {
    if name == "queued"@ {
        JobState::Queued
    } else if name == "exporting"@ {
        JobState::Exporting
    } else if name == "exported"@ {
        JobState::Exported
    } else if name == "failed"@ {
        JobState::Failed
    } else {
        JobState::Other
    }
}

impl JobState {
    /// Reads the state of a job from the name that the service gives it. A
    /// name that is none of the four known ones is `Other`.
    pub fn from_name(name: &str) -> (state: JobState)
        ensures
            state == job_state_named(name@),
    {
        if same_text(name, "queued") {
            JobState::Queued
        } else if same_text(name, "exporting") {
            JobState::Exporting
        } else if same_text(name, "exported") {
            JobState::Exported
        } else if same_text(name, "failed") {
            JobState::Failed
        } else {
            JobState::Other
        }
    }
}

impl Export {
    /// The state of an export that has not begun.
    pub fn new(dry_run: bool) -> (state: Export)
        ensures
            state == (Export::Idle { dry_run }),
    {
        Export::Idle { dry_run }
    }
}

/// The request that an action of the export of `repository` stands for, if
/// it stands for one.
pub fn export_request(action: ExportAction, repository: &str) -> (request: Option<JobRequest>)
    ensures
        request_view(request) == request_of(action, repository@),
{
    match action {
        ExportAction::CreateJob => {
            let mut names: Vec<String> = Vec::new();
            names.push(String::from_str(repository));
            assert(texts(names@) =~= seq![repository@]);
            Some(
                JobRequest {
                    method: Method::Post,
                    url: String::from_str(MIGRATIONS_URL),
                    accept: MIGRATIONS_ACCEPT,
                    repositories: Some(names),
                },
            )
        },
        ExportAction::Poll { id, .. } => Some(
            JobRequest {
                method: Method::Get,
                url: migration_url(id),
                accept: MIGRATIONS_ACCEPT,
                repositories: None,
            },
        ),
        ExportAction::Download { id } => Some(
            JobRequest {
                method: Method::Get,
                url: migration_archive_url(id),
                accept: MIGRATIONS_ACCEPT,
                repositories: None,
            },
        ),
        _ => None,
    }
}

/// The wait that follows a wait of `wait` seconds.
pub fn following_wait(wait: u64) -> (next: u64)
    ensures
        next == next_wait(wait),
{
    if wait >= 32 {
        MAX_WAIT
    } else {
        2 * wait
    }
}

fn failed(stage: ExportStage, kind: ErrorKind) -> (step: (Export, ExportAction))
    ensures
        step == export_failed(stage, kind),
{
    (Export::Finished, ExportAction::Finish(Err(ExportError { stage, kind })))
}

fn report(id: u64, state: JobState, wait: u64) -> (step: (Export, ExportAction))
    ensures
        step == after_report(id, state, wait),
{
    match state {
        JobState::Exported => (Export::Preparing { id }, ExportAction::EnsureDir),
        JobState::Failed => failed(ExportStage::Polling, ErrorKind::Job),
        _ => (Export::Polling { id, wait: following_wait(wait) }, ExportAction::Poll { id, wait }),
    }
}

fn stage(state: Export) -> (stage: ExportStage)
    ensures
        stage == stage_of(state),
{
    match state {
        Export::Idle { .. } | Export::Creating => ExportStage::Creation,
        Export::Polling { .. } => ExportStage::Polling,
        _ => ExportStage::Download,
    }
}

/// Takes one step of the export of a repository: given where the export
/// stands and what the last action brought, says where it stands now and
/// what is to be done next.
///
/// An export begins in [`Export::new`] with the event `Started`, and has
/// ended when the action is `Finish`.
pub fn archive_repo(state: Export, event: ExportEvent) -> (step: (Export, ExportAction))
    ensures
        step == export_step(state, event),
{
    match (state, event) {
        (Export::Idle { dry_run }, ExportEvent::Started) => {
            if dry_run {
                (Export::Finished, ExportAction::Finish(Ok(ExportOutcome::WouldExport)))
            } else {
                (Export::Creating, ExportAction::CreateJob)
            }
        },
        (Export::Creating, ExportEvent::Job(reply)) => match reply_body(reply) {
            Err(kind) => failed(ExportStage::Creation, kind),
            Ok(job) => report(job.id, job.state, INITIAL_WAIT),
        },
        (Export::Polling { id, wait }, ExportEvent::Job(reply)) => match reply_body(reply) {
            Err(kind) => failed(ExportStage::Polling, kind),
            Ok(job) => report(id, job.state, wait),
        },
        (Export::Preparing { id }, ExportEvent::Completed) => (
            Export::Probing { id },
            ExportAction::ProbeNew,
        ),
        (Export::Preparing { .. }, ExportEvent::Failed(_)) => failed(
            ExportStage::Download,
            ErrorKind::Filesystem,
        ),
        (Export::Probing { id }, ExportEvent::Exists(true)) => (
            Export::Clearing { id },
            ExportAction::RemoveNew,
        ),
        (Export::Probing { id }, ExportEvent::Exists(false)) => (
            Export::Downloading,
            ExportAction::Download { id },
        ),
        (Export::Clearing { id }, ExportEvent::Completed) => (
            Export::Downloading,
            ExportAction::Download { id },
        ),
        (Export::Clearing { .. }, ExportEvent::Failed(_)) => failed(
            ExportStage::Download,
            ErrorKind::Filesystem,
        ),
        (Export::Downloading, ExportEvent::Completed) => (Export::Replacing, ExportAction::Replace),
        (Export::Downloading, ExportEvent::Failed(fault)) => {
            let kind = match fault {
                Fault::Auth => ErrorKind::Auth,
                Fault::Status(status) => status_kind_of(status),
                Fault::Filesystem => ErrorKind::Filesystem,
                _ => ErrorKind::Transport,
            };
            failed(ExportStage::Download, kind)
        },
        (Export::Replacing, ExportEvent::Completed) => (
            Export::Finished,
            ExportAction::Finish(Ok(ExportOutcome::Replaced)),
        ),
        (Export::Replacing, ExportEvent::Failed(_)) => failed(
            ExportStage::Download,
            ErrorKind::Filesystem,
        ),
        (state, _) => failed(stage(state), ErrorKind::Protocol),
    }
}

} // verus!
