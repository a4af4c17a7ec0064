//! What holds of every export: the waits between its polls, and the safety
//! of the archive of the last run.

use vstd::prelude::*;
use crate::archive::{
    export_step, wait_before_poll, Export, ExportAction, ExportEvent, ExportJob, ExportOutcome,
    INITIAL_WAIT, MAX_WAIT,
};
use crate::errors::{reply_failure, Fault, Reply};

verus! {

/// An export so far: where it stands, and the actions that it has asked for.
pub struct ExportRun {
    pub state: Export,
    pub actions: Seq<ExportAction>,
}

/// The export, not a dry one, that has taken the given events in turn,
/// from the beginning.
pub open spec fn export_run(events: Seq<ExportEvent>) -> ExportRun
    decreases events.len(),
{
    if events.len() == 0 {
        ExportRun { state: Export::Idle { dry_run: false }, actions: Seq::empty() }
    } else {
        let before = export_run(events.drop_last());
        let step = export_step(before.state, events.last());
        ExportRun { state: step.0, actions: before.actions.push(step.1) }
    }
}

/// The waits of the polls among the given actions, in order.
pub open spec fn poll_waits(actions: Seq<ExportAction>) -> Seq<u64>
    decreases actions.len(),
{
    if actions.len() == 0 {
        Seq::empty()
    } else {
        let before = poll_waits(actions.drop_last());
        match actions.last() {
            ExportAction::Poll { id, wait } => before.push(wait),
            _ => before,
        }
    }
}

/// The waits before the polls are 2, 4, 8, 16, 32 and 64 seconds, and 64
/// seconds from then on.
pub proof fn lemma_wait_schedule(n: nat)
    ensures
        wait_before_poll(n) == (if n == 0 {
            2u64
        } else if n == 1 {
            4u64
        } else if n == 2 {
            8u64
        } else if n == 3 {
            16u64
        } else if n == 4 {
            32u64
        } else {
            64u64
        }),
    decreases n,
{
    if n > 0 {
        lemma_wait_schedule((n - 1) as nat);
    }
}

/// Each wait is twice the one before it until the cap is reached, and no
/// wait is longer than the cap.
pub proof fn lemma_wait_doubles(n: nat)
    ensures
        INITIAL_WAIT <= wait_before_poll(n) <= MAX_WAIT,
        wait_before_poll(n) < MAX_WAIT ==> wait_before_poll(n + 1) == 2 * wait_before_poll(n),
        wait_before_poll(n) == MAX_WAIT ==> wait_before_poll(n + 1) == MAX_WAIT,
{
    lemma_wait_schedule(n);
    lemma_wait_schedule(n + 1);
}

proof fn lemma_polls_follow_schedule(events: Seq<ExportEvent>)
    ensures
        ({
            let run = export_run(events);
            let waits = poll_waits(run.actions);
            &&& forall|k: int| 0 <= k < waits.len() ==> waits[k] == wait_before_poll(k as nat)
            &&& run.state is Idle || run.state is Creating ==> waits.len() == 0
            &&& run.state matches Export::Polling { id, wait } ==> wait == wait_before_poll(
                waits.len(),
            )
        }),
    decreases events.len(),
{
    if events.len() > 0 {
        let before = export_run(events.drop_last());
        lemma_polls_follow_schedule(events.drop_last());
        let step = export_step(before.state, events.last());
        let actions = before.actions.push(step.1);
        assert(actions.drop_last() =~= before.actions);
        if let ExportAction::Poll { id, wait } = step.1 {
            assert(wait == wait_before_poll(poll_waits(before.actions).len()));
        }
    }
}

/// In every export, whatever the events, poll number `n` follows a wait of
/// `wait_before_poll(n)` seconds, which is never more than the cap.
pub proof fn lemma_backoff(events: Seq<ExportEvent>, n: int)
    requires
        0 <= n < poll_waits(export_run(events).actions).len(),
    ensures
        poll_waits(export_run(events).actions)[n] == wait_before_poll(n as nat),
        poll_waits(export_run(events).actions)[n] <= MAX_WAIT,
{
    lemma_polls_follow_schedule(events);
    lemma_wait_doubles(n as nat);
}

/// The place of an action in the course of an export.
pub open spec fn phase(action: ExportAction) -> nat {
    match action {
        ExportAction::CreateJob => 0,
        ExportAction::Poll { .. } => 1,
        ExportAction::EnsureDir => 2,
        ExportAction::ProbeNew => 3,
        ExportAction::RemoveNew => 4,
        ExportAction::Download { .. } => 5,
        ExportAction::Replace => 6,
        ExportAction::Finish(_) => 7,
    }
}

/// The place in the course of an export of the action that a state waits
/// for.
spec fn state_phase(state: Export) -> nat {
    match state {
        Export::Idle { .. } => 0,
        Export::Creating => 0,
        Export::Polling { .. } => 1,
        Export::Preparing { .. } => 2,
        Export::Probing { .. } => 3,
        Export::Clearing { .. } => 4,
        Export::Downloading => 5,
        Export::Replacing => 6,
        Export::Finished => 7,
    }
}

proof fn lemma_phases(events: Seq<ExportEvent>)
    ensures
        ({
            let run = export_run(events);
            &&& run.actions.len() == events.len()
            &&& run.state is Idle <==> events.len() == 0
            &&& events.len() > 0 ==> phase(run.actions.last()) == state_phase(run.state)
            &&& forall|i: int, j: int|
                0 <= i < j < run.actions.len() ==> phase(#[trigger] run.actions[i]) <= phase(
                    #[trigger] run.actions[j],
                ) && (phase(run.actions[i]) == phase(run.actions[j]) ==> run.actions[i] is Poll
                    || run.actions[i] is Finish)
        }),
    decreases events.len(),
{
    if events.len() > 0 {
        let earlier = events.drop_last();
        lemma_phases(earlier);
    }
}

/// An export keeps its course: the job is created before it is polled, it
/// is polled before anything is downloaded, a leftover is looked for and
/// removed before the download, and the archive is replaced after it. But
/// for the polls, no action is asked for twice before the export ends.
pub proof fn lemma_export_order(events: Seq<ExportEvent>, i: int, j: int)
    requires
        0 <= i < j < export_run(events).actions.len(),
    ensures
        phase(export_run(events).actions[i]) <= phase(export_run(events).actions[j]),
        phase(export_run(events).actions[i]) == phase(export_run(events).actions[j])
            ==> export_run(events).actions[i] is Poll || export_run(events).actions[i] is Finish,
{
    lemma_phases(events);
}

/// The number of the job that an export has created: the one that the
/// service named in its answer to the creation.
pub open spec fn created_job(events: Seq<ExportEvent>) -> Option<u64> {
    if events.len() >= 2 && events[0] is Started && events[1] is Job && reply_failure(
        events[1]->Job_0,
    ) is None {
        Some(events[1]->Job_0->body->0.id)
    } else {
        None
    }
}

/// Whether an action that names a job names the given one.
pub open spec fn about_job(action: ExportAction, job: Option<u64>) -> bool {
    match action {
        ExportAction::Poll { id, wait } => job == Some(id),
        ExportAction::Download { id } => job == Some(id),
        _ => true,
    }
}

proof fn lemma_job_kept(events: Seq<ExportEvent>)
    ensures
        ({
            let run = export_run(events);
            let job = created_job(events);
            &&& forall|i: int| 0 <= i < run.actions.len() ==> about_job(#[trigger] run.actions[i], job)
            &&& run.actions.len() == events.len()
            &&& run.state is Idle <==> events.len() == 0
            &&& run.state is Creating ==> events.len() == 1 && events[0] is Started
            &&& run.state matches Export::Polling { id, wait } ==> job == Some(id)
            &&& run.state matches Export::Preparing { id } ==> job == Some(id)
            &&& run.state matches Export::Probing { id } ==> job == Some(id)
            &&& run.state matches Export::Clearing { id } ==> job == Some(id)
        }),
    decreases events.len(),
{
    if events.len() > 0 {
        let earlier = events.drop_last();
        lemma_job_kept(earlier);
    }
}

/// Every poll of an export asks for the job that the export created, and
/// so does its download: no other job is ever named.
pub proof fn lemma_one_job(events: Seq<ExportEvent>, i: int)
    requires
        0 <= i < export_run(events).actions.len(),
    ensures
        about_job(export_run(events).actions[i], created_job(events)),
{
    lemma_job_kept(events);
}

/// The two files of one archive as they lie on disk: the archive that the
/// last complete export left, and the download beside it. `None` stands for
/// a file that is not there.
pub struct ArchiveFiles {
    pub archive: Option<Seq<u8>>,
    pub download: Option<Seq<u8>>,
}

/// What comes of carrying out one action.
pub enum Outcome {
    /// The service answers a request about the job. For an action that is
    /// no request this counts as a failure without effect.
    Answer(Reply<ExportJob>),
    /// The action is carried out in full; a download has written `bytes`,
    /// the whole archive.
    Done { bytes: Seq<u8> },
    /// The action fails. Only a download leaves something behind: the part
    /// of the archive that it had written by then, if it got so far as to
    /// create the file.
    Broken { fault: Fault, partial: Option<Seq<u8>> },
}

/// The files after an action with the given outcome, and the event that the
/// export is told of. Only three actions touch the files: the removal of a
/// leftover, the download, which writes to the download file alone, and the
/// renaming, which puts the download in the place of the archive in one
/// step or not at all.
pub open spec fn carry_out(files: ArchiveFiles, action: ExportAction, outcome: Outcome) -> (
    ArchiveFiles,
    ExportEvent,
) {
    let event = match outcome {
        Outcome::Answer(_) => ExportEvent::Failed(Fault::Other),
        Outcome::Done { .. } => ExportEvent::Completed,
        Outcome::Broken { fault, .. } => ExportEvent::Failed(fault),
    };
    match action {
        ExportAction::CreateJob | ExportAction::Poll { .. } => match outcome {
            Outcome::Answer(reply) => (files, ExportEvent::Job(reply)),
            _ => (files, ExportEvent::Job(Reply::Unreachable)),
        },
        ExportAction::ProbeNew => (files, ExportEvent::Exists(files.download is Some)),
        ExportAction::RemoveNew => match outcome {
            Outcome::Done { .. } => (ArchiveFiles { download: None, ..files }, event),
            _ => (files, event),
        },
        ExportAction::Download { .. } => match outcome {
            Outcome::Done { bytes } => (ArchiveFiles { download: Some(bytes), ..files }, event),
            Outcome::Broken { fault, partial: Some(bytes) } => (
                ArchiveFiles { download: Some(bytes), ..files },
                event,
            ),
            _ => (files, event),
        },
        ExportAction::Replace => match outcome {
            Outcome::Done { .. } => (
                ArchiveFiles { archive: files.download, download: None },
                event,
            ),
            _ => (files, event),
        },
        _ => (files, event),
    }
}

/// An export together with the files that it works on.
pub struct Simulation {
    pub files: ArchiveFiles,
    pub state: Export,
    pub pending: ExportAction,
}

/// The export that began with the given files and whose actions, one after
/// the other, have had the given outcomes. The last action that it asked
/// for is pending: it has not been carried out. Once the export has ended,
/// nothing changes any more.
pub open spec fn simulate(files: ArchiveFiles, dry_run: bool, outcomes: Seq<Outcome>) -> Simulation
    decreases outcomes.len(),
{
    if outcomes.len() == 0 {
        let step = export_step(Export::Idle { dry_run }, ExportEvent::Started);
        Simulation { files, state: step.0, pending: step.1 }
    } else {
        let before = simulate(files, dry_run, outcomes.drop_last());
        if before.pending is Finish {
            before
        } else {
            let done = carry_out(before.files, before.pending, outcomes.last());
            let step = export_step(before.state, done.1);
            Simulation { files: done.0, state: step.0, pending: step.1 }
        }
    }
}

/// Whether `bytes` is an archive that one of the export's downloads wrote in
/// full.
pub open spec fn downloaded_in_full(
    files: ArchiveFiles,
    dry_run: bool,
    outcomes: Seq<Outcome>,
    bytes: Seq<u8>,
) -> bool {
    exists|i: int|
        0 <= i < outcomes.len() && (#[trigger] simulate(
            files,
            dry_run,
            outcomes.take(i),
        )).pending is Download && outcomes[i] == (Outcome::Done { bytes })
}

/// Whether the pending action is the one that the state waits for.
spec fn awaited(state: Export, pending: ExportAction) -> bool {
    match state {
        Export::Idle { .. } => false,
        Export::Creating => pending is CreateJob,
        Export::Polling { .. } => pending is Poll,
        Export::Preparing { .. } => pending is EnsureDir,
        Export::Probing { .. } => pending is ProbeNew,
        Export::Clearing { .. } => pending is RemoveNew,
        Export::Downloading => pending is Download,
        Export::Replacing => pending is Replace,
        Export::Finished => pending is Finish,
    }
}

proof fn lemma_downloaded_stays(
    files: ArchiveFiles,
    dry_run: bool,
    outcomes: Seq<Outcome>,
    outcome: Outcome,
    bytes: Seq<u8>,
)
    requires
        downloaded_in_full(files, dry_run, outcomes, bytes),
    ensures
        downloaded_in_full(files, dry_run, outcomes.push(outcome), bytes),
{
    let i = choose|i: int|
        0 <= i < outcomes.len() && (#[trigger] simulate(
            files,
            dry_run,
            outcomes.take(i),
        )).pending is Download && outcomes[i] == (Outcome::Done { bytes });
    let longer = outcomes.push(outcome);
    assert(longer.take(i) =~= outcomes.take(i));
}

proof fn lemma_simulation(files: ArchiveFiles, dry_run: bool, outcomes: Seq<Outcome>)
    ensures
        ({
            let sim = simulate(files, dry_run, outcomes);
            &&& awaited(sim.state, sim.pending)
            &&& dry_run ==> sim.files == files && sim.state is Finished
            &&& sim.files.archive == files.archive || (sim.files.archive is Some
                && downloaded_in_full(files, dry_run, outcomes, sim.files.archive->0))
            &&& sim.pending is Download ==> sim.files.download is None
            &&& sim.pending is Replace ==> sim.files.download is Some && downloaded_in_full(
                files,
                dry_run,
                outcomes,
                sim.files.download->0,
            )
        }),
    decreases outcomes.len(),
{
    if outcomes.len() > 0 {
        let shorter = outcomes.drop_last();
        let before = simulate(files, dry_run, shorter);
        lemma_simulation(files, dry_run, shorter);
        assert(shorter.push(outcomes.last()) =~= outcomes);
        if before.files.archive != files.archive {
            lemma_downloaded_stays(
                files,
                dry_run,
                shorter,
                outcomes.last(),
                before.files.archive->0,
            );
        }
        if before.pending is Replace {
            lemma_downloaded_stays(
                files,
                dry_run,
                shorter,
                outcomes.last(),
                before.files.download->0,
            );
        }
    }
}

/// However an export goes and wherever it is cut short, the archive of the
/// last run is either still what it was, byte for byte, or has been replaced
/// by an archive that a download wrote in full. A download that breaks off
/// leaves its part in the download file and the archive alone.
pub proof fn lemma_archive_survives(files: ArchiveFiles, dry_run: bool, outcomes: Seq<Outcome>)
    ensures
        simulate(files, dry_run, outcomes).files.archive == files.archive || (simulate(
            files,
            dry_run,
            outcomes,
        ).files.archive is Some && downloaded_in_full(
            files,
            dry_run,
            outcomes,
            simulate(files, dry_run, outcomes).files.archive->0,
        )),
{
    lemma_simulation(files, dry_run, outcomes);
}

/// A download never begins while a leftover of an earlier one is there: an
/// export that finds one has had it removed first.
pub proof fn lemma_leftover_removed_first(
    files: ArchiveFiles,
    dry_run: bool,
    outcomes: Seq<Outcome>,
)
    requires
        simulate(files, dry_run, outcomes).pending is Download,
    ensures
        simulate(files, dry_run, outcomes).files.download is None,
{
    lemma_simulation(files, dry_run, outcomes);
}

/// The archive is replaced only by a download that was written in full.
pub proof fn lemma_replaces_with_full_download(
    files: ArchiveFiles,
    dry_run: bool,
    outcomes: Seq<Outcome>,
)
    requires
        simulate(files, dry_run, outcomes).pending is Replace,
    ensures
        simulate(files, dry_run, outcomes).files.download is Some,
        downloaded_in_full(
            files,
            dry_run,
            outcomes,
            simulate(files, dry_run, outcomes).files.download->0,
        ),
{
    lemma_simulation(files, dry_run, outcomes);
}

/// A dry run of an export asks for nothing and leaves the files as they
/// are: it ends at once, saying that it would export.
pub proof fn lemma_dry_export_asks_nothing(files: ArchiveFiles, outcomes: Seq<Outcome>)
    ensures
        simulate(files, true, outcomes).files == files,
        simulate(files, true, outcomes).pending == ExportAction::Finish(
            Ok(ExportOutcome::WouldExport),
        ),
    decreases outcomes.len(),
{
    if outcomes.len() > 0 {
        lemma_dry_export_asks_nothing(files, outcomes.drop_last());
    }
}

} // verus!
