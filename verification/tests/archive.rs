use repo_mirror::archive::{
    archive_repo, export_request, following_wait, Export, ExportAction, ExportError,
    ExportEvent, ExportJob, ExportOutcome, ExportStage, JobRequest, JobState, Method,
    INITIAL_WAIT, MAX_WAIT,
};
use repo_mirror::errors::{ErrorKind, Fault, Reply};

fn answered(status: u16, id: u64, state: JobState) -> ExportEvent {
    ExportEvent::Job(Reply::Answered { status, body: Some(ExportJob { id, state }) })
}

fn failure(stage: ExportStage, kind: ErrorKind) -> ExportAction {
    ExportAction::Finish(Err(ExportError { stage, kind }))
}

/// Runs an export against a service that reports the job as exporting for
/// `polls` polls and as exported then, and a disk that holds what `old` and
/// `stale` say. `cut` makes the download break off. Gives back the actions
/// and the two files as they are in the end.
fn run_export(
    polls: usize,
    old: Option<Vec<u8>>,
    stale: Option<Vec<u8>>,
    cut: bool,
) -> (Vec<ExportAction>, Option<Vec<u8>>, Option<Vec<u8>>) {
    let whole: Vec<u8> = vec![80, 75, 3, 4, 9, 9];
    let mut archive = old;
    let mut download = stale;
    let mut asked = 0;
    let mut actions = Vec::new();
    let (mut state, mut action) = archive_repo(Export::new(false), ExportEvent::Started);
    loop {
        actions.push(action);
        let event = match action {
            ExportAction::CreateJob => answered(201, 41, JobState::Queued),
            ExportAction::Poll { .. } => {
                asked += 1;
                if asked > polls {
                    answered(200, 41, JobState::Exported)
                } else {
                    answered(200, 41, JobState::Exporting)
                }
            }
            ExportAction::EnsureDir => ExportEvent::Completed,
            ExportAction::ProbeNew => ExportEvent::Exists(download.is_some()),
            ExportAction::RemoveNew => {
                download = None;
                ExportEvent::Completed
            }
            ExportAction::Download { .. } => {
                if cut {
                    download = Some(whole[..3].to_vec());
                    ExportEvent::Failed(Fault::Transport)
                } else {
                    download = Some(whole.clone());
                    ExportEvent::Completed
                }
            }
            ExportAction::Replace => {
                archive = download.take();
                ExportEvent::Completed
            }
            ExportAction::Finish(_) => return (actions, archive, download),
        };
        let next = archive_repo(state, event);
        state = next.0;
        action = next.1;
    }
}

#[test]
fn export_begins_with_the_creation_of_the_job() {
    assert_eq!(
        archive_repo(Export::new(false), ExportEvent::Started),
        (Export::Creating, ExportAction::CreateJob)
    );
}

#[test]
fn dry_export_asks_for_nothing() {
    assert_eq!(Export::new(true), Export::Idle { dry_run: true });
    assert_eq!(
        archive_repo(Export::new(true), ExportEvent::Started),
        (Export::Finished, ExportAction::Finish(Ok(ExportOutcome::WouldExport)))
    );
}

#[test]
fn export_runs_from_creation_to_replacement() {
    let (actions, archive, download) = run_export(2, None, None, false);
    assert_eq!(
        actions,
        vec![
            ExportAction::CreateJob,
            ExportAction::Poll { id: 41, wait: 2 },
            ExportAction::Poll { id: 41, wait: 4 },
            ExportAction::Poll { id: 41, wait: 8 },
            ExportAction::EnsureDir,
            ExportAction::ProbeNew,
            ExportAction::Download { id: 41 },
            ExportAction::Replace,
            ExportAction::Finish(Ok(ExportOutcome::Replaced)),
        ]
    );
    assert_eq!(archive, Some(vec![80, 75, 3, 4, 9, 9]));
    assert_eq!(download, None);
}

#[test]
fn poll_waits_double_up_to_the_cap() {
    let (actions, _, _) = run_export(9, None, None, false);
    let waits: Vec<u64> = actions
        .iter()
        .filter_map(|action| match action {
            ExportAction::Poll { wait, .. } => Some(*wait),
            _ => None,
        })
        .collect();
    assert_eq!(waits, vec![2, 4, 8, 16, 32, 64, 64, 64, 64, 64]);
    assert!(waits.iter().all(|wait| *wait <= 64));
}

#[test]
fn following_wait_doubles_and_caps() {
    assert_eq!(INITIAL_WAIT, 2);
    assert_eq!(MAX_WAIT, 64);
    assert_eq!(following_wait(2), 4);
    assert_eq!(following_wait(16), 32);
    assert_eq!(following_wait(32), 64);
    assert_eq!(following_wait(64), 64);
    assert_eq!(following_wait(33), 64);
    assert_eq!(following_wait(u64::MAX), 64);
}

#[test]
fn job_exported_at_creation_is_downloaded_without_a_poll() {
    assert_eq!(
        archive_repo(Export::Creating, answered(201, 5, JobState::Exported)),
        (Export::Preparing { id: 5 }, ExportAction::EnsureDir)
    );
}

#[test]
fn polls_keep_the_job_of_the_creation() {
    let (state, action) = archive_repo(Export::Creating, answered(201, 5, JobState::Queued));
    assert_eq!(action, ExportAction::Poll { id: 5, wait: 2 });
    assert_eq!(state, Export::Polling { id: 5, wait: 4 });
    let (state, action) = archive_repo(state, answered(200, 77, JobState::Other));
    assert_eq!(action, ExportAction::Poll { id: 5, wait: 4 });
    assert_eq!(state, Export::Polling { id: 5, wait: 8 });
    let (state, action) = archive_repo(state, answered(200, 77, JobState::Exported));
    assert_eq!(action, ExportAction::EnsureDir);
    assert_eq!(state, Export::Preparing { id: 5 });
}

#[test]
fn failed_job_ends_the_export() {
    assert_eq!(
        archive_repo(Export::Polling { id: 5, wait: 8 }, answered(200, 5, JobState::Failed)),
        (Export::Finished, failure(ExportStage::Polling, ErrorKind::Job))
    );
    assert_eq!(
        archive_repo(Export::Creating, answered(201, 5, JobState::Failed)),
        (Export::Finished, failure(ExportStage::Polling, ErrorKind::Job))
    );
}

#[test]
fn creation_failures_are_classified() {
    let refused = ExportEvent::Job(Reply::Answered { status: 422, body: None });
    assert_eq!(
        archive_repo(Export::Creating, refused).1,
        failure(ExportStage::Creation, ErrorKind::Transport)
    );
    let forbidden = ExportEvent::Job(Reply::Answered { status: 403, body: None });
    assert_eq!(
        archive_repo(Export::Creating, forbidden).1,
        failure(ExportStage::Creation, ErrorKind::Auth)
    );
    let garbled = ExportEvent::Job(Reply::Answered { status: 201, body: None });
    assert_eq!(
        archive_repo(Export::Creating, garbled).1,
        failure(ExportStage::Creation, ErrorKind::Protocol)
    );
    assert_eq!(
        archive_repo(Export::Creating, ExportEvent::Job(Reply::Unreachable)).1,
        failure(ExportStage::Creation, ErrorKind::Transport)
    );
}

#[test]
fn polling_failures_are_classified() {
    let state = Export::Polling { id: 1, wait: 4 };
    assert_eq!(
        archive_repo(state, ExportEvent::Job(Reply::Unreachable)),
        (Export::Finished, failure(ExportStage::Polling, ErrorKind::Transport))
    );
    let unauthorized = ExportEvent::Job(Reply::Answered { status: 401, body: None });
    assert_eq!(
        archive_repo(state, unauthorized).1,
        failure(ExportStage::Polling, ErrorKind::Auth)
    );
    let garbled = ExportEvent::Job(Reply::Answered { status: 200, body: None });
    assert_eq!(
        archive_repo(state, garbled).1,
        failure(ExportStage::Polling, ErrorKind::Protocol)
    );
}

#[test]
fn download_failures_are_classified() {
    let cases = [
        (Fault::Transport, ErrorKind::Transport),
        (Fault::Auth, ErrorKind::Auth),
        (Fault::Status(401), ErrorKind::Auth),
        (Fault::Status(500), ErrorKind::Transport),
        (Fault::Filesystem, ErrorKind::Filesystem),
        (Fault::Other, ErrorKind::Transport),
    ];
    for (fault, kind) in cases {
        assert_eq!(
            archive_repo(Export::Downloading, ExportEvent::Failed(fault)),
            (Export::Finished, failure(ExportStage::Download, kind))
        );
    }
}

#[test]
fn filesystem_failures_end_the_export() {
    for state in [Export::Preparing { id: 3 }, Export::Clearing { id: 3 }, Export::Replacing] {
        assert_eq!(
            archive_repo(state, ExportEvent::Failed(Fault::Filesystem)),
            (Export::Finished, failure(ExportStage::Download, ErrorKind::Filesystem))
        );
    }
}

#[test]
fn unexpected_event_is_a_protocol_failure() {
    assert_eq!(
        archive_repo(Export::Idle { dry_run: false }, ExportEvent::Completed),
        (Export::Finished, failure(ExportStage::Creation, ErrorKind::Protocol))
    );
    assert_eq!(
        archive_repo(Export::Polling { id: 1, wait: 2 }, ExportEvent::Exists(true)),
        (Export::Finished, failure(ExportStage::Polling, ErrorKind::Protocol))
    );
    assert_eq!(
        archive_repo(Export::Finished, ExportEvent::Started),
        (Export::Finished, failure(ExportStage::Download, ErrorKind::Protocol))
    );
}

#[test]
fn interrupted_download_leaves_the_old_archive() {
    let old = vec![1, 2, 3, 4];
    let (actions, archive, download) = run_export(0, Some(old.clone()), None, true);
    assert_eq!(archive, Some(old));
    assert_eq!(download, Some(vec![80, 75, 3]));
    assert!(!actions.contains(&ExportAction::Replace));
    assert_eq!(
        actions.last(),
        Some(&failure(ExportStage::Download, ErrorKind::Transport))
    );
}

#[test]
fn stale_download_is_removed_before_the_next() {
    let old = vec![1, 2, 3, 4];
    let (actions, archive, download) = run_export(0, Some(old), Some(vec![80, 75, 3]), false);
    let removed = actions.iter().position(|a| *a == ExportAction::RemoveNew);
    let downloaded = actions.iter().position(|a| *a == ExportAction::Download { id: 41 });
    assert!(removed.is_some());
    assert!(removed < downloaded);
    assert_eq!(archive, Some(vec![80, 75, 3, 4, 9, 9]));
    assert_eq!(download, None);
}

#[test]
fn job_states_are_read_by_name() {
    assert_eq!(JobState::from_name("queued"), JobState::Queued);
    assert_eq!(JobState::from_name("exporting"), JobState::Exporting);
    assert_eq!(JobState::from_name("exported"), JobState::Exported);
    assert_eq!(JobState::from_name("failed"), JobState::Failed);
    assert_eq!(JobState::from_name("pending"), JobState::Other);
    assert_eq!(JobState::from_name("Exported"), JobState::Other);
    assert_eq!(JobState::from_name(""), JobState::Other);
}

#[test]
fn requests_are_made_at_the_job_addresses() {
    let accept = "application/vnd.github.wyandotte-preview+json";
    assert_eq!(
        export_request(ExportAction::CreateJob, "me/repo"),
        Some(JobRequest {
            method: Method::Post,
            url: "https://api.github.com/user/migrations".to_string(),
            accept,
            repositories: Some(vec!["me/repo".to_string()]),
        })
    );
    assert_eq!(
        export_request(ExportAction::Poll { id: 41, wait: 8 }, "me/repo"),
        Some(JobRequest {
            method: Method::Get,
            url: "https://api.github.com/user/migrations/41".to_string(),
            accept,
            repositories: None,
        })
    );
    assert_eq!(
        export_request(ExportAction::Download { id: 41 }, "me/repo"),
        Some(JobRequest {
            method: Method::Get,
            url: "https://api.github.com/user/migrations/41/archive".to_string(),
            accept,
            repositories: None,
        })
    );
}

#[test]
fn other_actions_are_no_requests() {
    let others = [
        ExportAction::EnsureDir,
        ExportAction::ProbeNew,
        ExportAction::RemoveNew,
        ExportAction::Replace,
        ExportAction::Finish(Ok(ExportOutcome::Replaced)),
    ];
    for action in others {
        assert_eq!(export_request(action, "me/repo"), None);
    }
}
