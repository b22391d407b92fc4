use std::io::Cursor;
use std::io::Read;

use nsg_results::archive::FetchedFile;
use nsg_results::errors::PackageError;
use nsg_results::pipeline::job_token;
use nsg_results::pipeline::on_cleanup_outcome;
use nsg_results::pipeline::on_fetch_outcome;
use nsg_results::pipeline::on_staging_outcome;
use nsg_results::pipeline::on_write_outcome;
use nsg_results::pipeline::start_run;
use nsg_results::pipeline::RunAction;
use nsg_results::pipeline::RunState;

fn file(name: &str, contents: &[u8]) -> FetchedFile {
    FetchedFile { name: name.to_string(), contents: contents.to_vec() }
}

#[test]
fn token_is_last_segment() {
    assert_eq!(
        job_token("https://example.com/jobs/NGBW-JOB-42").unwrap(),
        "NGBW-JOB-42"
    );
    assert_eq!(job_token("bare-token").unwrap(), "bare-token");
}

#[test]
fn empty_token_is_invalid_reference() {
    assert!(matches!(
        job_token("https://example.com/jobs/"),
        Err(PackageError::InvalidReference)
    ));
    assert!(matches!(job_token(""), Err(PackageError::InvalidReference)));
    assert!(matches!(
        start_run("https://example.com/jobs/"),
        Err(PackageError::InvalidReference)
    ));
}

#[test]
fn run_begins_by_requesting_a_staging_directory() {
    let (state, action) = start_run("https://example.com/jobs/NGBW-JOB-42").unwrap();
    assert!(matches!(state, RunState::Staging { ref token } if token == "NGBW-JOB-42"));
    assert!(
        matches!(action, RunAction::CreateStaging { ref dir_name } if dir_name == "nsg_download_NGBW-JOB-42")
    );
}

#[test]
fn staging_failure_is_fatal_with_nothing_to_clean() {
    let (state, _) = start_run("https://x/J1").unwrap();
    let (state, action) = on_staging_outcome(state, Err("disk full".to_string()));
    assert!(matches!(action, RunAction::Stop));
    match state {
        RunState::Failed { failure: PackageError::StagingIOFailed(m) } => {
            assert_eq!(m, "disk full")
        }
        other => panic!("unexpected state: {}", state_name(&other)),
    }
}

#[test]
fn fetch_failure_cleans_up_then_reports_remote_fetch_failed() {
    let (state, _) = start_run("https://x/J1").unwrap();
    let (state, action) = on_staging_outcome(state, Ok(()));
    assert!(matches!(action, RunAction::FetchResults));
    let (state, action) = on_fetch_outcome(state, Err("404".to_string()));
    assert!(matches!(action, RunAction::RemoveStaging));
    let (state, action) = on_cleanup_outcome(state, Ok(()));
    assert!(matches!(action, RunAction::Stop));
    match state {
        RunState::Failed { failure: PackageError::RemoteFetchFailed(m) } => assert_eq!(m, "404"),
        other => panic!("unexpected state: {}", state_name(&other)),
    }
}

#[test]
fn duplicate_filenames_clean_up_then_report_duplicate_entry_name() {
    let (state, _) = start_run("https://x/J1").unwrap();
    let (state, _) = on_staging_outcome(state, Ok(()));
    let files = vec![file("same.txt", b"a"), file("same.txt", b"b")];
    let (state, action) = on_fetch_outcome(state, Ok(files));
    assert!(matches!(action, RunAction::RemoveStaging));
    let (state, _) = on_cleanup_outcome(state, Ok(()));
    assert!(matches!(
        state,
        RunState::Failed { failure: PackageError::DuplicateEntryName(_) }
    ));
}

#[test]
fn write_failure_cleans_up_then_reports_output_io_failed() {
    let (state, _) = start_run("https://x/J1").unwrap();
    let (state, _) = on_staging_outcome(state, Ok(()));
    let (state, _) = on_fetch_outcome(state, Ok(vec![file("a.txt", b"abc")]));
    let (state, action) = on_write_outcome(state, Err("read-only filesystem".to_string()));
    assert!(matches!(action, RunAction::RemoveStaging));
    let (state, _) = on_cleanup_outcome(state, Ok(()));
    assert!(matches!(
        state,
        RunState::Failed { failure: PackageError::OutputIOFailed(_) }
    ));
}

#[test]
fn cleanup_failure_after_success_is_reported() {
    let (state, _) = start_run("https://x/J1").unwrap();
    let (state, _) = on_staging_outcome(state, Ok(()));
    let (state, _) = on_fetch_outcome(state, Ok(vec![file("a.txt", b"abc")]));
    let (state, _) = on_write_outcome(state, Ok("/out/results_J1.zip".to_string()));
    let (state, action) = on_cleanup_outcome(state, Err("still in use".to_string()));
    assert!(matches!(action, RunAction::Stop));
    assert!(matches!(
        state,
        RunState::Failed { failure: PackageError::StagingIOFailed(_) }
    ));
}

#[test]
fn successful_run_packages_both_files_and_completes_once() {
    let (state, action) = start_run("https://example.com/jobs/NGBW-JOB-42").unwrap();
    let mut completions = 0;
    let mut removals = 0;
    assert!(matches!(action, RunAction::CreateStaging { .. }));

    let (state, action) = on_staging_outcome(state, Ok(()));
    assert!(matches!(action, RunAction::FetchResults));

    let files = vec![file("a.txt", b"abc"), file("b.txt", b"xyz")];
    let (state, action) = on_fetch_outcome(state, Ok(files));
    let bytes = match action {
        RunAction::WriteArchive { file_name, bytes } => {
            assert_eq!(file_name, "results_NGBW-JOB-42.zip");
            bytes
        }
        _ => panic!("expected the archive to be handed out for writing"),
    };

    let mut archive = zip::ZipArchive::new(Cursor::new(bytes)).unwrap();
    assert_eq!(archive.len(), 2);
    let mut first = String::new();
    archive.by_index(0).unwrap().read_to_string(&mut first).unwrap();
    assert_eq!(archive.by_index(0).unwrap().name(), "a.txt");
    assert_eq!(first, "abc");
    let mut second = String::new();
    archive.by_index(1).unwrap().read_to_string(&mut second).unwrap();
    assert_eq!(archive.by_index(1).unwrap().name(), "b.txt");
    assert_eq!(second, "xyz");

    let (state, action) = on_write_outcome(state, Ok("/out/results_NGBW-JOB-42.zip".to_string()));
    if matches!(action, RunAction::RemoveStaging) {
        removals += 1;
    }
    let (state, action) = on_cleanup_outcome(state, Ok(()));
    if matches!(action, RunAction::EmitCompletion) {
        completions += 1;
    }
    assert!(matches!(
        state,
        RunState::Done { ref archive_path } if archive_path == "/out/results_NGBW-JOB-42.zip"
    ));
    assert_eq!(removals, 1);
    assert_eq!(completions, 1);
}

fn state_name(state: &RunState) -> &'static str {
    match state {
        RunState::Staging { .. } => "Staging",
        RunState::Fetching { .. } => "Fetching",
        RunState::Writing => "Writing",
        RunState::Cleaning { .. } => "Cleaning",
        RunState::Done { .. } => "Done",
        RunState::Failed { .. } => "Failed",
    }
}
