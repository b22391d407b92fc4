//! The packaging run: one completed remote job turned into one archive file.
//!
//! The run alternates decisions with outside work — creating the staging
//! directory, fetching, writing the archive to disk, removing the staging
//! directory — so it is a state machine: the caller performs each returned
//! action in a worker context and hands the outcome back to the next handler.
//! Every decision is made here; the caller only moves bytes and reports.
//!
//! The central guarantee is scoped cleanup: from any state in which the
//! staging directory exists, every transition either keeps the run alive or
//! issues `RemoveStaging` — no exit path leaks staging storage. The
//! completion signal is issued exactly on the transition into `Done`, so one
//! successful run emits it exactly once.

use vstd::prelude::*;
use vstd::pervasive::unreached;
use vstd::string::StringExecFns;
use crate::archive::FetchedFile;
use crate::archive::build_archive;
use crate::archive::entry_views;
use crate::archive::has_duplicate_names;
use crate::archive::zip_archive_bytes;
use crate::errors::PackageError;
use crate::segments::split_on;
use crate::segments::split_str;

verus! {

/// The job token: the last `/`-separated segment of the job reference. It
/// names the staging directory and the archive file, and is never sent back
/// to the remote service.
pub open spec fn spec_job_token(url: Seq<char>) -> Seq<char> {
    split_on(url, '/').last()
}

/// The staging directory's name under the system scratch area.
pub open spec fn staging_dir_name(token: Seq<char>) -> Seq<char> {
    "nsg_download_"@ + token
}

/// The archive file's name under the output directory.
pub open spec fn archive_file_name(token: Seq<char>) -> Seq<char> {
    "results_"@ + token + ".zip"@
}

/// Where a run stands between two pieces of outside work.
pub enum RunState {
    /// Creation of the staging directory was requested.
    Staging { token: String },
    /// The staging directory exists; the fetch was requested.
    Fetching { token: String },
    /// The archive bytes were handed out to be written to disk.
    Writing,
    /// Removal of the staging directory was requested; `verdict` is what the
    /// run will report once removal is done.
    Cleaning { verdict: Result<String, PackageError> },
    /// The run succeeded; the archive stands at `archive_path`.
    Done { archive_path: String },
    /// The run failed.
    Failed { failure: PackageError },
}

/// The outside work the caller must perform next.
pub enum RunAction {
    /// Create a fresh directory of this name under the scratch area.
    CreateStaging { dir_name: String },
    /// Fetch all result files of the job into the staging directory.
    FetchResults,
    /// Ensure the output directory exists and write these bytes to this file
    /// in it, truncating any prior file at that path.
    WriteArchive { file_name: String, bytes: Vec<u8> },
    /// Delete the staging directory and everything in it.
    RemoveStaging,
    /// Signal the observer that the run completed.
    EmitCompletion,
    /// Nothing is left to do.
    Stop,
}

/// True while the staging directory exists and its removal is not yet issued.
pub open spec fn staging_live(s: RunState) -> bool {
    s is Fetching || s is Writing
}

/// True of the states a run never leaves.
pub open spec fn is_terminal(s: RunState) -> bool {
    s is Done || s is Failed
}

/// The scoped-cleanup guarantee of one transition: while the staging
/// directory exists, a step either keeps the run alive or issues the
/// directory's removal — never an exit that leaks it.
pub open spec fn releases_staging(pre: RunState, post: RunState, a: RunAction) -> bool {
    staging_live(pre) ==> staging_live(post) || a is RemoveStaging
}

/// The completion signal is issued exactly on the transition into `Done`,
/// and `Done` is terminal, so one run emits it at most once — and a
/// successful run exactly once.
pub open spec fn completion_only_at_done(post: RunState, a: RunAction) -> bool {
    a is EmitCompletion <==> post is Done
}

/// The scoped-cleanup guarantee over a whole run. Every handler below ensures
/// `releases_staging` for its transition; this lemma lifts that to any chain
/// of transitions: a run that holds the staging directory cannot arrive at a
/// state that no longer tracks it — failed, done, or already cleaning —
/// without `RemoveStaging` having been issued along the way. No exit path
/// leaks staging storage.
pub proof fn lemma_no_exit_without_cleanup(states: Seq<RunState>, actions: Seq<RunAction>)
    requires
        states.len() == actions.len() + 1,
        forall|i: int|
            0 <= i < actions.len() ==> releases_staging(
                states[i],
                states[i + 1],
                #[trigger] actions[i],
            ),
        staging_live(states[0]),
        !staging_live(states.last()),
    ensures
        exists|i: int| 0 <= i < actions.len() && actions[i] is RemoveStaging,
    decreases actions.len(),
{
    if actions.len() == 0 {
        assert(states.last() == states[0]);
    } else {
        assert(releases_staging(states[0], states[1], actions[0]));
        if actions[0] is RemoveStaging {
            assert(actions[0] is RemoveStaging);
        } else {
            let tail_states = states.drop_first();
            let tail_actions = actions.drop_first();
            assert forall|i: int| 0 <= i < tail_actions.len() implies releases_staging(
                tail_states[i],
                tail_states[i + 1],
                #[trigger] tail_actions[i],
            ) by {
                assert(tail_states[i] == states[i + 1]);
                assert(tail_states[i + 1] == states[i + 2]);
                assert(tail_actions[i] == actions[i + 1]);
                assert(releases_staging(states[i + 1], states[i + 2], actions[i + 1]));
            }
            assert(tail_states.last() == states.last());
            lemma_no_exit_without_cleanup(tail_states, tail_actions);
            let j = choose|i: int|
                0 <= i < tail_actions.len() && tail_actions[i] is RemoveStaging;
            assert(actions[j + 1] is RemoveStaging);
        }
    }
}

/// The completion signal is emitted at most once per run. Every handler
/// ensures `completion_only_at_done` and takes no terminal state, so an
/// `EmitCompletion` can only be the last action of a chain of transitions:
/// it puts the run into `Done`, which nothing leaves.
pub proof fn lemma_completion_at_most_once(states: Seq<RunState>, actions: Seq<RunAction>)
    requires
        states.len() == actions.len() + 1,
        forall|i: int|
            0 <= i < actions.len() ==> completion_only_at_done(states[i + 1], #[trigger] actions[i]),
        forall|i: int| 0 <= i < actions.len() ==> !is_terminal(#[trigger] states[i]),
    ensures
        forall|i: int|
            0 <= i < actions.len() && (#[trigger] actions[i]) is EmitCompletion ==> i
                == actions.len() - 1,
{
    assert forall|i: int|
        0 <= i < actions.len() && (#[trigger] actions[i]) is EmitCompletion implies i
        == actions.len() - 1 by {
        assert(completion_only_at_done(states[i + 1], actions[i]));
        assert(states[i + 1] is Done);
        if i + 1 < actions.len() {
            assert(!is_terminal(states[i + 1]));
        }
    }
}

/// Extracts the job token from the job reference; a reference whose last
/// path segment is empty cannot name the run's files and is rejected.
pub fn job_token(url: &str) -> (r: Result<String, PackageError>)
    ensures
        r is Ok <==> spec_job_token(url@).len() > 0,
        r is Ok ==> r->Ok_0@ == spec_job_token(url@),
        r is Err ==> r->Err_0 is InvalidReference,
{
    let parts = split_str(url, '/');
    let last_index = parts.len() - 1;
    proof {
        assert(parts.deep_view()[last_index as int] == split_on(url@, '/').last());
    }
    if parts[last_index].as_str().is_empty() {
        Err(PackageError::InvalidReference)
    } else {
        Ok(parts[last_index].clone())
    }
}

/// Begins a run: derives the token and asks for a fresh staging directory
/// named after it. An unusable job reference is `InvalidReference`, before
/// any outside work happens.
pub fn start_run(job_url: &str) -> (r: Result<(RunState, RunAction), PackageError>)
    ensures
        r is Ok <==> spec_job_token(job_url@).len() > 0,
        r is Ok ==> r->Ok_0.0 is Staging && r->Ok_0.0->Staging_token@ == spec_job_token(job_url@),
        r is Ok ==> r->Ok_0.1 is CreateStaging && r->Ok_0.1->dir_name@ == staging_dir_name(
            spec_job_token(job_url@),
        ),
        r is Err ==> r->Err_0 is InvalidReference,
{
    let token = match job_token(job_url) {
        Ok(t) => t,
        Err(e) => {
            return Err(e);
        },
    };
    let dir_name = "nsg_download_".to_owned().concat(token.as_str());
    Ok((RunState::Staging { token }, RunAction::CreateStaging { dir_name }))
}

/// Takes the outcome of creating the staging directory. On success the fetch
/// is requested; on failure the run ends with `StagingIOFailed` — nothing
/// was created, so there is nothing to clean up.
pub fn on_staging_outcome(state: RunState, outcome: Result<(), String>) -> (r: (
    RunState,
    RunAction,
))
    requires
        state is Staging,
    ensures
        releases_staging(state, r.0, r.1),
        completion_only_at_done(r.0, r.1),
        outcome is Ok ==> r.0 is Fetching && r.0->Fetching_token == state->Staging_token
            && r.1 is FetchResults,
        outcome is Err ==> r.0 == (RunState::Failed {
            failure: PackageError::StagingIOFailed(outcome->Err_0),
        }) && r.1 is Stop,
{
    match state {
        RunState::Staging { token } => match outcome {
            Ok(_) => (RunState::Fetching { token }, RunAction::FetchResults),
            Err(m) => (
                RunState::Failed { failure: PackageError::StagingIOFailed(m) },
                RunAction::Stop,
            ),
        },
        _ => unreached(),
    }
}

/// Takes the outcome of the fetch. A fetch failure becomes
/// `RemoteFetchFailed`; duplicate base filenames become `DuplicateEntryName`;
/// otherwise the archive is assembled here, in fetch order, and handed out to
/// be written. On every failure past this point the staging directory's
/// removal is issued before the error is reported.
pub fn on_fetch_outcome(state: RunState, outcome: Result<Vec<FetchedFile>, String>) -> (r: (
    RunState,
    RunAction,
))
    requires
        state is Fetching,
    ensures
        releases_staging(state, r.0, r.1),
        completion_only_at_done(r.0, r.1),
        outcome is Err ==> r.0 == (RunState::Cleaning {
            verdict: Err(PackageError::RemoteFetchFailed(outcome->Err_0)),
        }) && r.1 is RemoveStaging,
        outcome is Ok && has_duplicate_names(outcome->Ok_0@) ==> r.0 is Cleaning
            && r.0->verdict is Err && r.0->verdict->Err_0 is DuplicateEntryName
            && r.1 is RemoveStaging,
        outcome is Ok && !has_duplicate_names(outcome->Ok_0@) ==> ({
            ||| {
                &&& r.0 is Writing
                &&& r.1 is WriteArchive
                &&& r.1->file_name@ == archive_file_name(state->Fetching_token@)
                &&& r.1->bytes@ == zip_archive_bytes(entry_views(outcome->Ok_0@))
            }
            ||| {
                &&& r.0 is Cleaning
                &&& r.0->verdict is Err
                &&& r.0->verdict->Err_0 is OutputIOFailed
                &&& r.1 is RemoveStaging
            }
        }),
{
    match state {
        RunState::Fetching { token } => match outcome {
            Err(m) => (
                RunState::Cleaning { verdict: Err(PackageError::RemoteFetchFailed(m)) },
                RunAction::RemoveStaging,
            ),
            Ok(files) => match build_archive(&files) {
                Err(e) => (RunState::Cleaning { verdict: Err(e) }, RunAction::RemoveStaging),
                Ok(bytes) => {
                    let file_name = "results_".to_owned().concat(token.as_str()).concat(".zip");
                    (RunState::Writing, RunAction::WriteArchive { file_name, bytes })
                },
            },
        },
        _ => unreached(),
    }
}

/// Takes the outcome of writing the archive to disk. Either way the staging
/// directory's removal is issued next: on success the run will report the
/// archive's path, on failure `OutputIOFailed` — a partially written archive
/// file may remain on disk, as designed.
pub fn on_write_outcome(state: RunState, outcome: Result<String, String>) -> (r: (
    RunState,
    RunAction,
))
    requires
        state is Writing,
    ensures
        releases_staging(state, r.0, r.1),
        completion_only_at_done(r.0, r.1),
        outcome is Ok ==> r.0 == (RunState::Cleaning { verdict: Ok(outcome->Ok_0) })
            && r.1 is RemoveStaging,
        outcome is Err ==> r.0 == (RunState::Cleaning {
            verdict: Err(PackageError::OutputIOFailed(outcome->Err_0)),
        }) && r.1 is RemoveStaging,
{
    match outcome {
        Ok(path) => (RunState::Cleaning { verdict: Ok(path) }, RunAction::RemoveStaging),
        Err(m) => (
            RunState::Cleaning { verdict: Err(PackageError::OutputIOFailed(m)) },
            RunAction::RemoveStaging,
        ),
    }
}

/// Takes the outcome of removing the staging directory. A run that was going
/// to succeed reports the archive path and signals completion, unless the
/// removal itself failed, which is reported as `StagingIOFailed` without
/// rolling back the archive already on disk. A run that was going to fail
/// reports its first error, whatever the removal did.
pub fn on_cleanup_outcome(state: RunState, outcome: Result<(), String>) -> (r: (
    RunState,
    RunAction,
))
    requires
        state is Cleaning,
    ensures
        releases_staging(state, r.0, r.1),
        completion_only_at_done(r.0, r.1),
        is_terminal(r.0),
        state->verdict is Ok && outcome is Ok ==> r.0 == (RunState::Done {
            archive_path: state->verdict->Ok_0,
        }) && r.1 is EmitCompletion,
        state->verdict is Ok && outcome is Err ==> r.0 == (RunState::Failed {
            failure: PackageError::StagingIOFailed(outcome->Err_0),
        }) && r.1 is Stop,
        state->verdict is Err ==> r.0 == (RunState::Failed { failure: state->verdict->Err_0 })
            && r.1 is Stop,
{
    match state {
        RunState::Cleaning { verdict } => match verdict {
            Ok(path) => match outcome {
                Ok(_) => (RunState::Done { archive_path: path }, RunAction::EmitCompletion),
                Err(m) => (
                    RunState::Failed { failure: PackageError::StagingIOFailed(m) },
                    RunAction::Stop,
                ),
            },
            Err(e) => (RunState::Failed { failure: e }, RunAction::Stop),
        },
        _ => unreached(),
    }
}

} // verus!
