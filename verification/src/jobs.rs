//! Read-only projections of remote job state, anonymized before they reach
//! the caller.
//!
//! A job listing or status answer is regenerated on each query and never
//! mutated locally; the only local work is rewriting the user-facing
//! identifiers — job ids and URLs — through the anonymizer when showcase mode
//! is on. Stages, flags and timestamps pass through untouched.

use vstd::prelude::*;
use crate::anonymize::anonymize_job_id;
use crate::anonymize::anonymize_url;
use crate::anonymize::spec_anonymize_job_id;
use crate::anonymize::spec_anonymize_url;

verus! {

/// One row of a job listing, as shown to the caller.
pub struct JobSummary {
    pub job_id: String,
    pub url: String,
    pub tool: Option<String>,
    pub job_stage: Option<String>,
    pub failed: bool,
    pub date_submitted: Option<String>,
    pub date_completed: Option<String>,
}

/// The status of one job, as shown to the caller.
pub struct JobDetails {
    pub job_id: String,
    pub job_stage: String,
    pub failed: bool,
    pub date_submitted: Option<String>,
    pub self_uri: String,
    pub results_uri: Option<String>,
}

/// How an identifier leaves the library: the pseudonym in showcase mode, the
/// value itself otherwise.
pub open spec fn shown_job_id(id: Seq<char>, showcase: bool) -> Seq<char> {
    if showcase {
        spec_anonymize_job_id(id)
    } else {
        id
    }
}

/// How a URL leaves the library, by the same rule.
pub open spec fn shown_url(url: Seq<char>, showcase: bool) -> Seq<char> {
    if showcase {
        spec_anonymize_url(url)
    } else {
        url
    }
}

/// True when `out` is `original` with its job id and URL put through the
/// anonymizer and everything else unchanged.
pub open spec fn summary_shown(original: JobSummary, out: JobSummary, showcase: bool) -> bool {
    &&& out.job_id@ == shown_job_id(original.job_id@, showcase)
    &&& out.url@ == shown_url(original.url@, showcase)
    &&& out.tool == original.tool
    &&& out.job_stage == original.job_stage
    &&& out.failed == original.failed
    &&& out.date_submitted == original.date_submitted
    &&& out.date_completed == original.date_completed
}

/// True when `out` is `original` with its job id and both URIs put through
/// the anonymizer and everything else unchanged.
pub open spec fn details_shown(original: JobDetails, out: JobDetails, showcase: bool) -> bool {
    &&& out.job_id@ == shown_job_id(original.job_id@, showcase)
    &&& out.self_uri@ == shown_url(original.self_uri@, showcase)
    &&& (original.results_uri is None ==> out.results_uri is None)
    &&& (original.results_uri is Some ==> out.results_uri is Some && out.results_uri->0@
        == shown_url(original.results_uri->0@, showcase))
    &&& out.job_stage == original.job_stage
    &&& out.failed == original.failed
    &&& out.date_submitted == original.date_submitted
}

/// One listing row as the caller may see it: identifiers anonymized in
/// showcase mode, all other fields verbatim.
pub fn present_summary(summary: JobSummary, showcase: bool) -> (r: JobSummary)
    ensures
        summary_shown(summary, r, showcase),
{
    let JobSummary { job_id, url, tool, job_stage, failed, date_submitted, date_completed } =
        summary;
    JobSummary {
        job_id: anonymize_job_id(job_id.as_str(), showcase),
        url: anonymize_url(url.as_str(), showcase),
        tool,
        job_stage,
        failed,
        date_submitted,
        date_completed,
    }
}

/// A whole listing, row for row.
pub fn present_summaries(summaries: Vec<JobSummary>, showcase: bool) -> (r: Vec<JobSummary>)
    ensures
        r@.len() == summaries@.len(),
        forall|i: int|
            0 <= i < summaries@.len() ==> summary_shown(summaries@[i], #[trigger] r@[i], showcase),
{
    let ghost original = summaries@;
    let mut rest = summaries;
    let mut shown: Vec<JobSummary> = Vec::new();
    while rest.len() > 0
        invariant
            shown@.len() + rest@.len() == original.len(),
            rest@ == original.skip(shown@.len() as int),
            forall|i: int|
                0 <= i < shown@.len() ==> summary_shown(
                    original[i],
                    #[trigger] shown@[i],
                    showcase,
                ),
        decreases rest@.len(),
    {
        let ghost k = shown@.len() as int;
        let summary = rest.remove(0);
        proof {
            assert(original.skip(k)[0] == original[k]);
            assert(rest@ =~= original.skip(k + 1));
        }
        shown.push(present_summary(summary, showcase));
    }
    shown
}

/// One status answer as the caller may see it: the job id and both URIs
/// anonymized in showcase mode, all other fields verbatim.
pub fn present_details(details: JobDetails, showcase: bool) -> (r: JobDetails)
    ensures
        details_shown(details, r, showcase),
{
    let JobDetails { job_id, job_stage, failed, date_submitted, self_uri, results_uri } = details;
    let shown_results_uri = match results_uri {
        Some(u) => Some(anonymize_url(u.as_str(), showcase)),
        None => None,
    };
    JobDetails {
        job_id: anonymize_job_id(job_id.as_str(), showcase),
        job_stage,
        failed,
        date_submitted,
        self_uri: anonymize_url(self_uri.as_str(), showcase),
        results_uri: shown_results_uri,
    }
}

} // verus!
