//! The errors a pipeline run can surface.
//!
//! Every error carries or produces a descriptive message; none is swallowed
//! by the pipeline except progress-delivery failures, which are advisory.

use vstd::prelude::*;
use vstd::string::StringExecFns;

verus! {

/// Why a job operation or a packaging run failed.
#[derive(Debug)]
pub enum PackageError {
    /// A job operation was attempted with no stored session credentials.
    NotConnected,
    /// The job reference has no usable last path segment to serve as token.
    InvalidReference,
    /// The staging directory could not be created or removed.
    StagingIOFailed(String),
    /// The remote results fetcher reported failure.
    RemoteFetchFailed(String),
    /// The output directory or archive could not be created, written or sealed.
    OutputIOFailed(String),
    /// Two fetched files share a base filename, so entry names would collide.
    DuplicateEntryName(String),
}

/// The descriptive message of an error: a fixed phrase naming the failure,
/// followed by the collaborator's own words where there are any.
pub open spec fn spec_message(e: PackageError) -> Seq<char> {
    match e {
        PackageError::NotConnected => "Not connected"@,
        PackageError::InvalidReference => "Invalid job URL"@,
        PackageError::StagingIOFailed(m) => "Staging directory failure: "@ + m@,
        PackageError::RemoteFetchFailed(m) => "Failed to download results: "@ + m@,
        PackageError::OutputIOFailed(m) => "Failed to write archive: "@ + m@,
        PackageError::DuplicateEntryName(m) => "Duplicate entry name: "@ + m@,
    }
}

impl PackageError {
    /// The error as one descriptive line for the caller.
    pub fn message(&self) -> (r: String)
        ensures
            r@ == spec_message(*self),
    {
        match self {
            PackageError::NotConnected => "Not connected".to_owned(),
            PackageError::InvalidReference => "Invalid job URL".to_owned(),
            PackageError::StagingIOFailed(m) => "Staging directory failure: ".to_owned().concat(
                m.as_str(),
            ),
            PackageError::RemoteFetchFailed(m) => "Failed to download results: ".to_owned().concat(
                m.as_str(),
            ),
            PackageError::OutputIOFailed(m) => "Failed to write archive: ".to_owned().concat(
                m.as_str(),
            ),
            PackageError::DuplicateEntryName(m) => "Duplicate entry name: ".to_owned().concat(
                m.as_str(),
            ),
        }
    }
}

} // verus!
