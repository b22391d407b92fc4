//! Job results retrieval and packaging pipeline.
//!
//! The crate packages the output files of a completed remote compute job into
//! one deterministic zip archive, tracks the staging-directory lifecycle so
//! that scratch storage is released on every exit path, gates job operations
//! on a connected session, and — in showcase mode — replaces user and job
//! identifiers with stable pseudonyms before they reach the caller.

pub mod anonymize;
pub mod archive;
pub mod errors;
pub mod jobs;
pub mod pipeline;
pub mod prefs;
pub mod progress;
pub mod segments;
pub mod session;
