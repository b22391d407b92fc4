//! Deciding effective user preferences from what the durable store holds.
//!
//! The store itself is outside I/O; these functions take what was read from
//! it — or that nothing was — and say exactly which value applies.

use vstd::prelude::*;
use vstd::string::StringExecFns;

verus! {

/// The directory downloads go to: the user's choice when one is stored,
/// otherwise `Downloads` under the home directory, and an error when not
/// even a home directory is known.
pub fn resolve_download_dir(custom: Option<String>, home: Option<String>) -> (r: Result<
    String,
    String,
>)
    ensures
        custom is Some ==> r is Ok && r->Ok_0 == custom->0,
        custom is None && home is Some ==> r is Ok && r->Ok_0@ == home->0@ + "/Downloads"@,
        custom is None && home is None ==> r is Err && r->Err_0@
            == "Could not determine home directory"@,
{
    match custom {
        Some(dir) => Ok(dir),
        None => match home {
            Some(h) => Ok(h.concat("/Downloads")),
            None => Err("Could not determine home directory".to_owned()),
        },
    }
}

/// The effective theme: the stored one when present, otherwise `system`.
pub fn resolve_theme(stored: Option<String>) -> (r: String)
    ensures
        stored is Some ==> r == stored->0,
        stored is None ==> r@ == "system"@,
{
    match stored {
        Some(theme) => theme,
        None => "system".to_owned(),
    }
}

/// Whether a directory may become the download directory: it must exist and
/// be a directory. The two facts come from the caller's filesystem probe;
/// the decision and its exact wording are made here.
pub fn validate_download_dir(dir: String, exists: bool, is_directory: bool) -> (r: Result<
    String,
    String,
>)
    ensures
        !exists ==> r is Err && r->Err_0@ == "Directory does not exist: "@ + dir@,
        exists && !is_directory ==> r is Err && r->Err_0@ == "Path is not a directory: "@ + dir@,
        exists && is_directory ==> r is Ok && r->Ok_0 == dir,
{
    if !exists {
        Err("Directory does not exist: ".to_owned().concat(dir.as_str()))
    } else if !is_directory {
        Err("Path is not a directory: ".to_owned().concat(dir.as_str()))
    } else {
        Ok(dir)
    }
}

/// Zoom is kept in tenths of the display scale, so the bounds are exact:
/// 5 tenths (50 percent) up to 30 tenths (300 percent), 10 being normal.
pub const ZOOM_MIN_TENTHS: u32 = 5;

pub const ZOOM_MAX_TENTHS: u32 = 30;

pub const ZOOM_DEFAULT_TENTHS: u32 = 10;

/// The stored zoom level, or normal when none is stored.
pub fn resolve_zoom(stored: Option<u32>) -> (r: u32)
    ensures
        stored is Some ==> r == stored->0,
        stored is None ==> r == ZOOM_DEFAULT_TENTHS,
{
    match stored {
        Some(level) => level,
        None => ZOOM_DEFAULT_TENTHS,
    }
}

/// One zoom step up: a tenth more, never above 300 percent.
pub fn zoom_in_level(current: u32) -> (r: u32)
    ensures
        r == if current >= ZOOM_MAX_TENTHS {
            ZOOM_MAX_TENTHS as int
        } else {
            current + 1
        },
{
    if current >= ZOOM_MAX_TENTHS {
        ZOOM_MAX_TENTHS
    } else {
        current + 1
    }
}

/// One zoom step down: a tenth less, never below 50 percent.
pub fn zoom_out_level(current: u32) -> (r: u32)
    ensures
        r == if current > ZOOM_MIN_TENTHS {
            current - 1
        } else {
            ZOOM_MIN_TENTHS as int
        },
{
    if current > ZOOM_MIN_TENTHS {
        current - 1
    } else {
        ZOOM_MIN_TENTHS
    }
}

} // verus!
