//! The closed set of status outcomes the native layer reports, and their
//! translation to human-readable diagnostics.

use vstd::prelude::*;

verus! {

/// One outcome of a native call.  The set is closed: every raw code outside
/// the documented range collapses to `Unknown`, so translation itself can
/// never fail.
#[derive(Clone, Copy, PartialEq, Eq, Structural, Debug)]
pub enum StatusCode {
    Success,
    Deferred,
    NotSupported,
    FailedNotDeferred,
    InvalidTarget,
    UnknownTarget,
    InvalidParam,
    Failed,
    NoData,
    Unknown,
}

/// Which status a raw native return code denotes.
pub open spec fn spec_status_from_code(code: int) -> StatusCode {
    if code == 0 {
        StatusCode::Success
    } else if code == 1 {
        StatusCode::Deferred
    } else if code == -1 {
        StatusCode::NotSupported
    } else if code == -2 {
        StatusCode::FailedNotDeferred
    } else if code == -3 {
        StatusCode::InvalidTarget
    } else if code == -4 {
        StatusCode::UnknownTarget
    } else if code == -5 {
        StatusCode::InvalidParam
    } else if code == -6 {
        StatusCode::Failed
    } else if code == -7 {
        StatusCode::NoData
    } else {
        StatusCode::Unknown
    }
}

/// Decodes a raw native return code into the closed status enumeration.
pub fn status_from_code(code: i32) -> (r: StatusCode)
    ensures
        r == spec_status_from_code(code as int),
{
    if code == 0 {
        StatusCode::Success
    } else if code == 1 {
        StatusCode::Deferred
    } else if code == -1 {
        StatusCode::NotSupported
    } else if code == -2 {
        StatusCode::FailedNotDeferred
    } else if code == -3 {
        StatusCode::InvalidTarget
    } else if code == -4 {
        StatusCode::UnknownTarget
    } else if code == -5 {
        StatusCode::InvalidParam
    } else if code == -6 {
        StatusCode::Failed
    } else if code == -7 {
        StatusCode::NoData
    } else {
        StatusCode::Unknown
    }
}

/// The diagnostic text for each status.
pub open spec fn spec_error_str(code: StatusCode) -> Seq<char> {
    match code {
        StatusCode::Success | StatusCode::Deferred => "Internal error in the library (success detected as failure)"@,
        StatusCode::NotSupported => "Not supported"@,
        StatusCode::FailedNotDeferred => "Failed not deferred"@,
        StatusCode::InvalidTarget => "Invalid target"@,
        StatusCode::UnknownTarget => "Unknown target"@,
        StatusCode::InvalidParam => "Invalid parameter"@,
        StatusCode::Failed => "Failed"@,
        StatusCode::NoData => "No data"@,
        StatusCode::Unknown => "Undocumented error"@,
    }
}

/// Maps a status to a human-readable diagnostic.  The translation is total
/// over the closed enumeration and always yields a non-empty message; an
/// unrecognized code gets a generic diagnostic rather than an error.
pub fn error_to_str(code: StatusCode) -> (r: &'static str)
    ensures
        r@ == spec_error_str(code),
        r@.len() > 0,
{
    proof {
        reveal_strlit("Internal error in the library (success detected as failure)");
        reveal_strlit("Not supported");
        reveal_strlit("Failed not deferred");
        reveal_strlit("Invalid target");
        reveal_strlit("Unknown target");
        reveal_strlit("Invalid parameter");
        reveal_strlit("Failed");
        reveal_strlit("No data");
        reveal_strlit("Undocumented error");
    }
    match code {
        StatusCode::Success | StatusCode::Deferred => "Internal error in the library (success detected as failure)",
        StatusCode::NotSupported => "Not supported",
        StatusCode::FailedNotDeferred => "Failed not deferred",
        StatusCode::InvalidTarget => "Invalid target",
        StatusCode::UnknownTarget => "Unknown target",
        StatusCode::InvalidParam => "Invalid parameter",
        StatusCode::Failed => "Failed",
        StatusCode::NoData => "No data",
        StatusCode::Unknown => "Undocumented error",
    }
}

} // verus!
