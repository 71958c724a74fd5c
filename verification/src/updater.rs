//! The update statuses the application reports while checking for,
//! downloading and installing updates.

use vstd::prelude::*;
use crate::window::opt_str_view;

verus! {

/// Seconds from start-up to the first update check.
pub const UPDATE_CHECK_DELAY_SECS: u64 = 10;

/// Seconds between two update checks.
pub const UPDATE_CHECK_INTERVAL_SECS: u64 = 4 * 60 * 60;

/// An update status, as reported to the front end (`update-status` events).
/// While downloading, the application adds the download progress.
#[derive(Debug, PartialEq, Eq)]
pub struct UpdateStatus {
    pub status: String,
    pub version: Option<String>,
    pub message: Option<String>,
}

/// What an update check found.
#[derive(Debug, PartialEq, Eq)]
pub enum UpdateCheck {
    /// An update to `version` is available.
    Available(String),
    /// The application is up to date.
    UpToDate,
    /// The check failed with this message.
    Failed(String),
}

/// Whether `s` has status `status`, version `version` and message `message`.
pub open spec fn status_is(
    s: UpdateStatus,
    status: Seq<char>,
    version: Option<Seq<char>>,
    message: Option<Seq<char>>,
) -> bool {
    s.status@ == status && opt_str_view(s.version) == version && opt_str_view(s.message)
        == message
}

/// The status reported when a check starts.
pub fn checking_status() -> (s: UpdateStatus)
    ensures
        status_is(s, "checking"@, None, None),
{
    UpdateStatus { status: "checking".to_string(), version: None, message: None }
}

/// The status reported when something fails with `message`.
pub fn error_status(message: String) -> (s: UpdateStatus)
    ensures
        status_is(s, "error"@, None, Some(message@)),
{
    UpdateStatus { status: "error".to_string(), version: None, message: Some(message) }
}

/// The status reported after a check: `available` with the version, `up-to-date`, or `error`.
pub fn check_result_status(check: UpdateCheck) -> (s: UpdateStatus)
    ensures
        match check {
            UpdateCheck::Available(v) => status_is(s, "available"@, Some(v@), None),
            UpdateCheck::UpToDate => status_is(s, "up-to-date"@, None, None),
            UpdateCheck::Failed(m) => status_is(s, "error"@, None, Some(m@)),
        },
{
    match check {
        UpdateCheck::Available(v) => UpdateStatus {
            status: "available".to_string(),
            version: Some(v),
            message: None,
        },
        UpdateCheck::UpToDate => UpdateStatus {
            status: "up-to-date".to_string(),
            version: None,
            message: None,
        },
        UpdateCheck::Failed(m) => error_status(m),
    }
}

/// The status reported after the check that precedes a download: `downloading`
/// with the version when there is an update, otherwise as after a check.
pub fn download_start_status(check: UpdateCheck) -> (s: UpdateStatus)
    ensures
        match check {
            UpdateCheck::Available(v) => status_is(s, "downloading"@, Some(v@), None),
            UpdateCheck::UpToDate => status_is(s, "up-to-date"@, None, None),
            UpdateCheck::Failed(m) => status_is(s, "error"@, None, Some(m@)),
        },
{
    match check {
        UpdateCheck::Available(v) => UpdateStatus {
            status: "downloading".to_string(),
            version: Some(v),
            message: None,
        },
        other => check_result_status(other),
    }
}

/// The status reported when installing `version` ended: `ready` with the
/// version, or `error` with the message.
pub fn install_result_status(version: String, result: Result<(), String>) -> (s: UpdateStatus)
    ensures
        match result {
            Ok(()) => status_is(s, "ready"@, Some(version@), None),
            Err(m) => status_is(s, "error"@, None, Some(m@)),
        },
{
    match result {
        Ok(()) => UpdateStatus { status: "ready".to_string(), version: Some(version), message: None },
        Err(m) => error_status(m),
    }
}

} // verus!
