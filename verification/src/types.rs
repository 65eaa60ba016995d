//! Plain data types exchanged with callers.

use vstd::prelude::*;

verus! {

/// A registry profile: a named bucket of per-application settings.
#[derive(Debug, Clone)]
pub struct DrsProfile {
    pub name: String,
    pub is_predefined: bool,
    pub application_count: u32,
}

/// An application registered in a profile. `executable` is the lookup key.
#[derive(Debug, Clone)]
pub struct DrsApplication {
    pub name: String,
    pub executable: String,
    pub profile_name: String,
    pub is_predefined: bool,
    pub is_blacklisted: bool,
}

/// Facts about one process with a visible window, as the operating-system
/// collaborator reports them.
#[derive(Debug, Clone)]
pub struct ProcessFacts {
    pub process_id: u32,
    pub process_name: String,
    pub window_title: String,
    pub executable_path: Option<String>,
}

/// A running process, augmented with its registry membership.
#[derive(Debug, Clone)]
pub struct RunningProcess {
    pub process_name: String,
    pub window_title: String,
    pub process_id: u32,
    pub executable_path: Option<String>,
    pub has_drs_profile: bool,
    pub profile_name: Option<String>,
    pub is_blacklisted: Option<bool>,
}

/// The currently focused application, augmented with its registry membership.
#[derive(Debug, Clone)]
pub struct FocusApplication {
    pub process_name: String,
    pub window_title: String,
    pub process_id: u32,
    pub is_in_drs: bool,
    pub profile_name: Option<String>,
    pub is_blacklisted: Option<bool>,
}

/// Outcome report of a blacklist or unblacklist operation. A human-readable
/// result, not an error type: `success == false` is a valid outcome.
#[derive(Debug, Clone)]
pub struct BlacklistResult {
    pub success: bool,
    pub executable: String,
    pub message: String,
}

/// Whether the native backend is available, with the failure description when
/// it is not.
#[derive(Debug, Clone)]
pub struct NvApiStatus {
    pub available: bool,
    pub error: Option<String>,
}

} // verus!
