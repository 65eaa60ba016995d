//! Setting store and the blacklist workflow.
//!
//! Typed get/set of numeric settings on a profile, the feature-toggle read
//! with its default-on-absence convention, and the two orchestrating
//! operations that enable or disable the feature for an executable.

use vstd::prelude::*;
use crate::applications::{create_application, find_application};
use crate::backend::{DrsBackend, ProfileHandle};
use crate::error::{NvApiError, NVAPI_OK, NVAPI_SETTING_NOT_FOUND};
use crate::model::{
    blacklist_room, blacklist_step, derived_profile_name, has_exe, lemma_exe_index_of,
    lemma_profile_index_of, profile_has_exe, registry_wf, set_setting_at, shadowplay_disabled,
    unblacklist_step,
};
use crate::profiles::{create_profile, find_profile_by_name};
use crate::session::save_settings;
use crate::types::BlacklistResult;
use crate::wire::{SHADOWPLAY_SETTING_ID, SHADOWPLAY_DISABLED, SHADOWPLAY_ENABLED};

verus! {

/// Reads one numeric setting. A missing setting is reported as
/// `GetSettingFailed` carrying the not-found sentinel, so callers can treat
/// absence as a default rather than an error.
pub fn get_dword_setting<B: DrsBackend>(b: &B, profile: ProfileHandle, setting_id: u32) -> (r:
    Result<u32, NvApiError>)
    requires
        b.session_open(),
        registry_wf(b.mem()),
        0 <= b.handle_target(profile) < b.mem().len(),
    ensures
        ({
            let st = b.mem()[b.handle_target(profile)].settings;
            &&& r is Ok ==> st.contains_key(setting_id) && r->Ok_0 == st[setting_id]
            &&& r is Err ==> r->Err_0 is GetSettingFailed
            &&& b.reliable() && st.contains_key(setting_id) ==> r is Ok
            &&& b.reliable() && !st.contains_key(setting_id) ==> r is Err
                && r->Err_0->GetSettingFailed_0 == NVAPI_SETTING_NOT_FOUND
        }),
{
    match b.drs_get_setting(profile, setting_id) {
        Ok(value) => Ok(value),
        Err(status) => Err(NvApiError::GetSettingFailed(status)),
    }
}

/// Writes one numeric setting into the session's in-memory registry. The
/// write is not persisted until settings are saved.
pub fn set_dword_setting<B: DrsBackend>(
    b: &mut B,
    profile: ProfileHandle,
    setting_id: u32,
    value: u32,
) -> (r: Result<(), NvApiError>)
    requires
        old(b).session_open(),
        registry_wf(old(b).mem()),
        registry_wf(old(b).disk()),
        0 <= old(b).handle_target(profile) < old(b).mem().len(),
    ensures
        registry_wf(final(b).mem()),
        registry_wf(final(b).disk()),
        final(b).session_open(),
        final(b).disk() == old(b).disk(),
        final(b).reliable() == old(b).reliable(),
        forall|h: ProfileHandle| #[trigger] final(b).handle_target(h) == old(b).handle_target(h),
        r is Ok ==> final(b).mem() == set_setting_at(
            old(b).mem(),
            old(b).handle_target(profile),
            setting_id,
            value,
        ),
        r is Err ==> final(b).mem() == old(b).mem() && r->Err_0 is SetSettingFailed,
        old(b).reliable() ==> r is Ok,
{
    let status = b.drs_set_setting(profile, setting_id, value);
    if status != NVAPI_OK {
        return Err(NvApiError::SetSettingFailed(status));
    }
    Ok(())
}

/// Whether the feature is disabled (blacklisted) for the profile. Only the
/// explicit "disabled" sentinel counts; an absent setting, or any other
/// value, means enabled — absence is the default, not an error.
pub fn get_shadowplay_status<B: DrsBackend>(b: &B, profile: ProfileHandle) -> (r: Result<
    bool,
    NvApiError,
>)
    requires
        b.session_open(),
        registry_wf(b.mem()),
        0 <= b.handle_target(profile) < b.mem().len(),
    ensures
        r is Ok,
        r->Ok_0 ==> shadowplay_disabled(b.mem()[b.handle_target(profile)]),
        b.reliable() ==> r->Ok_0 == shadowplay_disabled(b.mem()[b.handle_target(profile)]),
{
    match get_dword_setting(b, profile, SHADOWPLAY_SETTING_ID) {
        Ok(value) => Ok(value == SHADOWPLAY_DISABLED),
        Err(e) => match e {
            NvApiError::GetSettingFailed(_) => Ok(false),
            other => Err(other),
        },
    }
}

/// Blacklists an executable: if the registry tracks it, its profile's
/// feature toggle is set to the disabled sentinel; otherwise a profile with
/// the deterministically derived name is found or created, the executable is
/// added to it, and the sentinel is written there. Either way the change is
/// persisted. Auto-provisioning on blacklist is intentional policy: the
/// feature is enforced even for previously untracked executables.
pub fn blacklist_application<B: DrsBackend>(b: &mut B, executable: &str) -> (r: Result<
    BlacklistResult,
    NvApiError,
>)
    requires
        registry_wf(old(b).mem()),
        registry_wf(old(b).disk()),
    ensures
        registry_wf(final(b).mem()),
        registry_wf(final(b).disk()),
        final(b).reliable() == old(b).reliable(),
        r is Ok ==> r->Ok_0.success && r->Ok_0.executable@ == executable@,
        r is Err ==> r->Err_0 is SessionCreationFailed || r->Err_0 is LoadSettingsFailed
            || r->Err_0 is NvApiStatus || r->Err_0 is ProfileCreationFailed
            || r->Err_0 is ApplicationCreationFailed || r->Err_0 is SetSettingFailed
            || r->Err_0 is SaveSettingsFailed,
        ({
            let base = if old(b).session_open() {
                old(b).mem()
            } else {
                old(b).disk()
            };
            old(b).reliable() && blacklist_room(base, executable@) ==> r is Ok && final(b).mem()
                == blacklist_step(base, executable@) && final(b).disk() == final(b).mem() && (
            has_exe(base, executable@) ==> r->Ok_0.message@
                == "Application blacklisted successfully"@) && (!has_exe(base, executable@)
                ==> r->Ok_0.message@ == "Created profile '"@ + derived_profile_name(executable@)
                + "' and blacklisted application"@)
        }),
{
    match find_application(b, executable) {
        Ok((profile_handle, _app)) => {
            let ghost m = b.mem();
            let ghost t = b.handle_target(profile_handle);
            proof {
                lemma_exe_index_of(m, executable@, t);
            }
            match set_dword_setting(b, profile_handle, SHADOWPLAY_SETTING_ID, SHADOWPLAY_DISABLED) {
                Ok(()) => {},
                Err(e) => {
                    return Err(e);
                },
            }
            match save_settings(b) {
                Ok(()) => {},
                Err(e) => {
                    return Err(e);
                },
            }
            Ok(
                BlacklistResult {
                    success: true,
                    executable: executable.to_owned(),
                    message: String::from_str("Application blacklisted successfully"),
                },
            )
        },
        Err(e) => {
            match e {
                NvApiError::ApplicationNotFound(_) => {},
                other => {
                    return Err(other);
                },
            }
            // the executable is not tracked: provision a profile for it
            let ghost m = b.mem();
            let mut profile_name = String::from_str("Nvidiot - ");
            profile_name.append(executable);
            let profile_handle = match find_profile_by_name(b, profile_name.as_str()) {
                Ok(h) => {
                    proof {
                        lemma_profile_index_of(m, profile_name@, b.handle_target(h));
                    }
                    h
                },
                Err(e2) => {
                    match e2 {
                        NvApiError::ProfileNotFound(_) => {},
                        other => {
                            return Err(other);
                        },
                    }
                    match create_profile(b, profile_name.as_str()) {
                        Ok(h) => h,
                        Err(e3) => {
                            return Err(e3);
                        },
                    }
                },
            };
            proof {
                if !has_exe(m, executable@) && b.mem() != m {
                    // a fresh profile was appended; it holds no rows yet
                    assert(!has_exe(b.mem(), executable@)) by {
                        if has_exe(b.mem(), executable@) {
                            let i = choose|i: int|
                                0 <= i < b.mem().len() && profile_has_exe(b.mem()[i], executable@);
                            if i < m.len() {
                                assert(b.mem()[i] == m[i]);
                                assert(has_exe(m, executable@));
                            } else {
                                let j = choose|j: int|
                                    0 <= j < b.mem()[i].apps.len() && b.mem()[i].apps[
                                    j].executable == executable@;
                            }
                        }
                    }
                }
            }
            match create_application(b, profile_handle, executable, profile_name.as_str()) {
                Ok(()) => {},
                Err(e2) => {
                    return Err(e2);
                },
            }
            match set_dword_setting(b, profile_handle, SHADOWPLAY_SETTING_ID, SHADOWPLAY_DISABLED) {
                Ok(()) => {},
                Err(e2) => {
                    return Err(e2);
                },
            }
            match save_settings(b) {
                Ok(()) => {},
                Err(e2) => {
                    return Err(e2);
                },
            }
            let mut message = String::from_str("Created profile '");
            message.append(profile_name.as_str());
            message.append("' and blacklisted application");
            proof {
                assert(message@ =~= "Created profile '"@ + derived_profile_name(executable@)
                    + "' and blacklisted application"@);
            }
            Ok(
                BlacklistResult {
                    success: true,
                    executable: executable.to_owned(),
                    message,
                },
            )
        },
    }
}

/// Unblacklists an executable: if the registry tracks it, its profile's
/// feature toggle is set to the enabled sentinel and the change is
/// persisted. An executable that was never tracked is a no-op reported with
/// `success == false`, not an error: only state that exists is reversed.
pub fn unblacklist_application<B: DrsBackend>(b: &mut B, executable: &str) -> (r: Result<
    BlacklistResult,
    NvApiError,
>)
    requires
        registry_wf(old(b).mem()),
        registry_wf(old(b).disk()),
    ensures
        registry_wf(final(b).mem()),
        registry_wf(final(b).disk()),
        final(b).reliable() == old(b).reliable(),
        r is Ok ==> r->Ok_0.executable@ == executable@,
        r is Err ==> r->Err_0 is SessionCreationFailed || r->Err_0 is LoadSettingsFailed
            || r->Err_0 is NvApiStatus || r->Err_0 is SetSettingFailed
            || r->Err_0 is SaveSettingsFailed,
        ({
            let base = if old(b).session_open() {
                old(b).mem()
            } else {
                old(b).disk()
            };
            old(b).reliable() ==> r is Ok && final(b).mem() == unblacklist_step(base, executable@)
                && (has_exe(base, executable@) ==> r->Ok_0.success && final(b).disk() == final(b).mem() && r->Ok_0.message@ == "Application unblacklisted successfully"@) && (!has_exe(
                base,
                executable@,
            ) ==> !r->Ok_0.success && final(b).mem() == base && final(b).disk() == old(b).disk()
                && r->Ok_0.message@ == "Application not found in driver settings"@)
        }),
{
    match find_application(b, executable) {
        Ok((profile_handle, _app)) => {
            let ghost m = b.mem();
            let ghost t = b.handle_target(profile_handle);
            proof {
                lemma_exe_index_of(m, executable@, t);
            }
            match set_dword_setting(b, profile_handle, SHADOWPLAY_SETTING_ID, SHADOWPLAY_ENABLED) {
                Ok(()) => {},
                Err(e) => {
                    return Err(e);
                },
            }
            match save_settings(b) {
                Ok(()) => {},
                Err(e) => {
                    return Err(e);
                },
            }
            Ok(
                BlacklistResult {
                    success: true,
                    executable: executable.to_owned(),
                    message: String::from_str("Application unblacklisted successfully"),
                },
            )
        },
        Err(e) => {
            match e {
                NvApiError::ApplicationNotFound(_) => Ok(
                    BlacklistResult {
                        success: false,
                        executable: executable.to_owned(),
                        message: String::from_str("Application not found in driver settings"),
                    },
                ),
                other => Err(other),
            }
        },
    }
}

} // verus!

