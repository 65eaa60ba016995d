//! Application registry: enumerating applications inside profiles, the
//! registry-wide lookup by executable, and creating application rows.

use vstd::prelude::*;
use crate::backend::{AppRecord, DrsBackend, ProfileHandle, app_matches};
use crate::error::{NvApiError, NVAPI_OK, NVAPI_EXECUTABLE_NOT_FOUND};
use crate::model::{
    AppModel, has_exe, has_profile, profile_has_exe, push_app_at, push_profile, registry_wf,
    shadowplay_disabled,
};
use crate::model::ProfileModel;
use crate::profiles::{create_profile, enumerate_profiles, find_profile_by_name};
use crate::session::{get_session, opened, save_settings};
use crate::settings::get_shadowplay_status;
use crate::backend::profile_matches;
use crate::types::DrsApplication;

verus! {

/// Applications are fetched in fixed-size pages of this many rows per call.
const ENUM_PAGE: u32 = 32;

/// The returned application is the model row enriched with its profile name.
pub open spec fn app_enriched(d: DrsApplication, a: AppModel, profile_name: Seq<char>) -> bool {
    &&& d.name@ == a.name
    &&& d.executable@ == a.executable
    &&& d.profile_name@ == profile_name
    &&& d.is_predefined == a.is_predefined
}

/// Enumerates the applications of one profile, in fixed-size pages from row
/// zero, stopping at the end-of-enumeration sentinel, an empty page, or any
/// error — partial results already collected are kept, not discarded. Each
/// row is enriched with the profile's feature-toggle state.
pub fn enumerate_applications<B: DrsBackend>(
    b: &B,
    profile: ProfileHandle,
    profile_name: &str,
) -> (r: Result<Vec<DrsApplication>, NvApiError>)
    requires
        b.session_open(),
        registry_wf(b.mem()),
        0 <= b.handle_target(profile) < b.mem().len(),
    ensures
        r is Ok,
        ({
            let apps = b.mem()[b.handle_target(profile)].apps;
            let res = r->Ok_0@;
            &&& res.len() <= apps.len()
            &&& forall|i: int|
                0 <= i < res.len() ==> app_enriched(#[trigger] res[i], apps[i], profile_name@)
            &&& forall|i: int|
                0 <= i < res.len() ==> ((#[trigger] res[i]).is_blacklisted ==> shadowplay_disabled(
                    b.mem()[b.handle_target(profile)],
                ))
            &&& b.reliable() ==> res.len() == apps.len() && forall|i: int|
                0 <= i < res.len() ==> (#[trigger] res[i]).is_blacklisted == shadowplay_disabled(
                    b.mem()[b.handle_target(profile)],
                )
        }),
{
    let ghost apps = b.mem()[b.handle_target(profile)].apps;
    // Read the application count first; if that fails, enumerate
    // optimistically and rely on the end-of-enumeration sentinel alone.
    let num_apps: u32 = match b.drs_get_profile_info(profile) {
        Ok(info) => info.application_count,
        Err(_) => u32::MAX,
    };
    let mut applications: Vec<DrsApplication> = Vec::new();
    let mut start: u32 = 0;
    while start < num_apps
        invariant
            b.session_open(),
            registry_wf(b.mem()),
            0 <= b.handle_target(profile) < b.mem().len(),
            apps == b.mem()[b.handle_target(profile)].apps,
            b.reliable() ==> num_apps as nat == apps.len(),
            applications@.len() == start as nat,
            start as nat <= apps.len(),
            forall|i: int|
                0 <= i < applications@.len() ==> app_enriched(
                    #[trigger] applications@[i],
                    apps[i],
                    profile_name@,
                ),
            forall|i: int|
                0 <= i < applications@.len() ==> ((#[trigger] applications@[i]).is_blacklisted
                    ==> shadowplay_disabled(b.mem()[b.handle_target(profile)])),
            b.reliable() ==> forall|i: int|
                0 <= i < applications@.len() ==> (#[trigger] applications@[i]).is_blacklisted
                    == shadowplay_disabled(b.mem()[b.handle_target(profile)]),
        ensures
            applications@.len() <= apps.len(),
            apps == b.mem()[b.handle_target(profile)].apps,
            forall|i: int|
                0 <= i < applications@.len() ==> app_enriched(
                    #[trigger] applications@[i],
                    apps[i],
                    profile_name@,
                ),
            forall|i: int|
                0 <= i < applications@.len() ==> ((#[trigger] applications@[i]).is_blacklisted
                    ==> shadowplay_disabled(b.mem()[b.handle_target(profile)])),
            b.reliable() ==> applications@.len() == apps.len() && forall|i: int|
                0 <= i < applications@.len() ==> (#[trigger] applications@[i]).is_blacklisted
                    == shadowplay_disabled(b.mem()[b.handle_target(profile)]),
        decreases apps.len() - start as nat,
    {
        match b.drs_enum_applications(profile, start, ENUM_PAGE) {
            Err(_) => {
                // end of enumeration, or an error on this profile: keep what
                // was collected so far
                break;
            },
            Ok(page) => {
                if page.len() == 0 {
                    break;
                }
                let count = page.len();
                let mut k: usize = 0;
                while k < count
                    invariant
                        b.session_open(),
                        registry_wf(b.mem()),
                        0 <= b.handle_target(profile) < b.mem().len(),
                        apps == b.mem()[b.handle_target(profile)].apps,
                        0 <= k <= count,
                        count == page@.len(),
                        start as nat + count <= apps.len(),
                        applications@.len() == start as nat + k,
                        forall|i: int|
                            0 <= i < count ==> app_matches(
                                #[trigger] page@[i],
                                apps[start as int + i],
                            ),
                        forall|i: int|
                            0 <= i < applications@.len() ==> app_enriched(
                                #[trigger] applications@[i],
                                apps[i],
                                profile_name@,
                            ),
                        forall|i: int|
                            0 <= i < applications@.len() ==> ((
                            #[trigger] applications@[i]).is_blacklisted ==> shadowplay_disabled(
                                b.mem()[b.handle_target(profile)],
                            )),
                        b.reliable() ==> forall|i: int|
                            0 <= i < applications@.len() ==> (
                            #[trigger] applications@[i]).is_blacklisted == shadowplay_disabled(
                                b.mem()[b.handle_target(profile)],
                            ),
                    decreases count - k,
                {
                    let rec = &page[k];
                    let is_blacklisted = match get_shadowplay_status(b, profile) {
                        Ok(v) => v,
                        Err(_) => false,
                    };
                    applications.push(
                        DrsApplication {
                            name: rec.name.clone(),
                            executable: rec.executable.clone(),
                            profile_name: profile_name.to_owned(),
                            is_predefined: rec.is_predefined,
                            is_blacklisted,
                        },
                    );
                    k = k + 1;
                }
                start = start + count as u32;
            },
        }
    }
    Ok(applications)
}

/// Looks an application up by executable name across the whole registry,
/// returning the owning profile's handle together with the row. The
/// backend's not-found sentinel becomes the named `ApplicationNotFound`
/// outcome.
pub fn find_application<B: DrsBackend>(b: &mut B, executable: &str) -> (r: Result<
    (ProfileHandle, AppRecord),
    NvApiError,
>)
    requires
        registry_wf(old(b).mem()),
        registry_wf(old(b).disk()),
    ensures
        registry_wf(final(b).mem()),
        registry_wf(final(b).disk()),
        final(b).disk() == old(b).disk(),
        final(b).reliable() == old(b).reliable(),
        r is Ok ==> opened(*old(b), *final(b)) && ({
            let t = final(b).handle_target(r->Ok_0.0);
            &&& 0 <= t < final(b).mem().len()
            &&& profile_has_exe(final(b).mem()[t], executable@)
            &&& r->Ok_0.1.executable@ == executable@
        }),
        r is Err && r->Err_0 is ApplicationNotFound ==> opened(*old(b), *final(b)) && !has_exe(
            final(b).mem(),
            executable@,
        ) && r->Err_0->ApplicationNotFound_0@ == executable@,
        r is Err ==> r->Err_0 is SessionCreationFailed || r->Err_0 is LoadSettingsFailed
            || r->Err_0 is ApplicationNotFound || r->Err_0 is NvApiStatus,
        old(b).session_open() ==> final(b).session_open() && final(b).mem() == old(b).mem(),
        r is Err && (r->Err_0 is SessionCreationFailed || r->Err_0 is LoadSettingsFailed)
            ==> !final(b).session_open(),
        r is Err && r->Err_0 is NvApiStatus ==> opened(*old(b), *final(b)),
        old(b).reliable() ==> ({
            let base = if old(b).session_open() {
                old(b).mem()
            } else {
                old(b).disk()
            };
            &&& has_exe(base, executable@) ==> r is Ok
            &&& !has_exe(base, executable@) ==> r is Err && r->Err_0 is ApplicationNotFound
        }),
{
    match get_session(b) {
        Ok(()) => {},
        Err(e) => {
            return Err(e);
        },
    }
    match b.drs_find_application_by_name(executable) {
        Ok((profile_handle, record)) => {
            proof {
                let t = b.handle_target(profile_handle);
                let j = choose|j: int|
                    0 <= j < b.mem()[t].apps.len() && b.mem()[t].apps[j].executable == executable@
                        && app_matches(record, b.mem()[t].apps[j]);
                assert(record.executable@ == executable@);
            }
            Ok((profile_handle, record))
        },
        Err(status) => {
            if status == NVAPI_EXECUTABLE_NOT_FOUND {
                Err(NvApiError::ApplicationNotFound(executable.to_owned()))
            } else {
                Err(NvApiError::NvApiStatus(status))
            }
        },
    }
}

/// Inserts a new application row for the executable into the given profile.
/// Any non-success status becomes `ApplicationCreationFailed` with the raw
/// code.
pub fn create_application<B: DrsBackend>(
    b: &mut B,
    profile: ProfileHandle,
    executable: &str,
    friendly_name: &str,
) -> (r: Result<(), NvApiError>)
    requires
        old(b).session_open(),
        registry_wf(old(b).mem()),
        registry_wf(old(b).disk()),
        0 <= old(b).handle_target(profile) < old(b).mem().len(),
    ensures
        registry_wf(final(b).mem()),
        registry_wf(final(b).disk()),
        final(b).session_open(),
        final(b).disk() == old(b).disk(),
        final(b).reliable() == old(b).reliable(),
        forall|h: ProfileHandle| #[trigger] final(b).handle_target(h) == old(b).handle_target(h),
        final(b).mem().len() == old(b).mem().len(),
        r is Ok ==> !has_exe(old(b).mem(), executable@) && final(b).mem() == push_app_at(
            old(b).mem(),
            old(b).handle_target(profile),
            friendly_name@,
            executable@,
        ),
        r is Err ==> final(b).mem() == old(b).mem() && r->Err_0 is ApplicationCreationFailed,
        old(b).reliable() && !has_exe(old(b).mem(), executable@) && old(b).mem()[old(
            b,
        ).handle_target(profile)].apps.len() < u32::MAX ==> r is Ok,
{
    let status = b.drs_create_application(profile, executable, friendly_name);
    if status != NVAPI_OK {
        return Err(NvApiError::ApplicationCreationFailed(status));
    }
    Ok(())
}

/// Creates a profile with the given display name, adds an application row
/// for the executable to it, and persists the result.
pub fn create_profile_for_executable<B: DrsBackend>(
    b: &mut B,
    executable: &str,
    profile_name: &str,
) -> (r: Result<(), NvApiError>)
    requires
        registry_wf(old(b).mem()),
        registry_wf(old(b).disk()),
    ensures
        registry_wf(final(b).mem()),
        registry_wf(final(b).disk()),
        final(b).reliable() == old(b).reliable(),
        ({
            let base = if old(b).session_open() {
                old(b).mem()
            } else {
                old(b).disk()
            };
            old(b).reliable() && !has_profile(base, profile_name@) && !has_exe(base, executable@)
                && base.len() < u32::MAX ==> r is Ok && final(b).mem() == push_app_at(
                push_profile(base, profile_name@),
                base.len() as int,
                profile_name@,
                executable@,
            ) && final(b).disk() == final(b).mem()
        }),
        r is Err ==> r->Err_0 is SessionCreationFailed || r->Err_0 is LoadSettingsFailed
            || r->Err_0 is ProfileCreationFailed || r->Err_0 is ApplicationCreationFailed
            || r->Err_0 is SaveSettingsFailed,
{
    let profile_handle = match create_profile(b, profile_name) {
        Ok(h) => h,
        Err(e) => {
            return Err(e);
        },
    };
    proof {
        let base = if old(b).session_open() {
            old(b).mem()
        } else {
            old(b).disk()
        };
        if !has_exe(base, executable@) {
            assert(!has_exe(b.mem(), executable@)) by {
                if has_exe(b.mem(), executable@) {
                    let i = choose|i: int|
                        0 <= i < b.mem().len() && profile_has_exe(b.mem()[i], executable@);
                    if i < base.len() {
                        assert(b.mem()[i] == base[i]);
                        assert(has_exe(base, executable@));
                    } else {
                        let j = choose|j: int|
                            0 <= j < b.mem()[i].apps.len() && b.mem()[i].apps[j].executable
                                == executable@;
                    }
                }
            }
        }
    }
    match create_application(b, profile_handle, executable, profile_name) {
        Ok(()) => {},
        Err(e) => {
            return Err(e);
        },
    }
    match save_settings(b) {
        Ok(()) => {},
        Err(e) => {
            return Err(e);
        },
    }
    Ok(())
}

/// One profile left out of a bulk listing, together with the failure that
/// caused the skip, so callers can observe what was dropped.
#[derive(Debug, Clone)]
pub struct SkippedProfile {
    pub profile_name: String,
    pub reason: String,
}

/// The number of application rows held by the first `i` profiles.
pub open spec fn flat_len(m: Seq<ProfileModel>, i: int) -> nat
    decreases i,
{
    if i <= 0 {
        0
    } else {
        flat_len(m, i - 1) + m[i - 1].apps.len()
    }
}

/// More profiles hold at least as many rows.
pub proof fn lemma_flat_len_mono(m: Seq<ProfileModel>, a: int, c: int)
    requires
        a <= c,
    ensures
        flat_len(m, a) <= flat_len(m, c),
    decreases c - a,
{
    if a < c {
        lemma_flat_len_mono(m, a, c - 1);
    }
}

/// Gathers the applications of every profile that reports a nonzero count,
/// in profile order. A profile that fails to resolve or enumerate is
/// skipped, not fatal: the aggregate returns whatever it collected together
/// with the skips. Against a reliable backend nothing is skipped and the
/// result is exactly the registry's rows, profile by profile.
pub fn get_all_applications<B: DrsBackend>(b: &mut B) -> (r: Result<
    (Vec<DrsApplication>, Vec<SkippedProfile>),
    NvApiError,
>)
    requires
        registry_wf(old(b).mem()),
        registry_wf(old(b).disk()),
    ensures
        registry_wf(final(b).mem()),
        registry_wf(final(b).disk()),
        final(b).disk() == old(b).disk(),
        final(b).reliable() == old(b).reliable(),
        r is Ok ==> opened(*old(b), *final(b)),
        r is Err ==> r->Err_0 is SessionCreationFailed || r->Err_0 is LoadSettingsFailed
            || r->Err_0 is NvApiStatus,
        old(b).reliable() ==> r is Ok,
        old(b).reliable() && r is Ok ==> ({
            let m = final(b).mem();
            let res = r->Ok_0.0@;
            &&& r->Ok_0.1@.len() == 0
            &&& res.len() == flat_len(m, m.len() as int)
            &&& forall|p: int, j: int|
                0 <= p < m.len() && 0 <= j < m[p].apps.len() ==> app_enriched(
                    #[trigger] res[flat_len(m, p) + j],
                    m[p].apps[j],
                    m[p].name,
                ) && res[flat_len(m, p) + j].is_blacklisted == shadowplay_disabled(m[p])
        }),
{
    let profiles = match enumerate_profiles(b) {
        Ok(v) => v,
        Err(e) => {
            return Err(e);
        },
    };
    let ghost m = b.mem();
    let mut all_apps: Vec<DrsApplication> = Vec::new();
    let mut skipped: Vec<SkippedProfile> = Vec::new();
    let mut i: usize = 0;
    while i < profiles.len()
        invariant
            b.session_open(),
            registry_wf(b.mem()),
            registry_wf(b.disk()),
            b.mem() == m,
            b.disk() == old(b).disk(),
            b.reliable() == old(b).reliable(),
            i <= profiles@.len(),
            b.reliable() ==> profiles@.len() == m.len() && (forall|k: int|
                0 <= k < m.len() ==> profile_matches(#[trigger] profiles@[k], m[k])),
            b.reliable() ==> skipped@.len() == 0 && all_apps@.len() == flat_len(m, i as int) && (
            forall|p: int, j: int|
                0 <= p < i && 0 <= j < m[p].apps.len() ==> app_enriched(
                    #[trigger] all_apps@[flat_len(m, p) + j],
                    m[p].apps[j],
                    m[p].name,
                ) && all_apps@[flat_len(m, p) + j].is_blacklisted == shadowplay_disabled(m[p])),
        decreases profiles@.len() - i,
    {
        let ghost apps_before = all_apps@;
        let profile = &profiles[i];
        if profile.application_count == 0 {
            // no applications to gather here
            proof {
                if b.reliable() {
                    assert(m[i as int].apps.len() == 0);
                    assert(flat_len(m, i as int + 1) == flat_len(m, i as int));
                }
            }
            i = i + 1;
            continue;
        }
        match find_profile_by_name(b, profile.name.as_str()) {
            Ok(profile_handle) => {
                proof {
                    if b.reliable() {
                        let t = b.handle_target(profile_handle);
                        assert(m[t].name == m[i as int].name);
                        if t != i as int {
                            assert(false);
                        }
                    }
                }
                match enumerate_applications(b, profile_handle, profile.name.as_str()) {
                    Ok(mut apps) => {
                        let ghost page = apps@;
                        all_apps.append(&mut apps);
                        proof {
                            if b.reliable() {
                                lemma_flat_len_mono(m, 0, i as int);
                                assert forall|p: int, j: int|
                                    0 <= p < i + 1 && 0 <= j < m[p].apps.len() implies app_enriched(
                                    #[trigger] all_apps@[flat_len(m, p) + j],
                                    m[p].apps[j],
                                    m[p].name,
                                ) && all_apps@[flat_len(m, p) + j].is_blacklisted
                                    == shadowplay_disabled(m[p]) by {
                                    if p < i {
                                        lemma_flat_len_mono(m, p + 1, i as int);
                                        assert(all_apps@[flat_len(m, p) + j] == apps_before[
                                            flat_len(m, p) + j]);
                                    } else {
                                        assert(all_apps@[flat_len(m, p) + j] == page[j]);
                                    }
                                }
                            }
                        }
                    },
                    Err(e) => {
                        skipped.push(
                            SkippedProfile {
                                profile_name: profile.name.clone(),
                                reason: e.message(),
                            },
                        );
                    },
                }
            },
            Err(e) => {
                proof {
                    if b.reliable() {
                        assert(m[i as int].name == profiles@[i as int].name@);
                        assert(crate::model::has_profile(m, profiles@[i as int].name@));
                    }
                }
                skipped.push(
                    SkippedProfile { profile_name: profile.name.clone(), reason: e.message() },
                );
            },
        }
        i = i + 1;
    }
    Ok((all_apps, skipped))
}

} // verus!
