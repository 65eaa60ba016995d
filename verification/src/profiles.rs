//! Profile catalog: enumerating, finding and creating profiles.

use vstd::prelude::*;
use crate::backend::{DrsBackend, ProfileHandle, profile_matches};
use crate::error::{NvApiError, NVAPI_END_ENUMERATION, NVAPI_PROFILE_NOT_FOUND};
use crate::model::{has_profile, push_profile, registry_wf};
use crate::session::{get_session, opened};
use crate::types::DrsProfile;

verus! {

/// No two summaries carry the same name.
pub open spec fn names_distinct(profiles: Seq<DrsProfile>) -> bool {
    forall|i: int, j: int| 0 <= i < j < profiles.len() ==> profiles[i].name@ != profiles[j].name@
}

/// The total number of profiles the backend reports.
pub fn get_profile_count<B: DrsBackend>(b: &mut B) -> (r: Result<u32, NvApiError>)
    requires
        registry_wf(old(b).mem()),
        registry_wf(old(b).disk()),
    ensures
        registry_wf(final(b).mem()),
        registry_wf(final(b).disk()),
        final(b).disk() == old(b).disk(),
        final(b).reliable() == old(b).reliable(),
        r is Ok ==> opened(*old(b), *final(b)) && r->Ok_0 as nat == final(b).mem().len(),
        r is Err ==> r->Err_0 is SessionCreationFailed || r->Err_0 is LoadSettingsFailed
            || r->Err_0 is NvApiStatus,
        old(b).reliable() ==> r is Ok,
{
    match get_session(b) {
        Ok(()) => {},
        Err(e) => {
            return Err(e);
        },
    }
    match b.drs_get_num_profiles() {
        Ok(count) => Ok(count),
        Err(status) => Err(NvApiError::NvApiStatus(status)),
    }
}

/// Enumerates all profiles, ascending from index zero, stopping at the
/// end-of-enumeration sentinel. Any other backend error aborts and
/// propagates; a profile whose descriptive info cannot be fetched is skipped
/// silently. The names of the returned summaries are unique, and against a
/// reliable backend the result reflects the registry exactly.
pub fn enumerate_profiles<B: DrsBackend>(b: &mut B) -> (r: Result<Vec<DrsProfile>, NvApiError>)
    requires
        registry_wf(old(b).mem()),
        registry_wf(old(b).disk()),
    ensures
        registry_wf(final(b).mem()),
        registry_wf(final(b).disk()),
        final(b).disk() == old(b).disk(),
        final(b).reliable() == old(b).reliable(),
        r is Ok ==> opened(*old(b), *final(b)),
        r is Ok ==> names_distinct(r->Ok_0@),
        old(b).reliable() && r is Ok ==> r->Ok_0@.len() == final(b).mem().len() && forall|i: int|
            0 <= i < r->Ok_0@.len() ==> profile_matches(#[trigger] r->Ok_0@[i], final(b).mem()[i]),
        r is Err ==> r->Err_0 is SessionCreationFailed || r->Err_0 is LoadSettingsFailed
            || r->Err_0 is NvApiStatus,
        old(b).session_open() ==> final(b).session_open() && final(b).mem() == old(b).mem(),
        old(b).reliable() ==> r is Ok,
{
    match get_session(b) {
        Ok(()) => {},
        Err(e) => {
            return Err(e);
        },
    }
    let ghost m = b.mem();
    let mut profiles: Vec<DrsProfile> = Vec::new();
    let mut index: u32 = 0;
    let ghost mut ks: Seq<int> = Seq::empty();
    loop
        invariant
            b.session_open(),
            registry_wf(b.mem()),
            registry_wf(b.disk()),
            b.mem() == m,
            b.disk() == old(b).disk(),
            b.reliable() == old(b).reliable(),
            old(b).session_open() ==> m == old(b).mem(),
            index as nat <= m.len(),
            ks.len() == profiles@.len(),
            forall|i: int| 0 <= i < ks.len() ==> 0 <= #[trigger] ks[i] < index as int,
            forall|i: int|
                0 <= i < ks.len() ==> profile_matches(#[trigger] profiles@[i], m[ks[i]]),
            names_distinct(profiles@),
            b.reliable() ==> profiles@.len() == index as nat && forall|i: int|
                0 <= i < index as int ==> profile_matches(#[trigger] profiles@[i], m[i]),
        ensures
            b.mem() == m,
            b.disk() == old(b).disk(),
            b.reliable() == old(b).reliable(),
            names_distinct(profiles@),
            ks.len() == profiles@.len(),
            forall|i: int| 0 <= i < ks.len() ==> 0 <= #[trigger] ks[i] < m.len(),
            forall|i: int|
                0 <= i < ks.len() ==> profile_matches(#[trigger] profiles@[i], m[ks[i]]),
            b.reliable() ==> profiles@.len() == m.len() && forall|i: int|
                0 <= i < profiles@.len() ==> profile_matches(#[trigger] profiles@[i], m[i]),
        decreases m.len() - index as nat,
    {
        match b.drs_enum_profile(index) {
            Err(status) => {
                if status == NVAPI_END_ENUMERATION {
                    break;
                }
                return Err(NvApiError::NvApiStatus(status));
            },
            Ok(profile_handle) => {
                match b.drs_get_profile_info(profile_handle) {
                    Ok(info) => {
                        proof {
                            assert(profile_matches(info, m[index as int]));
                            assert forall|i: int|
                                0 <= i < profiles@.len() implies profiles@[i].name@
                                != info.name@ by {
                                assert(profile_matches(profiles@[i], m[ks[i]]));
                                assert(m[ks[i]].name != m[index as int].name);
                            }
                            ks = ks.push(index as int);
                        }
                        profiles.push(info);
                    },
                    Err(_) => {
                        // the handle was obtained but its info was not:
                        // skip this profile rather than aborting
                    },
                }
                index = index + 1;
            },
        }
    }
    Ok(profiles)
}

/// Looks a profile up by name. The backend's not-found sentinel becomes the
/// named `ProfileNotFound` outcome; any other non-success status is wrapped
/// with its raw code.
pub fn find_profile_by_name<B: DrsBackend>(b: &mut B, name: &str) -> (r: Result<
    ProfileHandle,
    NvApiError,
>)
    requires
        registry_wf(old(b).mem()),
        registry_wf(old(b).disk()),
    ensures
        registry_wf(final(b).mem()),
        registry_wf(final(b).disk()),
        final(b).disk() == old(b).disk(),
        final(b).reliable() == old(b).reliable(),
        r is Ok ==> opened(*old(b), *final(b)) && 0 <= final(b).handle_target(r->Ok_0) < final(b).mem().len() && final(b).mem()[final(b).handle_target(r->Ok_0)].name == name@,
        r is Err && r->Err_0 is ProfileNotFound ==> opened(*old(b), *final(b)) && !has_profile(
            final(b).mem(),
            name@,
        ) && r->Err_0->ProfileNotFound_0@ == name@,
        r is Err ==> r->Err_0 is SessionCreationFailed || r->Err_0 is LoadSettingsFailed
            || r->Err_0 is ProfileNotFound || r->Err_0 is NvApiStatus,
        old(b).session_open() ==> final(b).session_open() && final(b).mem() == old(b).mem(),
        old(b).reliable() ==> ({
            let base = if old(b).session_open() {
                old(b).mem()
            } else {
                old(b).disk()
            };
            &&& has_profile(base, name@) ==> r is Ok
            &&& !has_profile(base, name@) ==> r is Err && r->Err_0 is ProfileNotFound
        }),
{
    match get_session(b) {
        Ok(()) => {},
        Err(e) => {
            return Err(e);
        },
    }
    match b.drs_find_profile_by_name(name) {
        Ok(profile_handle) => Ok(profile_handle),
        Err(status) => {
            if status == NVAPI_PROFILE_NOT_FOUND {
                Err(NvApiError::ProfileNotFound(name.to_owned()))
            } else {
                Err(NvApiError::NvApiStatus(status))
            }
        },
    }
}

/// Allocates a new profile row with the given display name. Any non-success
/// status becomes `ProfileCreationFailed` with the raw code.
pub fn create_profile<B: DrsBackend>(b: &mut B, name: &str) -> (r: Result<
    ProfileHandle,
    NvApiError,
>)
    requires
        registry_wf(old(b).mem()),
        registry_wf(old(b).disk()),
    ensures
        registry_wf(final(b).mem()),
        registry_wf(final(b).disk()),
        final(b).disk() == old(b).disk(),
        final(b).reliable() == old(b).reliable(),
        ({
            let base = if old(b).session_open() {
                old(b).mem()
            } else {
                old(b).disk()
            };
            &&& r is Ok ==> final(b).session_open() && final(b).reliable() == old(b).reliable()
                && !has_profile(base, name@) && base.len() < u32::MAX && final(b).mem()
                == push_profile(base, name@) && final(b).handle_target(r->Ok_0) == base.len()
            &&& old(b).reliable() && !has_profile(base, name@) && base.len() < u32::MAX ==> r is Ok
        }),
        r is Err ==> r->Err_0 is SessionCreationFailed || r->Err_0 is LoadSettingsFailed
            || r->Err_0 is ProfileCreationFailed,
        old(b).reliable() && r is Err ==> r->Err_0 is ProfileCreationFailed,
{
    match get_session(b) {
        Ok(()) => {},
        Err(e) => {
            return Err(e);
        },
    }
    match b.drs_create_profile(name) {
        Ok(profile_handle) => Ok(profile_handle),
        Err(status) => Err(NvApiError::ProfileCreationFailed(status)),
    }
}

} // verus!
