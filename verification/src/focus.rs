//! Enrichment of the focused application with registry membership.
//!
//! The operating-system collaborator supplies the focused window's process
//! facts; the functions here augment them with registry membership, the
//! owning profile's name, and the blacklist flag.

use vstd::prelude::*;
use crate::applications::{app_enriched, enumerate_applications, find_application};
use crate::backend::{DrsBackend, profile_matches};
use crate::model::{
    ProfileModel, exe_profile_index, has_exe, lemma_exe_index_of, registry_wf, shadowplay_disabled,
};
use crate::processes::{lower_of, lowercase};
use crate::profiles::{enumerate_profiles, find_profile_by_name};
use crate::settings::get_shadowplay_status;
use crate::types::{FocusApplication, ProcessFacts};

verus! {

/// This profile holds a row whose executable equals `exe` when both are
/// lower-cased.
pub open spec fn profile_has_exe_folded(p: ProfileModel, exe: Seq<char>) -> bool {
    exists|j: int|
        0 <= j < p.apps.len() && lower_of((#[trigger] p.apps[j]).executable) == lower_of(exe)
}

/// Some profile holds a row whose executable equals `exe` when both are
/// lower-cased.
pub open spec fn has_exe_folded(s: Seq<ProfileModel>, exe: Seq<char>) -> bool {
    exists|k: int| 0 <= k < s.len() && profile_has_exe_folded(#[trigger] s[k], exe)
}

/// The name belongs to a profile holding a case-insensitive match for `exe`.
pub open spec fn names_folded_owner(s: Seq<ProfileModel>, exe: Seq<char>, name: Seq<char>) -> bool {
    exists|k: int|
        0 <= k < s.len() && (#[trigger] s[k]).name == name && profile_has_exe_folded(s[k], exe)
}

/// Scans every profile's applications for the executable, compared
/// case-insensitively, and returns the owning profile's display name.
pub fn get_profile_name_for_app<B: DrsBackend>(b: &mut B, executable: &str) -> (r: Option<String>)
    requires
        registry_wf(old(b).mem()),
        registry_wf(old(b).disk()),
    ensures
        registry_wf(final(b).mem()),
        registry_wf(final(b).disk()),
        final(b).disk() == old(b).disk(),
        final(b).reliable() == old(b).reliable(),
        old(b).session_open() ==> final(b).session_open() && final(b).mem() == old(b).mem(),
        old(b).reliable() ==> ({
            let base = if old(b).session_open() {
                old(b).mem()
            } else {
                old(b).disk()
            };
            &&& (r is Some <==> has_exe_folded(base, executable@))
            &&& r is Some ==> names_folded_owner(base, executable@, r->Some_0@)
        }),
{
    let exe_lower = lowercase(executable);
    let profiles = match enumerate_profiles(b) {
        Ok(v) => v,
        Err(_) => {
            return None;
        },
    };
    let ghost base = b.mem();
    let mut i: usize = 0;
    while i < profiles.len()
        invariant
            b.session_open(),
            registry_wf(b.mem()),
            registry_wf(b.disk()),
            b.mem() == base,
            b.disk() == old(b).disk(),
            b.reliable() == old(b).reliable(),
            old(b).session_open() ==> base == old(b).mem(),
            !old(b).session_open() ==> base == old(b).disk(),
            i <= profiles@.len(),
            exe_lower@ == lower_of(executable@),
            b.reliable() ==> profiles@.len() == base.len() && (forall|k: int|
                0 <= k < base.len() ==> profile_matches(#[trigger] profiles@[k], base[k])),
            b.reliable() ==> forall|k: int|
                0 <= k < i ==> !profile_has_exe_folded(#[trigger] base[k], executable@),
        decreases profiles@.len() - i,
    {
        let profile = &profiles[i];
        match find_profile_by_name(b, profile.name.as_str()) {
            Ok(profile_handle) => {
                proof {
                    if b.reliable() {
                        let t = b.handle_target(profile_handle);
                        assert(base[t].name == base[i as int].name);
                        if t != i as int {
                            assert(false);
                        }
                    }
                }
                match enumerate_applications(b, profile_handle, profile.name.as_str()) {
                    Ok(apps) => {
                        let m = apps.len();
                        let mut j: usize = 0;
                        while j < m
                            invariant
                                b.session_open(),
                                registry_wf(b.mem()),
                                registry_wf(b.disk()),
                                b.mem() == base,
                                b.disk() == old(b).disk(),
                                b.reliable() == old(b).reliable(),
                                old(b).session_open() ==> base == old(b).mem(),
                                !old(b).session_open() ==> base == old(b).disk(),
                                0 <= i < profiles@.len(),
                                0 <= j <= m,
                                m == apps@.len(),
                                exe_lower@ == lower_of(executable@),
                                profile.name@ == profiles@[i as int].name@,
                                b.reliable() ==> profiles@[i as int].name@ == base[i as int].name,
                                b.reliable() ==> 0 <= (i as int) < base.len() && m == base[
                                    i as int].apps.len() && (forall|l: int|
                                    0 <= l < m ==> app_enriched(
                                        #[trigger] apps@[l],
                                        base[i as int].apps[l],
                                        profiles@[i as int].name@,
                                    )),
                                b.reliable() ==> forall|l: int|
                                    0 <= l < j ==> lower_of(
                                        (#[trigger] base[i as int].apps[l]).executable,
                                    ) != lower_of(executable@),
                            decreases m - j,
                        {
                            let app = &apps[j];
                            let app_lower = lowercase(app.executable.as_str());
                            if app_lower.eq(&exe_lower) {
                                proof {
                                    if b.reliable() {
                                        assert(lower_of(base[i as int].apps[j as int].executable)
                                            == lower_of(executable@));
                                        assert(profile_has_exe_folded(base[i as int], executable@));
                                        assert(has_exe_folded(base, executable@));
                                        assert(profiles@[i as int].name@ == base[i as int].name);
                                        assert(names_folded_owner(base, executable@, base[
                                            i as int].name));
                                    }
                                }
                                return Some(profile.name.clone());
                            }
                            j = j + 1;
                        }
                    },
                    Err(_) => {
                        // this profile could not be enumerated: move on
                    },
                }
            },
            Err(_) => {
                // this profile could not be resolved: move on
            },
        }
        proof {
            if b.reliable() {
                assert(!profile_has_exe_folded(base[i as int], executable@));
            }
        }
        i = i + 1;
    }
    None
}

/// Augments the focused process's facts with its registry membership: the
/// owning profile's name and the blacklist flag when the executable is
/// tracked.
pub fn get_focus_application<B: DrsBackend>(b: &mut B, facts: Option<ProcessFacts>) -> (r: Option<
    FocusApplication,
>)
    requires
        registry_wf(old(b).mem()),
        registry_wf(old(b).disk()),
    ensures
        registry_wf(final(b).mem()),
        registry_wf(final(b).disk()),
        final(b).disk() == old(b).disk(),
        final(b).reliable() == old(b).reliable(),
        facts is None ==> r is None,
        r is Some ==> facts is Some && ({
            let f = facts->Some_0;
            let p = r->Some_0;
            &&& p.process_name@ == f.process_name@
            &&& p.window_title@ == f.window_title@
            &&& p.process_id == f.process_id
        }),
        old(b).reliable() && facts is Some ==> r is Some && ({
            let base = if old(b).session_open() {
                old(b).mem()
            } else {
                old(b).disk()
            };
            let f = facts->Some_0;
            let p = r->Some_0;
            let t = exe_profile_index(base, f.process_name@);
            &&& p.is_in_drs == has_exe(base, f.process_name@)
            &&& has_exe(base, f.process_name@) ==> p.is_blacklisted == Some(
                shadowplay_disabled(base[t]),
            ) && (p.profile_name is Some <==> has_exe_folded(base, f.process_name@)) && (
            p.profile_name is Some ==> names_folded_owner(
                base,
                f.process_name@,
                p.profile_name->Some_0@,
            ))
            &&& !has_exe(base, f.process_name@) ==> !p.is_in_drs && p.profile_name is None
                && p.is_blacklisted is None
        }),
{
    let f = match facts {
        Some(f) => f,
        None => {
            return None;
        },
    };
    match find_application(b, f.process_name.as_str()) {
        Ok((profile_handle, _record)) => {
            proof {
                if b.reliable() {
                    assert(has_exe(b.mem(), f.process_name@));
                    lemma_exe_index_of(b.mem(), f.process_name@, b.handle_target(profile_handle));
                }
            }
            let is_blacklisted = match get_shadowplay_status(b, profile_handle) {
                Ok(v) => Some(v),
                Err(_) => None,
            };
            let profile_name = get_profile_name_for_app(b, f.process_name.as_str());
            Some(
                FocusApplication {
                    process_name: f.process_name,
                    window_title: f.window_title,
                    process_id: f.process_id,
                    is_in_drs: true,
                    profile_name,
                    is_blacklisted,
                },
            )
        },
        Err(_) => {
            Some(
                FocusApplication {
                    process_name: f.process_name,
                    window_title: f.window_title,
                    process_id: f.process_id,
                    is_in_drs: false,
                    profile_name: None,
                    is_blacklisted: None,
                },
            )
        },
    }
}

} // verus!
