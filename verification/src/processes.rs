//! Enrichment of operating-system process facts with registry membership.
//!
//! The operating-system collaborator supplies the raw process facts; the
//! functions here augment them with whether the executable is tracked, the
//! owning profile's name, and the blacklist flag.

use vstd::prelude::*;
use crate::backend::{DrsBackend, ProfileHandle};
use crate::applications::find_application;
use crate::model::{exe_profile_index, has_exe, lemma_exe_index_of, registry_wf, shadowplay_disabled};
use crate::settings::get_shadowplay_status;
use crate::types::{ProcessFacts, RunningProcess};

verus! {

/// What lower-casing returns: a function of the characters alone.
pub uninterp spec fn lower_of(s: Seq<char>) -> Seq<char>;

/// Relies on `str::to_lowercase`: the result depends on the characters
/// alone.
#[verifier::external_body]
pub(crate) fn lowercase(s: &str) -> (r: String)
    ensures
        r@ == lower_of(s@),
{
    s.to_lowercase()
}

/// The lower-cased name of one of the system processes that are excluded
/// from process listings.
pub open spec fn system_process_name(s: Seq<char>) -> bool {
    ||| s == "explorer.exe"@
    ||| s == "searchhost.exe"@
    ||| s == "shellexperiencehost.exe"@
    ||| s == "startmenuexperiencehost.exe"@
    ||| s == "textinputhost.exe"@
    ||| s == "applicationframehost.exe"@
    ||| s == "systemsettings.exe"@
    ||| s == "runtimebroker.exe"@
    ||| s == "dwm.exe"@
    ||| s == "csrss.exe"@
    ||| s == "winlogon.exe"@
    ||| s == "services.exe"@
    ||| s == "lsass.exe"@
    ||| s == "svchost.exe"@
}

/// Whether an already lower-cased process name belongs to the fixed set of
/// known system processes.
pub fn is_system_process_folded(name_lower: &str) -> (r: bool)
    ensures
        r == system_process_name(name_lower@),
{
    let name = name_lower.to_owned();
    if name.eq(&String::from_str("explorer.exe")) {
        true
    } else if name.eq(&String::from_str("searchhost.exe")) {
        true
    } else if name.eq(&String::from_str("shellexperiencehost.exe")) {
        true
    } else if name.eq(&String::from_str("startmenuexperiencehost.exe")) {
        true
    } else if name.eq(&String::from_str("textinputhost.exe")) {
        true
    } else if name.eq(&String::from_str("applicationframehost.exe")) {
        true
    } else if name.eq(&String::from_str("systemsettings.exe")) {
        true
    } else if name.eq(&String::from_str("runtimebroker.exe")) {
        true
    } else if name.eq(&String::from_str("dwm.exe")) {
        true
    } else if name.eq(&String::from_str("svchost.exe")) {
        true
    } else if name.eq(&String::from_str("csrss.exe")) {
        true
    } else if name.eq(&String::from_str("winlogon.exe")) {
        true
    } else if name.eq(&String::from_str("services.exe")) {
        true
    } else {
        name.eq(&String::from_str("lsass.exe"))
    }
}

/// Whether a process name, compared case-insensitively, belongs to the fixed
/// set of known system processes.
pub fn is_system_process(name: &str) -> (r: bool)
    ensures
        r == system_process_name(lower_of(name@)),
{
    let name_lower = lowercase(name);
    is_system_process_folded(name_lower.as_str())
}

/// The display name of the profile behind a handle, when its descriptive
/// info can be fetched.
pub fn get_profile_name_from_handle<B: DrsBackend>(b: &B, profile_handle: ProfileHandle) -> (r:
    Option<String>)
    requires
        b.session_open(),
        registry_wf(b.mem()),
        0 <= b.handle_target(profile_handle) < b.mem().len(),
    ensures
        r is Some ==> r->Some_0@ == b.mem()[b.handle_target(profile_handle)].name,
        b.reliable() ==> r is Some,
{
    match b.drs_get_profile_info(profile_handle) {
        Ok(info) => Some(info.name),
        Err(_) => None,
    }
}

/// Augments each process fact with its registry membership: whether the
/// executable is tracked, the owning profile's name, and the blacklist flag.
pub fn get_running_processes<B: DrsBackend>(b: &mut B, facts: Vec<ProcessFacts>) -> (r: Vec<
    RunningProcess,
>)
    requires
        registry_wf(old(b).mem()),
        registry_wf(old(b).disk()),
    ensures
        registry_wf(final(b).mem()),
        registry_wf(final(b).disk()),
        final(b).disk() == old(b).disk(),
        final(b).reliable() == old(b).reliable(),
        r@.len() == facts@.len(),
        forall|i: int|
            0 <= i < r@.len() ==> ({
                let f = facts@[i];
                let p = #[trigger] r@[i];
                &&& p.process_name@ == f.process_name@
                &&& p.window_title@ == f.window_title@
                &&& p.process_id == f.process_id
                &&& p.executable_path == f.executable_path
            }),
        old(b).reliable() ==> ({
            let base = if old(b).session_open() {
                old(b).mem()
            } else {
                old(b).disk()
            };
            forall|i: int|
                0 <= i < r@.len() ==> ({
                    let f = facts@[i];
                    let p = #[trigger] r@[i];
                    let t = exe_profile_index(base, f.process_name@);
                    &&& p.has_drs_profile == has_exe(base, f.process_name@)
                    &&& has_exe(base, f.process_name@) ==> p.profile_name is Some
                        && p.profile_name->Some_0@ == base[t].name && p.is_blacklisted == Some(
                        shadowplay_disabled(base[t]),
                    )
                    &&& !has_exe(base, f.process_name@) ==> p.profile_name is None
                        && p.is_blacklisted is None
                })
        }),
{
    let mut out: Vec<RunningProcess> = Vec::new();
    let mut i: usize = 0;
    while i < facts.len()
        invariant
            registry_wf(b.mem()),
            registry_wf(b.disk()),
            b.disk() == old(b).disk(),
            b.reliable() == old(b).reliable(),
            i <= facts@.len(),
            out@.len() == i,
            registry_wf(old(b).mem()),
            registry_wf(old(b).disk()),
            old(b).session_open() ==> b.session_open(),
            b.session_open() ==> b.mem() == (if old(b).session_open() {
                old(b).mem()
            } else {
                old(b).disk()
            }),
            forall|k: int|
                0 <= k < out@.len() ==> ({
                    let f = facts@[k];
                    let p = #[trigger] out@[k];
                    &&& p.process_name@ == f.process_name@
                    &&& p.window_title@ == f.window_title@
                    &&& p.process_id == f.process_id
                    &&& p.executable_path == f.executable_path
                }),
            b.reliable() ==> ({
                let base = if old(b).session_open() {
                    old(b).mem()
                } else {
                    old(b).disk()
                };
                forall|k: int|
                    0 <= k < out@.len() ==> ({
                        let f = facts@[k];
                        let p = #[trigger] out@[k];
                        let t = exe_profile_index(base, f.process_name@);
                        &&& p.has_drs_profile == has_exe(base, f.process_name@)
                        &&& has_exe(base, f.process_name@) ==> p.profile_name is Some
                            && p.profile_name->Some_0@ == base[t].name && p.is_blacklisted == Some(
                            shadowplay_disabled(base[t]),
                        )
                        &&& !has_exe(base, f.process_name@) ==> p.profile_name is None
                            && p.is_blacklisted is None
                    })
            }),
        decreases facts@.len() - i,
    {
        let f = &facts[i];
        let executable_path = match &f.executable_path {
            Some(path) => Some(path.clone()),
            None => None,
        };
        match find_application(b, f.process_name.as_str()) {
            Ok((profile_handle, _record)) => {
                proof {
                    if b.reliable() {
                        assert(has_exe(b.mem(), f.process_name@));
                        lemma_exe_index_of(b.mem(), f.process_name@, b.handle_target(
                            profile_handle,
                        ));
                    }
                }
                let profile_name = get_profile_name_from_handle(b, profile_handle);
                let is_blacklisted = match get_shadowplay_status(b, profile_handle) {
                    Ok(v) => Some(v),
                    Err(_) => None,
                };
                out.push(
                    RunningProcess {
                        process_name: f.process_name.clone(),
                        window_title: f.window_title.clone(),
                        process_id: f.process_id,
                        executable_path,
                        has_drs_profile: true,
                        profile_name,
                        is_blacklisted,
                    },
                );
            },
            Err(_) => {
                out.push(
                    RunningProcess {
                        process_name: f.process_name.clone(),
                        window_title: f.window_title.clone(),
                        process_id: f.process_id,
                        executable_path,
                        has_drs_profile: false,
                        profile_name: None,
                        is_blacklisted: None,
                    },
                );
            },
        }
        i = i + 1;
    }
    out
}

} // verus!
