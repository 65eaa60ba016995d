//! The abstract capability interface over the driver-settings registry.
//!
//! One method per backend operation, each specified against the registry
//! model: the session's in-memory copy (`mem`), the persisted copy (`disk`),
//! whether a session is open, and an abstract mapping `handle_target` from
//! opaque profile handles to positions in `mem`.
//!
//! A backend whose `reliable()` attribute holds never fails spuriously: every
//! operation's outcome is then decided by the model alone, which is what the
//! deterministic in-memory implementation provides. An adapter over the real
//! native library may fail on any call; the contracts state what holds of
//! every outcome.

use vstd::prelude::*;
use crate::error::{
    NVAPI_OK, NVAPI_END_ENUMERATION, NVAPI_PROFILE_NOT_FOUND, NVAPI_EXECUTABLE_NOT_FOUND,
    NVAPI_SETTING_NOT_FOUND,
};
use crate::model::{
    ProfileModel, has_profile, has_exe, profile_has_exe, push_profile, push_app_at, set_setting_at,
    registry_wf,
};
use crate::types::DrsProfile;

verus! {

/// An opaque token for a profile, valid only for the current session. Core
/// logic never interprets it; it is passed back verbatim to the backend.
#[derive(Debug, Clone, Copy)]
pub struct ProfileHandle {
    pub id: u64,
}

/// One application row as the backend reports it, before enrichment.
#[derive(Debug, Clone)]
pub struct AppRecord {
    pub name: String,
    pub executable: String,
    pub is_predefined: bool,
}

/// The record agrees with the model row.
pub open spec fn app_matches(r: AppRecord, a: crate::model::AppModel) -> bool {
    &&& r.name@ == a.name
    &&& r.executable@ == a.executable
    &&& r.is_predefined == a.is_predefined
}

/// The descriptive summary agrees with the model profile.
pub open spec fn profile_matches(d: DrsProfile, p: ProfileModel) -> bool {
    &&& d.name@ == p.name
    &&& d.is_predefined == p.is_predefined
    &&& d.application_count as nat == p.apps.len()
}

/// The ghost type of one registry copy, exported so that backend adapters
/// outside the verified boundary can write out the trait's specification
/// items. Such items are erased from every verified call site and never run.
pub type GhostRegistry = Seq<ProfileModel>;

/// The ghost type of the position a handle refers to, exported for the same
/// reason as [`GhostRegistry`].
pub type GhostPosition = int;

/// The abstract registry backend. See the module description.
pub trait DrsBackend: Sized {
    /// The session's in-memory registry.
    spec fn mem(&self) -> Seq<ProfileModel>;

    /// The persisted registry in the backing store.
    spec fn disk(&self) -> Seq<ProfileModel>;

    /// A session is currently open.
    spec fn session_open(&self) -> bool;

    /// The backend never fails spuriously.
    spec fn reliable(&self) -> bool;

    /// The position in `mem` the handle refers to.
    spec fn handle_target(&self, h: ProfileHandle) -> int;

    /// Whether a session is open.
    fn is_session_open(&self) -> (r: bool)
        ensures
            r == self.session_open(),
    ;

    /// Opens the connection to the registry. The new session's in-memory
    /// copy is empty until settings are loaded.
    fn drs_create_session(&mut self) -> (status: i32)
        requires
            !old(self).session_open(),
            registry_wf(old(self).mem()),
            registry_wf(old(self).disk()),
        ensures
            registry_wf(final(self).mem()),
            registry_wf(final(self).disk()),
            final(self).disk() == old(self).disk(),
            final(self).reliable() == old(self).reliable(),
            status == NVAPI_OK ==> final(self).session_open() && final(self).mem() == Seq::<
                ProfileModel,
            >::empty(),
            status != NVAPI_OK ==> !final(self).session_open() && final(self).mem()
                == old(self).mem(),
            old(self).reliable() ==> status == NVAPI_OK,
    ;

    /// Closes the session. The handle is gone whatever the status says.
    fn drs_destroy_session(&mut self) -> (status: i32)
        requires
            old(self).session_open(),
            registry_wf(old(self).mem()),
            registry_wf(old(self).disk()),
        ensures
            registry_wf(final(self).mem()),
            registry_wf(final(self).disk()),
            !final(self).session_open(),
            final(self).disk() == old(self).disk(),
            final(self).reliable() == old(self).reliable(),
    ;

    /// Replaces the in-memory registry with the persisted one, discarding
    /// uncommitted state. Previously obtained handles are invalidated.
    fn drs_load_settings(&mut self) -> (status: i32)
        requires
            old(self).session_open(),
            registry_wf(old(self).mem()),
            registry_wf(old(self).disk()),
        ensures
            registry_wf(final(self).mem()),
            registry_wf(final(self).disk()),
            final(self).session_open(),
            final(self).disk() == old(self).disk(),
            final(self).reliable() == old(self).reliable(),
            status == NVAPI_OK ==> final(self).mem() == old(self).disk(),
            status != NVAPI_OK ==> final(self).mem() == old(self).mem(),
            old(self).reliable() ==> status == NVAPI_OK,
    ;

    /// Commits the in-memory registry to the backing store.
    fn drs_save_settings(&mut self) -> (status: i32)
        requires
            old(self).session_open(),
            registry_wf(old(self).mem()),
            registry_wf(old(self).disk()),
        ensures
            registry_wf(final(self).mem()),
            registry_wf(final(self).disk()),
            final(self).session_open(),
            final(self).mem() == old(self).mem(),
            final(self).reliable() == old(self).reliable(),
            forall|h: ProfileHandle| #[trigger] final(self).handle_target(h) == old(self).handle_target(h),
            status == NVAPI_OK ==> final(self).disk() == old(self).mem(),
            status != NVAPI_OK ==> final(self).disk() == old(self).disk(),
            old(self).reliable() ==> status == NVAPI_OK,
    ;

    /// Reports how many profiles the in-memory registry holds.
    fn drs_get_num_profiles(&self) -> (r: Result<u32, i32>)
        requires
            self.session_open(),
            registry_wf(self.mem()),
        ensures
            r is Ok ==> r->Ok_0 as nat == self.mem().len(),
            r is Err ==> r->Err_0 != NVAPI_OK,
            self.reliable() ==> r is Ok,
    ;

    /// Fetches the handle of the profile at an enumeration index. Past the
    /// last profile the end-of-enumeration sentinel is reported, not an
    /// error.
    fn drs_enum_profile(&self, index: u32) -> (r: Result<ProfileHandle, i32>)
        requires
            self.session_open(),
            registry_wf(self.mem()),
        ensures
            r is Ok ==> self.handle_target(r->Ok_0) == index as int && (index as nat)
                < self.mem().len(),
            r is Err ==> r->Err_0 != NVAPI_OK,
            r is Err && r->Err_0 == NVAPI_END_ENUMERATION ==> (index as nat) >= self.mem().len(),
            self.reliable() && (index as nat) < self.mem().len() ==> r is Ok,
            self.reliable() && (index as nat) >= self.mem().len() ==> r is Err && r->Err_0
                == NVAPI_END_ENUMERATION,
    ;

    /// Fetches the descriptive summary of the profile behind a handle.
    fn drs_get_profile_info(&self, h: ProfileHandle) -> (r: Result<DrsProfile, i32>)
        requires
            self.session_open(),
            registry_wf(self.mem()),
            0 <= self.handle_target(h) < self.mem().len(),
        ensures
            r is Ok ==> profile_matches(r->Ok_0, self.mem()[self.handle_target(h)]),
            r is Err ==> r->Err_0 != NVAPI_OK,
            self.reliable() ==> r is Ok,
    ;

    /// Looks a profile up by its display name. A missing profile is the
    /// specific not-found sentinel, not generic failure.
    fn drs_find_profile_by_name(&self, name: &str) -> (r: Result<ProfileHandle, i32>)
        requires
            self.session_open(),
            registry_wf(self.mem()),
        ensures
            r is Ok ==> 0 <= self.handle_target(r->Ok_0) < self.mem().len() && self.mem()[
                self.handle_target(r->Ok_0)].name == name@,
            r is Err ==> r->Err_0 != NVAPI_OK,
            r is Err && r->Err_0 == NVAPI_PROFILE_NOT_FOUND ==> !has_profile(self.mem(), name@),
            self.reliable() && has_profile(self.mem(), name@) ==> r is Ok,
            self.reliable() && !has_profile(self.mem(), name@) ==> r is Err && r->Err_0
                == NVAPI_PROFILE_NOT_FOUND,
    ;

    /// Creates a fresh, empty profile with the given display name in the
    /// in-memory registry. Success means the name was free and the registry
    /// had room.
    fn drs_create_profile(&mut self, name: &str) -> (r: Result<ProfileHandle, i32>)
        requires
            old(self).session_open(),
            registry_wf(old(self).mem()),
            registry_wf(old(self).disk()),
        ensures
            registry_wf(final(self).mem()),
            registry_wf(final(self).disk()),
            final(self).session_open(),
            final(self).disk() == old(self).disk(),
            final(self).reliable() == old(self).reliable(),
            forall|h: ProfileHandle| #[trigger] final(self).handle_target(h) == old(self).handle_target(h),
            r is Ok ==> !has_profile(old(self).mem(), name@) && old(self).mem().len() < u32::MAX
                && final(self).mem() == push_profile(old(self).mem(), name@) && final(self).handle_target(r->Ok_0) == old(self).mem().len(),
            r is Err ==> r->Err_0 != NVAPI_OK && final(self).mem() == old(self).mem(),
            old(self).reliable() && !has_profile(old(self).mem(), name@) && old(self).mem().len()
                < u32::MAX ==> r is Ok,
    ;

    /// Fetches one page of application rows of a profile, starting at a row
    /// index. Past the last row the end-of-enumeration sentinel is reported.
    fn drs_enum_applications(&self, h: ProfileHandle, start: u32, max: u32) -> (r: Result<
        Vec<AppRecord>,
        i32,
    >)
        requires
            self.session_open(),
            registry_wf(self.mem()),
            0 <= self.handle_target(h) < self.mem().len(),
            max >= 1,
        ensures
            ({
                let apps = self.mem()[self.handle_target(h)].apps;
                &&& r is Ok ==> r->Ok_0@.len() <= max && start as nat + r->Ok_0@.len() <= apps.len()
                    && forall|i: int|
                        0 <= i < r->Ok_0@.len() ==> app_matches(
                            #[trigger] r->Ok_0@[i],
                            apps[start as int + i],
                        )
                &&& r is Err ==> r->Err_0 != NVAPI_OK
                &&& r is Err && r->Err_0 == NVAPI_END_ENUMERATION ==> start as nat >= apps.len()
                &&& self.reliable() && (start as nat) < apps.len() ==> r is Ok && r->Ok_0@.len()
                    == if apps.len() - start < max as nat {
                        apps.len() - start
                    } else {
                        max as int
                    }
                &&& self.reliable() && (start as nat) >= apps.len() ==> r is Err && r->Err_0
                    == NVAPI_END_ENUMERATION
            }),
    ;

    /// Looks an application up by its executable name across all profiles,
    /// returning the owning profile's handle and the row.
    fn drs_find_application_by_name(&self, executable: &str) -> (r: Result<
        (ProfileHandle, AppRecord),
        i32,
    >)
        requires
            self.session_open(),
            registry_wf(self.mem()),
        ensures
            r is Ok ==> ({
                let t = self.handle_target(r->Ok_0.0);
                &&& 0 <= t < self.mem().len()
                &&& profile_has_exe(self.mem()[t], executable@)
                &&& exists|j: int|
                    0 <= j < self.mem()[t].apps.len() && (#[trigger] self.mem()[t].apps[
                        j]).executable == executable@ && app_matches(
                        r->Ok_0.1,
                        self.mem()[t].apps[j],
                    )
            }),
            r is Err ==> r->Err_0 != NVAPI_OK,
            r is Err && r->Err_0 == NVAPI_EXECUTABLE_NOT_FOUND ==> !has_exe(
                self.mem(),
                executable@,
            ),
            self.reliable() && has_exe(self.mem(), executable@) ==> r is Ok,
            self.reliable() && !has_exe(self.mem(), executable@) ==> r is Err && r->Err_0
                == NVAPI_EXECUTABLE_NOT_FOUND,
    ;

    /// Inserts a new application row for the executable into the profile
    /// behind the handle. Success means the executable was not yet tracked
    /// anywhere and the profile had room.
    fn drs_create_application(
        &mut self,
        h: ProfileHandle,
        executable: &str,
        friendly_name: &str,
    ) -> (status: i32)
        requires
            old(self).session_open(),
            registry_wf(old(self).mem()),
            registry_wf(old(self).disk()),
            0 <= old(self).handle_target(h) < old(self).mem().len(),
        ensures
            registry_wf(final(self).mem()),
            registry_wf(final(self).disk()),
            final(self).session_open(),
            final(self).disk() == old(self).disk(),
            final(self).reliable() == old(self).reliable(),
            forall|hx: ProfileHandle| #[trigger] final(self).handle_target(hx) == old(self).handle_target(hx),
            final(self).mem().len() == old(self).mem().len(),
            status == NVAPI_OK ==> !has_exe(old(self).mem(), executable@) && old(self).mem()[
                old(self).handle_target(h)].apps.len() < u32::MAX && final(self).mem()
                == push_app_at(
                old(self).mem(),
                old(self).handle_target(h),
                friendly_name@,
                executable@,
            ),
            status != NVAPI_OK ==> final(self).mem() == old(self).mem(),
            old(self).reliable() && !has_exe(old(self).mem(), executable@) && old(self).mem()[
                old(self).handle_target(h)].apps.len() < u32::MAX ==> status == NVAPI_OK,
    ;

    /// Reads one numeric setting of a profile. Absence is the specific
    /// not-found sentinel, a distinct state from any explicit value.
    fn drs_get_setting(&self, h: ProfileHandle, setting_id: u32) -> (r: Result<u32, i32>)
        requires
            self.session_open(),
            registry_wf(self.mem()),
            0 <= self.handle_target(h) < self.mem().len(),
        ensures
            ({
                let st = self.mem()[self.handle_target(h)].settings;
                &&& r is Ok ==> st.contains_key(setting_id) && r->Ok_0 == st[setting_id]
                &&& r is Err ==> r->Err_0 != NVAPI_OK
                &&& r is Err && r->Err_0 == NVAPI_SETTING_NOT_FOUND ==> !st.contains_key(setting_id)
                &&& self.reliable() && st.contains_key(setting_id) ==> r is Ok
                &&& self.reliable() && !st.contains_key(setting_id) ==> r is Err && r->Err_0
                    == NVAPI_SETTING_NOT_FOUND
            }),
    ;

    /// Writes one numeric setting of a profile into the in-memory registry.
    fn drs_set_setting(&mut self, h: ProfileHandle, setting_id: u32, value: u32) -> (status: i32)
        requires
            old(self).session_open(),
            registry_wf(old(self).mem()),
            registry_wf(old(self).disk()),
            0 <= old(self).handle_target(h) < old(self).mem().len(),
        ensures
            registry_wf(final(self).mem()),
            registry_wf(final(self).disk()),
            final(self).session_open(),
            final(self).disk() == old(self).disk(),
            final(self).reliable() == old(self).reliable(),
            forall|hx: ProfileHandle| #[trigger] final(self).handle_target(hx) == old(self).handle_target(hx),
            status == NVAPI_OK ==> final(self).mem() == set_setting_at(
                old(self).mem(),
                old(self).handle_target(h),
                setting_id,
                value,
            ),
            status != NVAPI_OK ==> final(self).mem() == old(self).mem(),
            old(self).reliable() ==> status == NVAPI_OK,
    ;
}

} // verus!
