//! A deterministic in-memory registry backend.
//!
//! This implementation of [`DrsBackend`] holds both registry copies as plain
//! data and proves every contract of the trait. It is `reliable()`: no
//! operation fails spuriously, so every outcome is decided by the model. It
//! backs the behavioral tests of the blacklist workflow.

use vstd::prelude::*;
use crate::backend::{AppRecord, DrsBackend, ProfileHandle, app_matches};
use crate::error::{
    NVAPI_OK, NVAPI_ERROR, NVAPI_END_ENUMERATION, NVAPI_PROFILE_NOT_FOUND,
    NVAPI_PROFILE_NAME_IN_USE, NVAPI_EXECUTABLE_NOT_FOUND, NVAPI_EXECUTABLE_ALREADY_IN_USE,
    NVAPI_SETTING_NOT_FOUND,
};
use crate::model::{AppModel, ProfileModel, profile_has_exe, registry_wf};
use crate::types::DrsProfile;

verus! {

/// One stored profile: its rows and its settings as an association list in
/// which the entry nearest the front wins.
pub struct MemProfile {
    pub name: String,
    pub is_predefined: bool,
    pub apps: Vec<AppRecord>,
    pub settings: Vec<(u32, u32)>,
}

/// The model row a stored record stands for.
pub open spec fn app_view(r: AppRecord) -> AppModel {
    AppModel { name: r.name@, executable: r.executable@, is_predefined: r.is_predefined }
}

/// The model rows of a stored row sequence.
pub open spec fn apps_view(v: Seq<AppRecord>) -> Seq<AppModel> {
    Seq::new(v.len(), |i: int| app_view(v[i]))
}

/// The settings map an association list stands for: the entry nearest the
/// front wins.
pub open spec fn settings_view(s: Seq<(u32, u32)>) -> Map<u32, u32>
    decreases s.len(),
{
    if s.len() == 0 {
        Map::empty()
    } else {
        settings_view(s.drop_first()).insert(s[0].0, s[0].1)
    }
}

/// The model profile a stored profile stands for.
pub open spec fn profile_view(p: MemProfile) -> ProfileModel {
    ProfileModel {
        name: p.name@,
        is_predefined: p.is_predefined,
        apps: apps_view(p.apps@),
        settings: settings_view(p.settings@),
    }
}

/// The model registry a stored profile sequence stands for.
pub open spec fn registry_view(v: Seq<MemProfile>) -> Seq<ProfileModel> {
    Seq::new(v.len(), |i: int| profile_view(v[i]))
}

/// The view holds a key exactly when some entry carries it.
proof fn lemma_settings_view_contains(s: Seq<(u32, u32)>, key: u32)
    ensures
        settings_view(s).contains_key(key) <==> exists|i: int| 0 <= i < s.len() && (#[trigger] s[
            i]).0 == key,
    decreases s.len(),
{
    if s.len() > 0 {
        lemma_settings_view_contains(s.drop_first(), key);
        if settings_view(s).contains_key(key) {
            if s[0].0 != key {
                let i = choose|i: int|
                    0 <= i < s.drop_first().len() && (#[trigger] s.drop_first()[i]).0 == key;
                assert(s[i + 1].0 == key);
            }
        }
        if exists|i: int| 0 <= i < s.len() && (#[trigger] s[i]).0 == key {
            let i = choose|i: int| 0 <= i < s.len() && (#[trigger] s[i]).0 == key;
            if i > 0 {
                assert(s.drop_first()[i - 1].0 == key);
            }
        }
    }
}

/// The first entry carrying a key decides the view's value for it.
proof fn lemma_settings_view_first(s: Seq<(u32, u32)>, key: u32, i: int)
    requires
        0 <= i < s.len(),
        s[i].0 == key,
        forall|j: int| 0 <= j < i ==> (#[trigger] s[j]).0 != key,
    ensures
        settings_view(s).contains_key(key),
        settings_view(s)[key] == s[i].1,
    decreases s.len(),
{
    if i > 0 {
        assert(s.drop_first()[i - 1] == s[i]);
        assert forall|j: int| 0 <= j < i - 1 implies (#[trigger] s.drop_first()[j]).0 != key by {
            assert(s[j + 1].0 != key);
        }
        lemma_settings_view_first(s.drop_first(), key, i - 1);
    }
}

/// A copy of one stored row.
fn clone_app(a: &AppRecord) -> (r: AppRecord)
    ensures
        r == *a,
{
    AppRecord {
        name: a.name.clone(),
        executable: a.executable.clone(),
        is_predefined: a.is_predefined,
    }
}

/// A copy of a stored row sequence.
fn clone_apps(v: &Vec<AppRecord>) -> (r: Vec<AppRecord>)
    ensures
        r@ == v@,
{
    let mut r: Vec<AppRecord> = Vec::new();
    let mut i: usize = 0;
    while i < v.len()
        invariant
            0 <= i <= v@.len(),
            r@ == v@.take(i as int),
        decreases v@.len() - i,
    {
        r.push(clone_app(&v[i]));
        i = i + 1;
        assert(r@ =~= v@.take(i as int));
    }
    assert(r@ =~= v@);
    r
}

/// A copy of an association list of settings.
fn clone_settings(v: &Vec<(u32, u32)>) -> (r: Vec<(u32, u32)>)
    ensures
        r@ == v@,
{
    let mut r: Vec<(u32, u32)> = Vec::new();
    let mut i: usize = 0;
    while i < v.len()
        invariant
            0 <= i <= v@.len(),
            r@ == v@.take(i as int),
        decreases v@.len() - i,
    {
        let pair = v[i];
        r.push(pair);
        i = i + 1;
        assert(r@ =~= v@.take(i as int));
    }
    assert(r@ =~= v@);
    r
}

/// A copy of one stored profile, equal under the model view.
fn clone_profile(p: &MemProfile) -> (r: MemProfile)
    ensures
        profile_view(r) == profile_view(*p),
{
    let r = MemProfile {
        name: p.name.clone(),
        is_predefined: p.is_predefined,
        apps: clone_apps(&p.apps),
        settings: clone_settings(&p.settings),
    };
    assert(profile_view(r) =~= profile_view(*p));
    r
}

/// A copy of a stored registry, equal under the model view.
fn clone_registry(v: &Vec<MemProfile>) -> (r: Vec<MemProfile>)
    ensures
        registry_view(r@) == registry_view(v@),
{
    let mut r: Vec<MemProfile> = Vec::new();
    let mut i: usize = 0;
    while i < v.len()
        invariant
            0 <= i <= v@.len(),
            r@.len() == i,
            forall|k: int| 0 <= k < i ==> profile_view(#[trigger] r@[k]) == profile_view(v@[k]),
        decreases v@.len() - i,
    {
        r.push(clone_profile(&v[i]));
        i = i + 1;
    }
    assert(registry_view(r@) =~= registry_view(v@));
    r
}

/// Relies on `str::eq`: string slices compare equal exactly when their
/// characters do.
#[verifier::external_body]
fn str_eq(a: &str, b: &str) -> (r: bool)
    ensures
        r == (a@ == b@),
{
    a == b
}

/// The in-memory backend: a session flag and the two registry copies.
pub struct MemoryBackend {
    pub active: bool,
    pub mem_profiles: Vec<MemProfile>,
    pub disk_profiles: Vec<MemProfile>,
}

impl MemoryBackend {
    /// A closed backend over an empty backing store.
    pub fn new() -> (r: MemoryBackend)
        ensures
            !r.session_open(),
            r.mem() == Seq::<ProfileModel>::empty(),
            r.disk() == Seq::<ProfileModel>::empty(),
            r.reliable(),
            registry_wf(r.mem()),
            registry_wf(r.disk()),
    {
        let r = MemoryBackend { active: false, mem_profiles: Vec::new(), disk_profiles: Vec::new() };
        assert(r.mem() =~= Seq::<ProfileModel>::empty());
        assert(r.disk() =~= Seq::<ProfileModel>::empty());
        r
    }
}

impl DrsBackend for MemoryBackend {
    open spec fn mem(&self) -> Seq<ProfileModel> {
        registry_view(self.mem_profiles@)
    }

    open spec fn disk(&self) -> Seq<ProfileModel> {
        registry_view(self.disk_profiles@)
    }

    open spec fn session_open(&self) -> bool {
        self.active
    }

    open spec fn reliable(&self) -> bool {
        true
    }

    open spec fn handle_target(&self, h: ProfileHandle) -> int {
        h.id as int
    }

    fn is_session_open(&self) -> (r: bool) {
        self.active
    }

    fn drs_create_session(&mut self) -> (status: i32) {
        self.active = true;
        self.mem_profiles = Vec::new();
        assert(self.mem() =~= Seq::<ProfileModel>::empty());
        NVAPI_OK
    }

    fn drs_destroy_session(&mut self) -> (status: i32) {
        self.active = false;
        NVAPI_OK
    }

    fn drs_load_settings(&mut self) -> (status: i32) {
        let copy = clone_registry(&self.disk_profiles);
        self.mem_profiles = copy;
        NVAPI_OK
    }

    fn drs_save_settings(&mut self) -> (status: i32) {
        let copy = clone_registry(&self.mem_profiles);
        self.disk_profiles = copy;
        NVAPI_OK
    }

    fn drs_get_num_profiles(&self) -> (r: Result<u32, i32>) {
        Ok(self.mem_profiles.len() as u32)
    }

    fn drs_enum_profile(&self, index: u32) -> (r: Result<ProfileHandle, i32>) {
        if (index as usize) < self.mem_profiles.len() {
            Ok(ProfileHandle { id: index as u64 })
        } else {
            Err(NVAPI_END_ENUMERATION)
        }
    }

    fn drs_get_profile_info(&self, h: ProfileHandle) -> (r: Result<DrsProfile, i32>) {
        let idx = h.id as usize;
        let p = &self.mem_profiles[idx];
        Ok(
            DrsProfile {
                name: p.name.clone(),
                is_predefined: p.is_predefined,
                application_count: p.apps.len() as u32,
            },
        )
    }

    #[verifier::loop_isolation(false)]
    fn drs_find_profile_by_name(&self, name: &str) -> (r: Result<ProfileHandle, i32>) {
        let n = self.mem_profiles.len();
        let mut i: usize = 0;
        while i < n
            invariant
                0 <= i <= n,
                n == self.mem_profiles@.len(),
                forall|k: int| 0 <= k < i ==> (#[trigger] registry_view(self.mem_profiles@)[k]).name
                    != name@,
            decreases n - i,
        {
            if str_eq(self.mem_profiles[i].name.as_str(), name) {
                assert(registry_view(self.mem_profiles@)[i as int].name == name@);
                return Ok(ProfileHandle { id: i as u64 });
            }
            i = i + 1;
        }
        Err(NVAPI_PROFILE_NOT_FOUND)
    }

    fn drs_create_profile(&mut self, name: &str) -> (r: Result<ProfileHandle, i32>) {
        match self.drs_find_profile_by_name(name) {
            Ok(_) => Err(NVAPI_PROFILE_NAME_IN_USE),
            Err(status) => {
                if status != NVAPI_PROFILE_NOT_FOUND {
                    return Err(status);
                }
                if self.mem_profiles.len() >= u32::MAX as usize {
                    return Err(NVAPI_ERROR);
                }
                let id = self.mem_profiles.len() as u64;
                let fresh = MemProfile {
                    name: name.to_owned(),
                    is_predefined: false,
                    apps: Vec::new(),
                    settings: Vec::new(),
                };
                assert(profile_view(fresh) =~= ProfileModel {
                    name: name@,
                    is_predefined: false,
                    apps: Seq::empty(),
                    settings: Map::empty(),
                });
                self.mem_profiles.push(fresh);
                assert(self.mem() =~~= crate::model::push_profile(old(self).mem(), name@));
                Ok(ProfileHandle { id })
            },
        }
    }

    #[verifier::loop_isolation(false)]
    fn drs_enum_applications(&self, h: ProfileHandle, start: u32, max: u32) -> (r: Result<
        Vec<AppRecord>,
        i32,
    >) {
        let idx = h.id as usize;
        let p = &self.mem_profiles[idx];
        let total = p.apps.len();
        if (start as usize) >= total {
            return Err(NVAPI_END_ENUMERATION);
        }
        let remaining = total - start as usize;
        let take: usize = if remaining < max as usize {
            remaining
        } else {
            max as usize
        };
        let mut page: Vec<AppRecord> = Vec::new();
        let mut i: usize = 0;
        while i < take
            invariant
                0 <= i <= take,
                take <= remaining,
                remaining == total - start as usize,
                start as usize <= total,
                total == p.apps@.len(),
                page@.len() == i,
                forall|k: int| 0 <= k < i ==> #[trigger] page@[k] == p.apps@[start as int + k],
            decreases take - i,
        {
            page.push(clone_app(&p.apps[start as usize + i]));
            i = i + 1;
        }
        assert(forall|k: int|
            0 <= k < page@.len() ==> app_matches(
                #[trigger] page@[k],
                apps_view(p.apps@)[start as int + k],
            ));
        Ok(page)
    }

    #[verifier::loop_isolation(false)]
    fn drs_find_application_by_name(&self, executable: &str) -> (r: Result<
        (ProfileHandle, AppRecord),
        i32,
    >) {
        let n = self.mem_profiles.len();
        let mut i: usize = 0;
        while i < n
            invariant
                0 <= i <= n,
                n == self.mem_profiles@.len(),
                forall|k: int| 0 <= k < i ==> !profile_has_exe(
                    #[trigger] registry_view(self.mem_profiles@)[k],
                    executable@,
                ),
            decreases n - i,
        {
            let p = &self.mem_profiles[i];
            let m = p.apps.len();
            let mut j: usize = 0;
            while j < m
                invariant
                    0 <= j <= m,
                    m == p.apps@.len(),
                    forall|l: int| 0 <= l < j ==> (#[trigger] apps_view(p.apps@)[l]).executable
                        != executable@,
                decreases m - j,
            {
                if str_eq(p.apps[j].executable.as_str(), executable) {
                    let rec = clone_app(&p.apps[j]);
                    proof {
                        let rv = registry_view(self.mem_profiles@);
                        assert(rv[i as int].apps == apps_view(p.apps@));
                        assert(rv[i as int].apps[j as int].executable == executable@);
                        assert(app_matches(rec, rv[i as int].apps[j as int]));
                        assert(profile_has_exe(rv[i as int], executable@));
                    }
                    return Ok((ProfileHandle { id: i as u64 }, rec));
                }
                j = j + 1;
            }
            assert(!profile_has_exe(registry_view(self.mem_profiles@)[i as int], executable@));
            i = i + 1;
        }
        Err(NVAPI_EXECUTABLE_NOT_FOUND)
    }

    fn drs_create_application(
        &mut self,
        h: ProfileHandle,
        executable: &str,
        friendly_name: &str,
    ) -> (status: i32) {
        match self.drs_find_application_by_name(executable) {
            Ok(_) => NVAPI_EXECUTABLE_ALREADY_IN_USE,
            Err(status) => {
                if status != NVAPI_EXECUTABLE_NOT_FOUND {
                    return status;
                }
                let idx = h.id as usize;
                if self.mem_profiles[idx].apps.len() >= u32::MAX as usize {
                    return NVAPI_ERROR;
                }
                let ghost m0 = self.mem();
                let mut p = self.mem_profiles.remove(idx);
                let ghost a0 = p.apps@;
                let row = AppRecord {
                    name: friendly_name.to_owned(),
                    executable: executable.to_owned(),
                    is_predefined: false,
                };
                p.apps.push(row);
                proof {
                    assert(apps_view(p.apps@) =~= apps_view(a0).push(
                        AppModel {
                            name: friendly_name@,
                            executable: executable@,
                            is_predefined: false,
                        },
                    ));
                }
                self.mem_profiles.insert(idx, p);
                assert(self.mem() =~~= crate::model::push_app_at(
                    m0,
                    idx as int,
                    friendly_name@,
                    executable@,
                ));
                NVAPI_OK
            },
        }
    }

    #[verifier::loop_isolation(false)]
    fn drs_get_setting(&self, h: ProfileHandle, setting_id: u32) -> (r: Result<u32, i32>) {
        let idx = h.id as usize;
        let p = &self.mem_profiles[idx];
        let n = p.settings.len();
        let mut i: usize = 0;
        while i < n
            invariant
                0 <= i <= n,
                n == p.settings@.len(),
                forall|k: int| 0 <= k < i ==> (#[trigger] p.settings@[k]).0 != setting_id,
            decreases n - i,
        {
            let pair = p.settings[i];
            if pair.0 == setting_id {
                proof {
                    lemma_settings_view_first(p.settings@, setting_id, i as int);
                }
                return Ok(pair.1);
            }
            i = i + 1;
        }
        proof {
            lemma_settings_view_contains(p.settings@, setting_id);
        }
        Err(NVAPI_SETTING_NOT_FOUND)
    }

    fn drs_set_setting(&mut self, h: ProfileHandle, setting_id: u32, value: u32) -> (status: i32) {
        let idx = h.id as usize;
        let ghost m0 = self.mem();
        let mut p = self.mem_profiles.remove(idx);
        let ghost s0 = p.settings@;
        p.settings.insert(0, (setting_id, value));
        proof {
            assert(p.settings@.drop_first() =~= s0);
            assert(settings_view(p.settings@) =~= settings_view(s0).insert(setting_id, value));
        }
        self.mem_profiles.insert(idx, p);
        assert(self.mem() =~~= crate::model::set_setting_at(m0, idx as int, setting_id, value));
        NVAPI_OK
    }
}

} // verus!
