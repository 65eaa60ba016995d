//! Mathematical model of the driver-settings registry.
//!
//! A registry is a sequence of profiles; a profile carries a name, its
//! applications and a map of numeric settings. The session's in-memory copy
//! and the persisted copy are both sequences of this shape. The blacklist
//! workflow is described here as a transition on the model, and the verified
//! operations promise to realize exactly these transitions.

use vstd::prelude::*;
use crate::wire::{SHADOWPLAY_SETTING_ID, SHADOWPLAY_DISABLED};

verus! {

/// One application row: display name, executable (the lookup key), and the
/// predefined flag.
#[verifier::ext_equal]
pub struct AppModel {
    pub name: Seq<char>,
    pub executable: Seq<char>,
    pub is_predefined: bool,
}

/// One profile: its display name, the applications bound to it, and its
/// numeric settings. An absent setting is a distinct state from any explicit
/// value: it means "inherit the default".
#[verifier::ext_equal]
pub struct ProfileModel {
    pub name: Seq<char>,
    pub is_predefined: bool,
    pub apps: Seq<AppModel>,
    pub settings: Map<u32, u32>,
}

/// Some profile carries this name.
pub open spec fn has_profile(s: Seq<ProfileModel>, name: Seq<char>) -> bool {
    exists|i: int| 0 <= i < s.len() && s[i].name == name
}

/// The index of the profile carrying this name (unique under `names_unique`).
pub open spec fn profile_index(s: Seq<ProfileModel>, name: Seq<char>) -> int {
    choose|i: int| 0 <= i < s.len() && s[i].name == name
}

/// This profile holds an application row for the executable.
pub open spec fn profile_has_exe(p: ProfileModel, exe: Seq<char>) -> bool {
    exists|j: int| 0 <= j < p.apps.len() && p.apps[j].executable == exe
}

/// Some profile holds an application row for the executable.
pub open spec fn has_exe(s: Seq<ProfileModel>, exe: Seq<char>) -> bool {
    exists|i: int| 0 <= i < s.len() && profile_has_exe(s[i], exe)
}

/// The index of the profile holding the executable (unique under
/// `exes_unique`).
pub open spec fn exe_profile_index(s: Seq<ProfileModel>, exe: Seq<char>) -> int {
    choose|i: int| 0 <= i < s.len() && profile_has_exe(s[i], exe)
}

/// Profile names are unique within the registry.
pub open spec fn names_unique(s: Seq<ProfileModel>) -> bool {
    forall|i: int, j: int| 0 <= i < j < s.len() ==> s[i].name != s[j].name
}

/// Each executable belongs to exactly one application row of one profile.
pub open spec fn exes_unique(s: Seq<ProfileModel>) -> bool {
    forall|i1: int, j1: int, i2: int, j2: int|
        0 <= i1 < s.len() && 0 <= j1 < s[i1].apps.len() && 0 <= i2 < s.len() && 0 <= j2
            < s[i2].apps.len() && (i1 != i2 || j1 != j2) ==> s[i1].apps[j1].executable
            != s[i2].apps[j2].executable
}

/// Registry sizes are backend-reported 32-bit counts.
pub open spec fn counts_bounded(s: Seq<ProfileModel>) -> bool {
    &&& s.len() <= u32::MAX
    &&& forall|i: int| 0 <= i < s.len() ==> (#[trigger] s[i].apps).len() <= u32::MAX
}

/// Well-formedness of one registry copy.
pub open spec fn registry_wf(s: Seq<ProfileModel>) -> bool {
    &&& names_unique(s)
    &&& exes_unique(s)
    &&& counts_bounded(s)
}

/// The registry after writing one numeric setting on the profile at `i`.
pub open spec fn set_setting_at(s: Seq<ProfileModel>, i: int, id: u32, value: u32) -> Seq<
    ProfileModel,
> {
    s.update(i, ProfileModel { settings: s[i].settings.insert(id, value), ..s[i] })
}

/// The registry after appending a fresh, empty, user-defined profile.
pub open spec fn push_profile(s: Seq<ProfileModel>, name: Seq<char>) -> Seq<ProfileModel> {
    s.push(
        ProfileModel {
            name: name,
            is_predefined: false,
            apps: Seq::empty(),
            settings: Map::empty(),
        },
    )
}

/// The registry after appending an application row to the profile at `i`.
pub open spec fn push_app_at(s: Seq<ProfileModel>, i: int, name: Seq<char>, exe: Seq<char>) -> Seq<
    ProfileModel,
> {
    s.update(
        i,
        ProfileModel {
            apps: s[i].apps.push(AppModel { name: name, executable: exe, is_predefined: false }),
            ..s[i]
        },
    )
}

/// The feature toggle of this profile carries the explicit "disabled"
/// sentinel. Absence, or any other value, counts as enabled.
pub open spec fn shadowplay_disabled(p: ProfileModel) -> bool {
    &&& p.settings.contains_key(SHADOWPLAY_SETTING_ID)
    &&& p.settings[SHADOWPLAY_SETTING_ID] == SHADOWPLAY_DISABLED
}

/// The profile name derived deterministically from an executable, used when
/// blacklisting an executable the registry does not know.
pub open spec fn derived_profile_name(exe: Seq<char>) -> Seq<char> {
    "Nvidiot - "@ + exe
}

/// The registry after a successful blacklist of `exe`: the profile already
/// holding the executable gets the disabled sentinel; otherwise the
/// deterministically named profile is found or created, the executable is
/// added to it, and the sentinel is written there.
pub open spec fn blacklist_step(s: Seq<ProfileModel>, exe: Seq<char>) -> Seq<ProfileModel> {
    if has_exe(s, exe) {
        set_setting_at(s, exe_profile_index(s, exe), SHADOWPLAY_SETTING_ID, SHADOWPLAY_DISABLED)
    } else {
        let name = derived_profile_name(exe);
        if has_profile(s, name) {
            let i = profile_index(s, name);
            set_setting_at(push_app_at(s, i, name, exe), i, SHADOWPLAY_SETTING_ID,
                SHADOWPLAY_DISABLED)
        } else {
            let i = s.len() as int;
            set_setting_at(push_app_at(push_profile(s, name), i, name, exe), i,
                SHADOWPLAY_SETTING_ID, SHADOWPLAY_DISABLED)
        }
    }
}

/// The registry after a successful unblacklist of `exe`: only state that
/// exists is reversed; an unknown executable leaves the registry untouched.
pub open spec fn unblacklist_step(s: Seq<ProfileModel>, exe: Seq<char>) -> Seq<ProfileModel> {
    if has_exe(s, exe) {
        set_setting_at(s, exe_profile_index(s, exe), SHADOWPLAY_SETTING_ID,
            crate::wire::SHADOWPLAY_ENABLED)
    } else {
        s
    }
}

/// The profile already holding the executable has room for the blacklist
/// workflow to succeed: an application row, and a profile row where a fresh
/// profile is needed.
pub open spec fn blacklist_room(s: Seq<ProfileModel>, exe: Seq<char>) -> bool {
    if has_exe(s, exe) {
        true
    } else {
        let name = derived_profile_name(exe);
        if has_profile(s, name) {
            s[profile_index(s, name)].apps.len() < u32::MAX
        } else {
            s.len() < u32::MAX
        }
    }
}

/// Under unique names, a profile's position is the index the lookup picks.
pub proof fn lemma_profile_index_of(s: Seq<ProfileModel>, name: Seq<char>, i: int)
    requires
        names_unique(s),
        0 <= i < s.len(),
        s[i].name == name,
    ensures
        has_profile(s, name),
        profile_index(s, name) == i,
{
    let c = profile_index(s, name);
    assert(0 <= c < s.len() && s[c].name == name);
}

/// Under unique executables, the profile holding one is the index the lookup
/// picks.
pub proof fn lemma_exe_index_of(s: Seq<ProfileModel>, exe: Seq<char>, i: int)
    requires
        exes_unique(s),
        0 <= i < s.len(),
        profile_has_exe(s[i], exe),
    ensures
        has_exe(s, exe),
        exe_profile_index(s, exe) == i,
{
    let c = exe_profile_index(s, exe);
    assert(0 <= c < s.len() && profile_has_exe(s[c], exe));
    if c != i {
        let j1 = choose|j: int| 0 <= j < s[i].apps.len() && s[i].apps[j].executable == exe;
        let j2 = choose|j: int| 0 <= j < s[c].apps.len() && s[c].apps[j].executable == exe;
        assert(s[i].apps[j1].executable != s[c].apps[j2].executable);
    }
}

/// The in-memory registry after re-reading the backing store: whatever was
/// in session memory is discarded.
pub open spec fn reload_mem(mem: Seq<ProfileModel>, disk: Seq<ProfileModel>) -> Seq<ProfileModel> {
    disk
}

/// Shape of a setting write: only the settings of the profile at `i` change.
proof fn lemma_set_setting_shape(s: Seq<ProfileModel>, i: int, id: u32, value: u32)
    requires
        0 <= i < s.len(),
    ensures
        ({
            let t = set_setting_at(s, i, id, value);
            &&& t.len() == s.len()
            &&& forall|k: int|
                0 <= k < s.len() ==> (#[trigger] t[k]).name == s[k].name && t[k].apps == s[k].apps
                    && t[k].is_predefined == s[k].is_predefined
            &&& t[i].settings == s[i].settings.insert(id, value)
            &&& forall|k: int| 0 <= k < s.len() && k != i ==> (#[trigger] t[k]).settings
                == s[k].settings
        }),
{
}

/// Shape of a row insertion: only the rows of the profile at `i` change, by
/// one appended row.
proof fn lemma_push_app_shape(s: Seq<ProfileModel>, i: int, name: Seq<char>, exe: Seq<char>)
    requires
        0 <= i < s.len(),
    ensures
        ({
            let t = push_app_at(s, i, name, exe);
            &&& t.len() == s.len()
            &&& forall|k: int|
                0 <= k < s.len() ==> (#[trigger] t[k]).name == s[k].name && t[k].settings
                    == s[k].settings && t[k].is_predefined == s[k].is_predefined
            &&& forall|k: int| 0 <= k < s.len() && k != i ==> (#[trigger] t[k]).apps == s[k].apps
            &&& t[i].apps == s[i].apps.push(
                AppModel { name: name, executable: exe, is_predefined: false },
            )
        }),
{
}

/// The blacklist transition keeps the registry well-formed, given room for
/// what it may add.
pub proof fn lemma_blacklist_preserves_wf(s: Seq<ProfileModel>, exe: Seq<char>)
    requires
        registry_wf(s),
        blacklist_room(s, exe),
    ensures
        registry_wf(blacklist_step(s, exe)),
        has_exe(blacklist_step(s, exe), exe),
{
    let name = derived_profile_name(exe);
    if has_exe(s, exe) {
        let c = exe_profile_index(s, exe);
        assert(0 <= c < s.len() && profile_has_exe(s[c], exe));
        lemma_set_setting_shape(s, c, SHADOWPLAY_SETTING_ID, SHADOWPLAY_DISABLED);
        let t = blacklist_step(s, exe);
        assert(profile_has_exe(t[c], exe));
    } else {
        let s2 = if has_profile(s, name) {
            s
        } else {
            push_profile(s, name)
        };
        let i = if has_profile(s, name) {
            profile_index(s, name)
        } else {
            s.len() as int
        };
        assert(names_unique(s2) && exes_unique(s2) && counts_bounded(s2)) by {
            if !has_profile(s, name) {
                assert(forall|k: int| 0 <= k < s.len() ==> (#[trigger] s2[k]) == s[k]);
                assert forall|k: int| 0 <= k < s.len() implies s[k].name != name by {
                    if s[k].name == name {
                        assert(has_profile(s, name));
                    }
                }
            }
        }
        assert(0 <= i < s2.len()) by {
            if has_profile(s, name) {
                let w = profile_index(s, name);
                assert(0 <= w < s.len() && s[w].name == name);
            }
        }
        assert(!has_exe(s2, exe)) by {
            if has_exe(s2, exe) {
                let k = choose|k: int| 0 <= k < s2.len() && profile_has_exe(s2[k], exe);
                if k < s.len() {
                    assert(s2[k] == s[k]);
                    assert(has_exe(s, exe));
                } else {
                    let j = choose|j: int|
                        0 <= j < s2[k].apps.len() && s2[k].apps[j].executable == exe;
                }
            }
        }
        assert(s2[i].apps.len() < u32::MAX) by {
            if !has_profile(s, name) {
                assert(s2[i].apps.len() == 0);
            }
        }
        let s3 = push_app_at(s2, i, name, exe);
        lemma_push_app_shape(s2, i, name, exe);
        assert(names_unique(s3));
        assert(counts_bounded(s3)) by {
            assert forall|k: int| 0 <= k < s3.len() implies (#[trigger] s3[k].apps).len()
                <= u32::MAX by {
                if k != i {
                    assert(s3[k].apps == s2[k].apps);
                }
            }
        }
        let new_row = s2[i].apps.len() as int;
        assert(exes_unique(s3)) by {
            assert forall|i1: int, j1: int, i2: int, j2: int|
                0 <= i1 < s3.len() && 0 <= j1 < s3[i1].apps.len() && 0 <= i2 < s3.len() && 0 <= j2
                    < s3[i2].apps.len() && (i1 != i2 || j1 != j2) implies s3[i1].apps[j1].executable
                != s3[i2].apps[j2].executable by {
                let fresh1 = i1 == i && j1 == new_row;
                let fresh2 = i2 == i && j2 == new_row;
                if fresh1 && !fresh2 {
                    assert(s3[i2].apps[j2] == s2[i2].apps[j2]);
                    if s2[i2].apps[j2].executable == exe {
                        assert(profile_has_exe(s2[i2], exe));
                        assert(has_exe(s2, exe));
                    }
                } else if !fresh1 && fresh2 {
                    assert(s3[i1].apps[j1] == s2[i1].apps[j1]);
                    if s2[i1].apps[j1].executable == exe {
                        assert(profile_has_exe(s2[i1], exe));
                        assert(has_exe(s2, exe));
                    }
                } else if !fresh1 && !fresh2 {
                    assert(s3[i1].apps[j1] == s2[i1].apps[j1]);
                    assert(s3[i2].apps[j2] == s2[i2].apps[j2]);
                }
            }
        }
        lemma_set_setting_shape(s3, i, SHADOWPLAY_SETTING_ID, SHADOWPLAY_DISABLED);
        let t = blacklist_step(s, exe);
        assert(t == set_setting_at(s3, i, SHADOWPLAY_SETTING_ID, SHADOWPLAY_DISABLED));
        assert(names_unique(t) && counts_bounded(t)) by {
            assert forall|k: int| 0 <= k < t.len() implies (#[trigger] t[k].apps).len()
                <= u32::MAX by {
                assert(t[k].apps == s3[k].apps);
            }
        }
        assert(exes_unique(t)) by {
            assert forall|i1: int, j1: int, i2: int, j2: int|
                0 <= i1 < t.len() && 0 <= j1 < t[i1].apps.len() && 0 <= i2 < t.len() && 0 <= j2
                    < t[i2].apps.len() && (i1 != i2 || j1 != j2) implies t[i1].apps[j1].executable
                != t[i2].apps[j2].executable by {
                assert(t[i1].apps == s3[i1].apps);
                assert(t[i2].apps == s3[i2].apps);
            }
        }
        assert(s3[i].apps[new_row].executable == exe);
        assert(t[i].apps == s3[i].apps);
        assert(profile_has_exe(t[i], exe));
    }
}

/// After a blacklist, the profile holding the executable carries the
/// disabled sentinel, and no duplicate profile was created: the registry
/// grew only where neither the executable nor the derived profile existed.
pub proof fn lemma_blacklist_disables(s: Seq<ProfileModel>, exe: Seq<char>)
    requires
        registry_wf(s),
        blacklist_room(s, exe),
    ensures
        has_exe(blacklist_step(s, exe), exe),
        shadowplay_disabled(
            blacklist_step(s, exe)[exe_profile_index(blacklist_step(s, exe), exe)],
        ),
        blacklist_step(s, exe).len() == if has_exe(s, exe) || has_profile(
            s,
            derived_profile_name(exe),
        ) {
            s.len()
        } else {
            s.len() + 1
        },
{
    lemma_blacklist_preserves_wf(s, exe);
    let t = blacklist_step(s, exe);
    let name = derived_profile_name(exe);
    if has_exe(s, exe) {
        let c = exe_profile_index(s, exe);
        lemma_set_setting_shape(s, c, SHADOWPLAY_SETTING_ID, SHADOWPLAY_DISABLED);
        assert(profile_has_exe(t[c], exe));
        lemma_exe_index_of(t, exe, c);
    } else {
        let s2 = if has_profile(s, name) {
            s
        } else {
            push_profile(s, name)
        };
        let i = if has_profile(s, name) {
            profile_index(s, name)
        } else {
            s.len() as int
        };
        assert(0 <= i < s2.len()) by {
            if has_profile(s, name) {
                let w = profile_index(s, name);
                assert(0 <= w < s.len() && s[w].name == name);
            }
        }
        let s3 = push_app_at(s2, i, name, exe);
        lemma_push_app_shape(s2, i, name, exe);
        lemma_set_setting_shape(s3, i, SHADOWPLAY_SETTING_ID, SHADOWPLAY_DISABLED);
        assert(t == set_setting_at(s3, i, SHADOWPLAY_SETTING_ID, SHADOWPLAY_DISABLED));
        assert(t[i].apps == s3[i].apps);
        assert(s3[i].apps[s2[i].apps.len() as int].executable == exe);
        assert(profile_has_exe(t[i], exe));
        lemma_exe_index_of(t, exe, i);
        assert(t[i].settings == s3[i].settings.insert(SHADOWPLAY_SETTING_ID, SHADOWPLAY_DISABLED));
    }
}

/// Blacklisting is idempotent: doing it a second time changes nothing, so no
/// profile is ever duplicated and the toggle stays at the disabled sentinel.
pub proof fn lemma_blacklist_idempotent(s: Seq<ProfileModel>, exe: Seq<char>)
    requires
        registry_wf(s),
        blacklist_room(s, exe),
    ensures
        blacklist_step(blacklist_step(s, exe), exe) == blacklist_step(s, exe),
{
    lemma_blacklist_preserves_wf(s, exe);
    let t = blacklist_step(s, exe);
    let c = exe_profile_index(t, exe);
    lemma_blacklist_disables(s, exe);
    assert(0 <= c < t.len() && profile_has_exe(t[c], exe));
    assert(blacklist_step(t, exe) == set_setting_at(t, c, SHADOWPLAY_SETTING_ID,
        SHADOWPLAY_DISABLED));
    assert(t[c].settings.insert(SHADOWPLAY_SETTING_ID, SHADOWPLAY_DISABLED) =~= t[c].settings);
    assert(set_setting_at(t, c, SHADOWPLAY_SETTING_ID, SHADOWPLAY_DISABLED) =~~= t);
}

/// Writing a setting into session memory and then re-reading the backing
/// store yields exactly the persisted registry: the unsaved write is
/// discarded, and a later read reflects the last persisted value, not the
/// uncommitted one.
pub proof fn lemma_reload_discards_unsaved(
    mem: Seq<ProfileModel>,
    disk: Seq<ProfileModel>,
    i: int,
    id: u32,
    value: u32,
)
    requires
        0 <= i < mem.len(),
    ensures
        reload_mem(set_setting_at(mem, i, id, value), disk) == disk,
        forall|k: int|
            0 <= k < disk.len() ==> shadowplay_disabled(
                #[trigger] reload_mem(set_setting_at(mem, i, id, value), disk)[k],
            ) == shadowplay_disabled(disk[k]),
{
}

} // verus!
