//! The native wire contract: fixed-width null-terminated wide-character
//! buffers, versioned structures, and the feature-toggle constants.
//!
//! Strings cross the boundary as buffers of `NVAPI_UNICODE_STRING_MAX`
//! 16-bit units; writing a longer string truncates it to fit and always
//! null-terminates.

use vstd::prelude::*;

verus! {

/// Version tag that `NvdrsProfile` must carry on every call.
pub const NVDRS_PROFILE_VER: u32 = 0x10028;

/// Version tag that `NvdrsApplication` must carry on every call.
pub const NVDRS_APPLICATION_VER: u32 = 0x30038;

/// Version tag that `NvdrsSetting` must carry on every call.
pub const NVDRS_SETTING_VER: u32 = 0x10058;

/// Width of every wide-character string buffer, in 16-bit units.
pub const NVAPI_UNICODE_STRING_MAX: usize = 2048;

/// Width of a binary setting value, in bytes.
pub const NVAPI_SETTING_MAX_VALUES: usize = 100;

/// The feature-toggle setting: the well-known numeric ID whose value marks an
/// application as blacklisted.
pub const SHADOWPLAY_SETTING_ID: u32 = 0x809D5F60;

/// Sentinel value of the feature toggle meaning "feature disabled"
/// (blacklisted).
pub const SHADOWPLAY_DISABLED: u32 = 0x10000000;

/// Sentinel value of the feature toggle meaning "feature enabled". Any other
/// value, or the setting's absence, also counts as enabled.
pub const SHADOWPLAY_ENABLED: u32 = 0x08000001;

/// What lossy UTF-16 decoding returns for a sequence of units.
pub uninterp spec fn decoded_utf16(units: Seq<u16>) -> Seq<char>;

/// What UTF-16 encoding returns for a sequence of characters.
pub uninterp spec fn encoded_utf16(s: Seq<char>) -> Seq<u16>;

/// Relies on `String::from_utf16_lossy`: the decoding is a function of the
/// units alone, with invalid data replaced by the replacement character.
#[verifier::external_body]
fn utf16_lossy_to_string(units: &Vec<u16>) -> (r: String)
    ensures
        r@ == decoded_utf16(units@),
{
    String::from_utf16_lossy(units)
}

/// Relies on `str::encode_utf16`: the encoding is a function of the
/// characters alone.
#[verifier::external_body]
fn encode_utf16_units(s: &str) -> (r: Vec<u16>)
    ensures
        r@ == encoded_utf16(s@),
{
    s.encode_utf16().collect()
}

/// `end` is the index of the first zero unit, or the length when none occurs.
pub open spec fn is_nul_end(units: Seq<u16>, end: int) -> bool {
    &&& 0 <= end <= units.len()
    &&& forall|k: int| 0 <= k < end ==> units[k] != 0
    &&& end < units.len() ==> units[end] == 0
}

/// The index of the first zero unit, or the length when none occurs.
pub open spec fn nul_end(units: Seq<u16>) -> int
    decreases units.len(),
{
    if units.len() == 0 {
        0
    } else if units[0] == 0 {
        0
    } else {
        1 + nul_end(units.drop_first())
    }
}

/// `nul_end` satisfies its characterization.
pub proof fn lemma_nul_end(units: Seq<u16>)
    ensures
        is_nul_end(units, nul_end(units)),
    decreases units.len(),
{
    if units.len() != 0 && units[0] != 0 {
        lemma_nul_end(units.drop_first());
        assert forall|k: int| 0 <= k < nul_end(units) implies units[k] != 0 by {
            if k > 0 {
                assert(units.drop_first()[k - 1] != 0);
            }
        }
    }
}

/// The characterization determines the index uniquely.
pub proof fn lemma_nul_end_unique(units: Seq<u16>, a: int, b: int)
    requires
        is_nul_end(units, a),
        is_nul_end(units, b),
    ensures
        a == b,
{
}

/// Decodes a wide-character buffer up to its first null terminator, as the
/// native backend fills such buffers.
pub fn wchar_to_string(wchars: &[u16]) -> (r: String)
    ensures
        r@ == decoded_utf16(wchars@.take(nul_end(wchars@))),
{
    let n = wchars.len();
    let mut prefix: Vec<u16> = Vec::new();
    let mut i: usize = 0;
    let mut stopped = false;
    while i < n && !stopped
        invariant
            0 <= i <= n,
            n == wchars@.len(),
            prefix@ == wchars@.take(i as int),
            forall|k: int| 0 <= k < i ==> wchars@[k] != 0,
            stopped ==> i < n && wchars@[i as int] == 0,
        decreases n - i + (if stopped { 0int } else { 1int }),
    {
        let c = *vstd::slice::slice_index_get(wchars, i);
        if c == 0 {
            stopped = true;
        } else {
            prefix.push(c);
            i = i + 1;
        }
    }
    proof {
        lemma_nul_end(wchars@);
        lemma_nul_end_unique(wchars@, i as int, nul_end(wchars@));
    }
    utf16_lossy_to_string(&prefix)
}

/// Encodes a string into a fixed-width wide-character buffer: a longer string
/// is truncated to leave room for the terminator, and the written portion is
/// always null-terminated. Units past the terminator keep their old contents.
pub fn string_to_wchar(s: &str, buffer: &mut Vec<u16>)
    requires
        old(buffer)@.len() >= 1,
    ensures
        final(buffer)@.len() == old(buffer)@.len(),
        ({
            let units = encoded_utf16(s@);
            let n = if units.len() < old(buffer)@.len() - 1 {
                units.len() as int
            } else {
                old(buffer)@.len() - 1
            };
            &&& final(buffer)@.take(n) == units.take(n)
            &&& final(buffer)@[n] == 0
            &&& forall|k: int| n < k < old(buffer)@.len() ==> final(buffer)@[k] == old(buffer)@[k]
        }),
{
    let units = encode_utf16_units(s);
    let n: usize = if units.len() < buffer.len() - 1 {
        units.len()
    } else {
        buffer.len() - 1
    };
    let mut i: usize = 0;
    while i < n
        invariant
            0 <= i <= n,
            n < buffer@.len(),
            n <= units@.len(),
            buffer@.len() == old(buffer)@.len(),
            units@ == encoded_utf16(s@),
            forall|k: int| 0 <= k < i ==> buffer@[k] == units@[k],
            forall|k: int| i <= k < buffer@.len() ==> buffer@[k] == old(buffer)@[k],
        decreases n - i,
    {
        let u = units[i];
        buffer.set(i, u);
        i = i + 1;
    }
    buffer.set(n, 0);
    assert(final(buffer)@.take(n as int) =~= encoded_utf16(s@).take(n as int));
}

/// Wire structure describing a profile.
pub struct NvdrsProfile {
    pub version: u32,
    pub profile_name: Vec<u16>,
    pub gpu_support: u32,
    pub is_predefined: u32,
    pub num_of_apps: u32,
    pub num_of_settings: u32,
}

impl NvdrsProfile {
    /// The version tag is set for this structure kind and the name buffer has
    /// the fixed wire width.
    pub open spec fn wf(&self) -> bool {
        &&& self.version == NVDRS_PROFILE_VER
        &&& self.profile_name@.len() == NVAPI_UNICODE_STRING_MAX
    }
}

impl Default for NvdrsProfile {
    /// An empty, correctly versioned profile structure.
    fn default() -> (r: Self)
        ensures
            r.wf(),
            forall|k: int| 0 <= k < r.profile_name@.len() ==> r.profile_name@[k] == 0,
            r.gpu_support == 0,
            r.is_predefined == 0,
            r.num_of_apps == 0,
            r.num_of_settings == 0,
    {
        NvdrsProfile {
            version: NVDRS_PROFILE_VER,
            profile_name: zero_wide_buffer(),
            gpu_support: 0,
            is_predefined: 0,
            num_of_apps: 0,
            num_of_settings: 0,
        }
    }
}

/// Wire structure describing an application row.
pub struct NvdrsApplication {
    pub version: u32,
    pub is_predefined: u32,
    pub app_name: Vec<u16>,
    pub user_friendly_name: Vec<u16>,
    pub launcher: Vec<u16>,
}

impl NvdrsApplication {
    /// The version tag is set for this structure kind and every buffer has
    /// the fixed wire width.
    pub open spec fn wf(&self) -> bool {
        &&& self.version == NVDRS_APPLICATION_VER
        &&& self.app_name@.len() == NVAPI_UNICODE_STRING_MAX
        &&& self.user_friendly_name@.len() == NVAPI_UNICODE_STRING_MAX
        &&& self.launcher@.len() == NVAPI_UNICODE_STRING_MAX
    }
}

impl Default for NvdrsApplication {
    /// An empty, correctly versioned application structure.
    fn default() -> (r: Self)
        ensures
            r.wf(),
            r.is_predefined == 0,
            forall|k: int| 0 <= k < r.app_name@.len() ==> r.app_name@[k] == 0,
            forall|k: int| 0 <= k < r.user_friendly_name@.len() ==> r.user_friendly_name@[k] == 0,
            forall|k: int| 0 <= k < r.launcher@.len() ==> r.launcher@[k] == 0,
    {
        NvdrsApplication {
            version: NVDRS_APPLICATION_VER,
            is_predefined: 0,
            app_name: zero_wide_buffer(),
            user_friendly_name: zero_wide_buffer(),
            launcher: zero_wide_buffer(),
        }
    }
}

/// The kind of a setting value. Only the numeric kind is exercised here.
#[derive(Debug, Clone, Copy, PartialEq, Eq, Structural)]
pub enum NvdrsSettingType {
    Dword,
    Binary,
    NarrowString,
    WideString,
}

impl NvdrsSettingType {
    /// The numeric tag the wire protocol uses for this kind.
    pub fn code(&self) -> (r: u32)
        ensures
            r == match *self {
                NvdrsSettingType::Dword => 0u32,
                NvdrsSettingType::Binary => 1u32,
                NvdrsSettingType::NarrowString => 2u32,
                NvdrsSettingType::WideString => 3u32,
            },
    {
        match self {
            NvdrsSettingType::Dword => 0,
            NvdrsSettingType::Binary => 1,
            NvdrsSettingType::NarrowString => 2,
            NvdrsSettingType::WideString => 3,
        }
    }
}

/// Wire structure describing one setting. The value fields carry the numeric
/// (dword) view of the wire union: only that variant is exercised here.
pub struct NvdrsSetting {
    pub version: u32,
    pub setting_name: Vec<u16>,
    pub setting_id: u32,
    pub setting_type: u32,
    pub setting_location: u32,
    pub is_current_predefined: u32,
    pub is_predefined_valid: u32,
    pub predefined_value: u32,
    pub current_value: u32,
}

impl NvdrsSetting {
    /// The version tag is set for this structure kind and the name buffer has
    /// the fixed wire width.
    pub open spec fn wf(&self) -> bool {
        &&& self.version == NVDRS_SETTING_VER
        &&& self.setting_name@.len() == NVAPI_UNICODE_STRING_MAX
    }
}

impl Default for NvdrsSetting {
    /// An empty, correctly versioned setting structure.
    fn default() -> (r: Self)
        ensures
            r.wf(),
            r.setting_id == 0,
            r.setting_type == 0,
            r.setting_location == 0,
            r.is_current_predefined == 0,
            r.is_predefined_valid == 0,
            r.predefined_value == 0,
            r.current_value == 0,
    {
        NvdrsSetting {
            version: NVDRS_SETTING_VER,
            setting_name: zero_wide_buffer(),
            setting_id: 0,
            setting_type: 0,
            setting_location: 0,
            is_current_predefined: 0,
            is_predefined_valid: 0,
            predefined_value: 0,
            current_value: 0,
        }
    }
}

/// A zeroed wide-character buffer of the fixed wire width.
fn zero_wide_buffer() -> (r: Vec<u16>)
    ensures
        r@.len() == NVAPI_UNICODE_STRING_MAX,
        forall|k: int| 0 <= k < r@.len() ==> r@[k] == 0,
{
    let mut v: Vec<u16> = Vec::new();
    let mut i: usize = 0;
    while i < NVAPI_UNICODE_STRING_MAX
        invariant
            0 <= i <= NVAPI_UNICODE_STRING_MAX,
            v@.len() == i,
            forall|k: int| 0 <= k < i ==> v@[k] == 0,
        decreases NVAPI_UNICODE_STRING_MAX - i,
    {
        v.push(0);
        i = i + 1;
    }
    v
}

/// Builds the wire structure for creating a profile with the given display
/// name, as the create-profile operation requires it.
pub fn make_profile_info(name: &str) -> (r: NvdrsProfile)
    ensures
        r.wf(),
        ({
            let units = encoded_utf16(name@);
            let n = if units.len() < NVAPI_UNICODE_STRING_MAX - 1 {
                units.len() as int
            } else {
                NVAPI_UNICODE_STRING_MAX - 1
            };
            &&& r.profile_name@.take(n) == units.take(n)
            &&& r.profile_name@[n] == 0
        }),
{
    let mut info = NvdrsProfile::default();
    string_to_wchar(name, &mut info.profile_name);
    info
}

/// Builds the wire structure for creating an application row with the given
/// executable and friendly name.
pub fn make_application(executable: &str, friendly_name: &str) -> (r: NvdrsApplication)
    ensures
        r.wf(),
        r.is_predefined == 0,
        ({
            let units = encoded_utf16(executable@);
            let n = if units.len() < NVAPI_UNICODE_STRING_MAX - 1 {
                units.len() as int
            } else {
                NVAPI_UNICODE_STRING_MAX - 1
            };
            &&& r.app_name@.take(n) == units.take(n)
            &&& r.app_name@[n] == 0
        }),
        ({
            let units = encoded_utf16(friendly_name@);
            let n = if units.len() < NVAPI_UNICODE_STRING_MAX - 1 {
                units.len() as int
            } else {
                NVAPI_UNICODE_STRING_MAX - 1
            };
            &&& r.user_friendly_name@.take(n) == units.take(n)
            &&& r.user_friendly_name@[n] == 0
        }),
{
    let mut app = NvdrsApplication::default();
    string_to_wchar(executable, &mut app.app_name);
    string_to_wchar(friendly_name, &mut app.user_friendly_name);
    app
}

/// Builds the wire structure for writing a numeric setting value.
pub fn make_dword_setting(setting_id: u32, value: u32) -> (r: NvdrsSetting)
    ensures
        r.wf(),
        r.setting_id == setting_id,
        r.setting_type == 0,
        r.current_value == value,
{
    let mut setting = NvdrsSetting::default();
    setting.setting_id = setting_id;
    setting.setting_type = 0;
    setting.current_value = value;
    setting
}

} // verus!
