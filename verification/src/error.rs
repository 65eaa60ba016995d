//! Error taxonomy and native status codes.
//!
//! Status codes are signed 32-bit integers; `0` means success, and a handful
//! of distinguished sentinels (end of enumeration, the not-found family) must
//! be told apart from generic failure.

use vstd::prelude::*;

verus! {

/// Success.
pub const NVAPI_OK: i32 = 0;
/// Generic failure.
pub const NVAPI_ERROR: i32 = -1;
pub const NVAPI_LIBRARY_NOT_FOUND: i32 = -2;
pub const NVAPI_NO_IMPLEMENTATION: i32 = -3;
pub const NVAPI_API_NOT_INITIALIZED: i32 = -4;
pub const NVAPI_INVALID_ARGUMENT: i32 = -5;
pub const NVAPI_NVIDIA_DEVICE_NOT_FOUND: i32 = -6;
/// End-of-enumeration sentinel: "no more items", distinct from a true error.
pub const NVAPI_END_ENUMERATION: i32 = -7;
pub const NVAPI_INVALID_HANDLE: i32 = -8;
pub const NVAPI_INCOMPATIBLE_STRUCT_VERSION: i32 = -9;
/// Not-found sentinel for profile lookups.
pub const NVAPI_PROFILE_NOT_FOUND: i32 = -175;
pub const NVAPI_PROFILE_NAME_IN_USE: i32 = -176;
/// Not-found sentinel for application lookups.
pub const NVAPI_EXECUTABLE_NOT_FOUND: i32 = -183;
pub const NVAPI_EXECUTABLE_ALREADY_IN_USE: i32 = -184;
/// Not-found sentinel for setting reads: absence, not failure.
pub const NVAPI_SETTING_NOT_FOUND: i32 = -179;

/// Everything that can go wrong when talking to the driver-settings registry.
///
/// Not-found conditions carry the name that was looked up; rejected
/// operations carry the raw native status code for diagnostics.
#[derive(Debug, Clone)]
pub enum NvApiError {
    LibraryNotFound,
    InitializationFailed(i32),
    NoGpuFound,
    SessionCreationFailed(i32),
    LoadSettingsFailed(i32),
    SaveSettingsFailed(i32),
    ProfileNotFound(String),
    ApplicationNotFound(String),
    ProfileCreationFailed(i32),
    ApplicationCreationFailed(i32),
    SetSettingFailed(i32),
    GetSettingFailed(i32),
    FunctionNotFound(String),
    NvApiStatus(i32),
    NotSupported,
}

/// The character for one decimal digit.
pub open spec fn spec_digit_char(d: int) -> char {
    if d == 0 {
        '0'
    } else if d == 1 {
        '1'
    } else if d == 2 {
        '2'
    } else if d == 3 {
        '3'
    } else if d == 4 {
        '4'
    } else if d == 5 {
        '5'
    } else if d == 6 {
        '6'
    } else if d == 7 {
        '7'
    } else if d == 8 {
        '8'
    } else {
        '9'
    }
}

/// Decimal digits of a natural number, most significant first.
pub open spec fn spec_decimal_nat(n: nat) -> Seq<char>
    decreases n,
{
    if n < 10 {
        seq![spec_digit_char(n as int)]
    } else {
        spec_decimal_nat(n / 10).push(spec_digit_char((n % 10) as int))
    }
}

/// Decimal rendering of a signed number, with a leading minus where negative.
pub open spec fn spec_decimal(v: int) -> Seq<char> {
    if v < 0 {
        seq!['-'] + spec_decimal_nat((-v) as nat)
    } else {
        spec_decimal_nat(v as nat)
    }
}

/// Appends one decimal digit character.
fn append_digit(out: &mut String, d: u32)
    requires
        d < 10,
    ensures
        final(out)@ == old(out)@.push(spec_digit_char(d as int)),
{
    proof {
        reveal_strlit("0");
        reveal_strlit("1");
        reveal_strlit("2");
        reveal_strlit("3");
        reveal_strlit("4");
        reveal_strlit("5");
        reveal_strlit("6");
        reveal_strlit("7");
        reveal_strlit("8");
        reveal_strlit("9");
    }
    match d {
        0 => out.append("0"),
        1 => out.append("1"),
        2 => out.append("2"),
        3 => out.append("3"),
        4 => out.append("4"),
        5 => out.append("5"),
        6 => out.append("6"),
        7 => out.append("7"),
        8 => out.append("8"),
        _ => out.append("9"),
    }
    assert(final(out)@ =~= old(out)@.push(spec_digit_char(d as int)));
}

/// Appends the decimal digits of `v`.
fn append_decimal_u32(out: &mut String, v: u32)
    ensures
        final(out)@ == old(out)@ + spec_decimal_nat(v as nat),
    decreases v,
{
    if v >= 10 {
        append_decimal_u32(out, v / 10);
    }
    append_digit(out, v % 10);
    assert(final(out)@ =~= old(out)@ + spec_decimal_nat(v as nat));
}

/// Renders a signed 32-bit value in decimal, as status codes are reported.
pub fn decimal_string_i32(v: i32) -> (r: String)
    ensures
        r@ == spec_decimal(v as int),
{
    let mut out = String::new();
    if v < 0 {
        proof {
            reveal_strlit("-");
        }
        out.append("-");
        let magnitude: u32 = ((-(v as i64)) as u64) as u32;
        append_decimal_u32(&mut out, magnitude);
        assert(out@ =~= spec_decimal(v as int));
    } else {
        append_decimal_u32(&mut out, v as u32);
        assert(out@ =~= spec_decimal(v as int));
    }
    out
}

/// The human-readable description of each error, exactly.
pub open spec fn spec_error_message(e: NvApiError) -> Seq<char> {
    match e {
        NvApiError::LibraryNotFound => "NVAPI library not found - ensure NVIDIA drivers are installed"@,
        NvApiError::InitializationFailed(c) => "NVAPI initialization failed: "@ + spec_decimal(
            c as int,
        ),
        NvApiError::NoGpuFound => "No NVIDIA GPU found"@,
        NvApiError::SessionCreationFailed(c) => "DRS session creation failed: "@ + spec_decimal(
            c as int,
        ),
        NvApiError::LoadSettingsFailed(c) => "Failed to load settings: "@ + spec_decimal(c as int),
        NvApiError::SaveSettingsFailed(c) => "Failed to save settings: "@ + spec_decimal(c as int),
        NvApiError::ProfileNotFound(name) => "Profile not found: "@ + name@,
        NvApiError::ApplicationNotFound(name) => "Application not found: "@ + name@,
        NvApiError::ProfileCreationFailed(c) => "Failed to create profile: "@ + spec_decimal(
            c as int,
        ),
        NvApiError::ApplicationCreationFailed(c) => "Failed to create application: "@
            + spec_decimal(c as int),
        NvApiError::SetSettingFailed(c) => "Failed to set setting: "@ + spec_decimal(c as int),
        NvApiError::GetSettingFailed(c) => "Failed to get setting: "@ + spec_decimal(c as int),
        NvApiError::FunctionNotFound(name) => "Function not found in NVAPI: "@ + name@,
        NvApiError::NvApiStatus(c) => "NVAPI error code: "@ + spec_decimal(c as int),
        NvApiError::NotSupported => "Not supported on this platform"@,
    }
}

impl NvApiError {
    /// The error as a display string, for reporting to a caller.
    pub fn message(&self) -> (r: String)
        ensures
            r@ == spec_error_message(*self),
    {
        match self {
            NvApiError::LibraryNotFound => String::from_str(
                "NVAPI library not found - ensure NVIDIA drivers are installed",
            ),
            NvApiError::InitializationFailed(c) => prefixed_code(
                "NVAPI initialization failed: ",
                *c,
            ),
            NvApiError::NoGpuFound => String::from_str("No NVIDIA GPU found"),
            NvApiError::SessionCreationFailed(c) => prefixed_code(
                "DRS session creation failed: ",
                *c,
            ),
            NvApiError::LoadSettingsFailed(c) => prefixed_code("Failed to load settings: ", *c),
            NvApiError::SaveSettingsFailed(c) => prefixed_code("Failed to save settings: ", *c),
            NvApiError::ProfileNotFound(name) => prefixed_name("Profile not found: ", name),
            NvApiError::ApplicationNotFound(name) => prefixed_name("Application not found: ", name),
            NvApiError::ProfileCreationFailed(c) => prefixed_code("Failed to create profile: ", *c),
            NvApiError::ApplicationCreationFailed(c) => prefixed_code(
                "Failed to create application: ",
                *c,
            ),
            NvApiError::SetSettingFailed(c) => prefixed_code("Failed to set setting: ", *c),
            NvApiError::GetSettingFailed(c) => prefixed_code("Failed to get setting: ", *c),
            NvApiError::FunctionNotFound(name) => prefixed_name(
                "Function not found in NVAPI: ",
                name,
            ),
            NvApiError::NvApiStatus(c) => prefixed_code("NVAPI error code: ", *c),
            NvApiError::NotSupported => String::from_str("Not supported on this platform"),
        }
    }
}

/// A fixed prefix followed by a status code in decimal.
fn prefixed_code(prefix: &str, code: i32) -> (r: String)
    ensures
        r@ == prefix@ + spec_decimal(code as int),
{
    let mut out = String::from_str(prefix);
    let tail = decimal_string_i32(code);
    out.append(tail.as_str());
    out
}

/// A fixed prefix followed by a looked-up name.
fn prefixed_name(prefix: &str, name: &String) -> (r: String)
    ensures
        r@ == prefix@ + name@,
{
    let mut out = String::from_str(prefix);
    out.append(name.as_str());
    out
}

} // verus!
