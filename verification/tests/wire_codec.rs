//! Tests of the wide-character wire codec and the versioned structures.

use nvidiot::wire::{
    make_application, make_dword_setting, make_profile_info, string_to_wchar, wchar_to_string,
    NvdrsApplication, NvdrsProfile, NvdrsSetting, NvdrsSettingType, NVAPI_UNICODE_STRING_MAX,
    NVDRS_APPLICATION_VER, NVDRS_PROFILE_VER, NVDRS_SETTING_VER,
};

#[test]
fn wchar_round_trip() {
    let mut buffer = vec![0u16; NVAPI_UNICODE_STRING_MAX];
    string_to_wchar("hello.exe", &mut buffer);
    assert_eq!(wchar_to_string(&buffer), "hello.exe");
}

#[test]
fn wchar_encoding_null_terminates_and_keeps_tail() {
    let mut buffer = vec![7u16; 16];
    string_to_wchar("ab", &mut buffer);
    assert_eq!(buffer[0], 'a' as u16);
    assert_eq!(buffer[1], 'b' as u16);
    assert_eq!(buffer[2], 0);
    for k in 3..16 {
        assert_eq!(buffer[k], 7);
    }
    assert_eq!(wchar_to_string(&buffer), "ab");
}

#[test]
fn wchar_encoding_truncates_to_fit() {
    let long = "x".repeat(3000);
    let mut buffer = vec![0u16; NVAPI_UNICODE_STRING_MAX];
    string_to_wchar(long.as_str(), &mut buffer);
    assert_eq!(buffer[NVAPI_UNICODE_STRING_MAX - 1], 0);
    let decoded = wchar_to_string(&buffer);
    assert_eq!(decoded.len(), NVAPI_UNICODE_STRING_MAX - 1);
    assert!(decoded.chars().all(|c| c == 'x'));
}

#[test]
fn wchar_decoding_stops_at_first_null() {
    let units = vec!['h' as u16, 'i' as u16, 0, 'x' as u16];
    assert_eq!(wchar_to_string(&units), "hi");
    let no_null = vec!['h' as u16, 'i' as u16];
    assert_eq!(wchar_to_string(&no_null), "hi");
    let empty: Vec<u16> = Vec::new();
    assert_eq!(wchar_to_string(&empty), "");
}

#[test]
fn structures_carry_their_version_tags() {
    let profile = NvdrsProfile::default();
    assert_eq!(profile.version, NVDRS_PROFILE_VER);
    assert_eq!(profile.profile_name.len(), NVAPI_UNICODE_STRING_MAX);
    assert_eq!(profile.num_of_apps, 0);

    let app = NvdrsApplication::default();
    assert_eq!(app.version, NVDRS_APPLICATION_VER);
    assert_eq!(app.app_name.len(), NVAPI_UNICODE_STRING_MAX);

    let setting = NvdrsSetting::default();
    assert_eq!(setting.version, NVDRS_SETTING_VER);
    assert_eq!(setting.current_value, 0);
}

#[test]
fn built_structures_encode_their_strings() {
    let info = make_profile_info("My Profile");
    assert_eq!(info.version, NVDRS_PROFILE_VER);
    assert_eq!(wchar_to_string(&info.profile_name), "My Profile");

    let app = make_application("game.exe", "Game");
    assert_eq!(app.version, NVDRS_APPLICATION_VER);
    assert_eq!(wchar_to_string(&app.app_name), "game.exe");
    assert_eq!(wchar_to_string(&app.user_friendly_name), "Game");
    assert_eq!(wchar_to_string(&app.launcher), "");

    let setting = make_dword_setting(0x809D5F60, 0x10000000);
    assert_eq!(setting.version, NVDRS_SETTING_VER);
    assert_eq!(setting.setting_id, 0x809D5F60);
    assert_eq!(setting.setting_type, 0);
    assert_eq!(setting.current_value, 0x10000000);
}

#[test]
fn setting_type_codes() {
    assert_eq!(NvdrsSettingType::Dword.code(), 0);
    assert_eq!(NvdrsSettingType::Binary.code(), 1);
    assert_eq!(NvdrsSettingType::NarrowString.code(), 2);
    assert_eq!(NvdrsSettingType::WideString.code(), 3);
}
