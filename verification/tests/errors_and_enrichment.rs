//! Tests of error rendering and of the process/focus enrichment paths.

use nvidiot::error::{decimal_string_i32, NvApiError};
use nvidiot::focus::{get_focus_application, get_profile_name_for_app};
use nvidiot::memory::MemoryBackend;
use nvidiot::processes::{get_running_processes, is_system_process, is_system_process_folded};
use nvidiot::settings::blacklist_application;
use nvidiot::types::ProcessFacts;

#[test]
fn decimal_rendering_is_exact() {
    assert_eq!(decimal_string_i32(0), "0");
    assert_eq!(decimal_string_i32(7), "7");
    assert_eq!(decimal_string_i32(-1), "-1");
    assert_eq!(decimal_string_i32(-175), "-175");
    assert_eq!(decimal_string_i32(i32::MAX), "2147483647");
    assert_eq!(decimal_string_i32(i32::MIN), "-2147483648");
}

#[test]
fn error_messages_are_exact() {
    assert_eq!(
        NvApiError::LibraryNotFound.message(),
        "NVAPI library not found - ensure NVIDIA drivers are installed"
    );
    assert_eq!(
        NvApiError::InitializationFailed(-6).message(),
        "NVAPI initialization failed: -6"
    );
    assert_eq!(NvApiError::NoGpuFound.message(), "No NVIDIA GPU found");
    assert_eq!(
        NvApiError::SessionCreationFailed(-4).message(),
        "DRS session creation failed: -4"
    );
    assert_eq!(
        NvApiError::LoadSettingsFailed(-1).message(),
        "Failed to load settings: -1"
    );
    assert_eq!(
        NvApiError::SaveSettingsFailed(-1).message(),
        "Failed to save settings: -1"
    );
    assert_eq!(
        NvApiError::ProfileNotFound(String::from("P")).message(),
        "Profile not found: P"
    );
    assert_eq!(
        NvApiError::ApplicationNotFound(String::from("a.exe")).message(),
        "Application not found: a.exe"
    );
    assert_eq!(
        NvApiError::ProfileCreationFailed(-176).message(),
        "Failed to create profile: -176"
    );
    assert_eq!(
        NvApiError::ApplicationCreationFailed(-184).message(),
        "Failed to create application: -184"
    );
    assert_eq!(
        NvApiError::SetSettingFailed(-9).message(),
        "Failed to set setting: -9"
    );
    assert_eq!(
        NvApiError::GetSettingFailed(-179).message(),
        "Failed to get setting: -179"
    );
    assert_eq!(
        NvApiError::FunctionNotFound(String::from("NvAPI_Initialize")).message(),
        "Function not found in NVAPI: NvAPI_Initialize"
    );
    assert_eq!(
        NvApiError::NvApiStatus(-5).message(),
        "NVAPI error code: -5"
    );
    assert_eq!(
        NvApiError::NotSupported.message(),
        "Not supported on this platform"
    );
}

#[test]
fn system_process_check_is_case_insensitive() {
    assert!(is_system_process("explorer.exe"));
    assert!(is_system_process("EXPLORER.EXE"));
    assert!(is_system_process("DwM.eXe"));
    assert!(is_system_process("svchost.exe"));
    assert!(!is_system_process("game.exe"));
    assert!(!is_system_process(""));
    assert!(is_system_process_folded("lsass.exe"));
    assert!(!is_system_process_folded("LSASS.EXE"));
}

fn facts(pid: u32, name: &str, title: &str) -> ProcessFacts {
    ProcessFacts {
        process_id: pid,
        process_name: String::from(name),
        window_title: String::from(title),
        executable_path: None,
    }
}

#[test]
fn running_processes_are_enriched_with_membership() {
    let mut b = MemoryBackend::new();
    blacklist_application(&mut b, "game.exe").unwrap();

    let list = get_running_processes(
        &mut b,
        vec![facts(10, "game.exe", "Game"), facts(11, "editor.exe", "Editor")],
    );
    assert_eq!(list.len(), 2);

    assert_eq!(list[0].process_name, "game.exe");
    assert_eq!(list[0].window_title, "Game");
    assert_eq!(list[0].process_id, 10);
    assert!(list[0].has_drs_profile);
    assert_eq!(list[0].profile_name.as_deref(), Some("Nvidiot - game.exe"));
    assert_eq!(list[0].is_blacklisted, Some(true));

    assert_eq!(list[1].process_name, "editor.exe");
    assert!(!list[1].has_drs_profile);
    assert_eq!(list[1].profile_name, None);
    assert_eq!(list[1].is_blacklisted, None);
}

#[test]
fn focus_application_is_enriched_with_membership() {
    let mut b = MemoryBackend::new();
    blacklist_application(&mut b, "game.exe").unwrap();

    assert!(get_focus_application(&mut b, None).is_none());

    let focused = get_focus_application(&mut b, Some(facts(42, "game.exe", "Game"))).unwrap();
    assert_eq!(focused.process_name, "game.exe");
    assert_eq!(focused.window_title, "Game");
    assert_eq!(focused.process_id, 42);
    assert!(focused.is_in_drs);
    assert_eq!(focused.profile_name.as_deref(), Some("Nvidiot - game.exe"));
    assert_eq!(focused.is_blacklisted, Some(true));

    let unknown = get_focus_application(&mut b, Some(facts(43, "editor.exe", "Editor"))).unwrap();
    assert!(!unknown.is_in_drs);
    assert_eq!(unknown.profile_name, None);
    assert_eq!(unknown.is_blacklisted, None);
}

#[test]
fn profile_lookup_by_executable_ignores_case() {
    let mut b = MemoryBackend::new();
    blacklist_application(&mut b, "Game.exe").unwrap();
    let name = get_profile_name_for_app(&mut b, "GAME.EXE");
    assert_eq!(name.as_deref(), Some("Nvidiot - Game.exe"));
    assert_eq!(get_profile_name_for_app(&mut b, "other.exe"), None);
}
