//! Tests of profile and application enumeration.

use nvidiot::applications::{
    create_application, create_profile_for_executable, enumerate_applications,
    find_application, get_all_applications,
};
use nvidiot::error::NvApiError;
use nvidiot::memory::MemoryBackend;
use nvidiot::profiles::{
    create_profile, enumerate_profiles, find_profile_by_name, get_profile_count,
};
use nvidiot::session::{check_nvapi_status, get_session, reload_settings, save_settings};

#[test]
fn enumeration_reflects_backend_with_unique_names() {
    let mut b = MemoryBackend::new();
    get_session(&mut b).unwrap();
    create_profile(&mut b, "Alpha").unwrap();
    let handle = create_profile(&mut b, "Beta").unwrap();
    create_application(&mut b, handle, "beta.exe", "Beta").unwrap();

    let profiles = enumerate_profiles(&mut b).unwrap();
    assert_eq!(profiles.len(), 2);
    assert_eq!(profiles[0].name, "Alpha");
    assert_eq!(profiles[1].name, "Beta");
    assert_ne!(profiles[0].name, profiles[1].name);
    assert_eq!(profiles[0].application_count, 0);
    assert_eq!(profiles[1].application_count, 1);
    assert!(!profiles[0].is_predefined);

    assert_eq!(get_profile_count(&mut b).unwrap(), 2);
}

#[test]
fn enumeration_of_empty_registry() {
    let mut b = MemoryBackend::new();
    let profiles = enumerate_profiles(&mut b).unwrap();
    assert_eq!(profiles.len(), 0);
    assert_eq!(get_profile_count(&mut b).unwrap(), 0);
}

#[test]
fn applications_enumeration_returns_reported_count() {
    let mut b = MemoryBackend::new();
    get_session(&mut b).unwrap();
    let handle = create_profile(&mut b, "P").unwrap();
    create_application(&mut b, handle, "one.exe", "One").unwrap();
    create_application(&mut b, handle, "two.exe", "Two").unwrap();

    let profiles = enumerate_profiles(&mut b).unwrap();
    assert_eq!(profiles[0].application_count, 2);

    let handle = find_profile_by_name(&mut b, "P").unwrap();
    let apps = enumerate_applications(&b, handle, "P").unwrap();
    assert_eq!(apps.len(), 2);
    assert_eq!(apps[0].executable, "one.exe");
    assert_eq!(apps[0].name, "One");
    assert_eq!(apps[0].profile_name, "P");
    assert!(!apps[0].is_blacklisted);
    assert_eq!(apps[1].executable, "two.exe");
}

#[test]
fn applications_enumeration_pages_past_one_batch() {
    let mut b = MemoryBackend::new();
    get_session(&mut b).unwrap();
    let handle = create_profile(&mut b, "Big").unwrap();
    let mut i = 0;
    while i < 40 {
        let exe = format!("app{}.exe", i);
        create_application(&mut b, handle, exe.as_str(), "Big").unwrap();
        i += 1;
    }
    let apps = enumerate_applications(&b, handle, "Big").unwrap();
    assert_eq!(apps.len(), 40);
    assert_eq!(apps[0].executable, "app0.exe");
    assert_eq!(apps[39].executable, "app39.exe");
}

#[test]
fn all_applications_concatenates_profiles() {
    let mut b = MemoryBackend::new();
    get_session(&mut b).unwrap();
    let first = create_profile(&mut b, "First").unwrap();
    create_application(&mut b, first, "a.exe", "A").unwrap();
    create_profile(&mut b, "Empty").unwrap();
    let third = create_profile(&mut b, "Third").unwrap();
    create_application(&mut b, third, "b.exe", "B").unwrap();

    let (apps, skipped) = get_all_applications(&mut b).unwrap();
    assert_eq!(apps.len(), 2);
    assert_eq!(skipped.len(), 0);
    assert_eq!(apps[0].executable, "a.exe");
    assert_eq!(apps[0].profile_name, "First");
    assert_eq!(apps[1].executable, "b.exe");
    assert_eq!(apps[1].profile_name, "Third");
}

#[test]
fn find_profile_reports_not_found_sentinel() {
    let mut b = MemoryBackend::new();
    match find_profile_by_name(&mut b, "missing") {
        Err(NvApiError::ProfileNotFound(name)) => assert_eq!(name, "missing"),
        other => panic!("unexpected outcome: {:?}", other),
    }
}

#[test]
fn find_application_reports_not_found_sentinel() {
    let mut b = MemoryBackend::new();
    match find_application(&mut b, "missing.exe") {
        Err(NvApiError::ApplicationNotFound(name)) => assert_eq!(name, "missing.exe"),
        other => panic!("unexpected outcome: {:?}", other),
    }
}

#[test]
fn duplicate_profile_creation_is_rejected() {
    let mut b = MemoryBackend::new();
    get_session(&mut b).unwrap();
    create_profile(&mut b, "P").unwrap();
    match create_profile(&mut b, "P") {
        Err(NvApiError::ProfileCreationFailed(code)) => assert_ne!(code, 0),
        other => panic!("unexpected outcome: {:?}", other),
    }
}

#[test]
fn duplicate_application_creation_is_rejected() {
    let mut b = MemoryBackend::new();
    get_session(&mut b).unwrap();
    let handle = create_profile(&mut b, "P").unwrap();
    create_application(&mut b, handle, "a.exe", "A").unwrap();
    match create_application(&mut b, handle, "a.exe", "A") {
        Err(NvApiError::ApplicationCreationFailed(code)) => assert_ne!(code, 0),
        other => panic!("unexpected outcome: {:?}", other),
    }
}

#[test]
fn profile_for_executable_is_persisted() {
    let mut b = MemoryBackend::new();
    create_profile_for_executable(&mut b, "game.exe", "Custom").unwrap();

    // unsaved state would be lost here; the combined operation saves
    reload_settings(&mut b).unwrap();
    let profiles = enumerate_profiles(&mut b).unwrap();
    assert_eq!(profiles.len(), 1);
    assert_eq!(profiles[0].name, "Custom");
    assert_eq!(profiles[0].application_count, 1);
    let (_, record) = find_application(&mut b, "game.exe").unwrap();
    assert_eq!(record.name, "Custom");
}

#[test]
fn unsaved_profile_is_discarded_by_reload() {
    let mut b = MemoryBackend::new();
    get_session(&mut b).unwrap();
    create_profile(&mut b, "Ephemeral").unwrap();
    reload_settings(&mut b).unwrap();
    assert_eq!(enumerate_profiles(&mut b).unwrap().len(), 0);

    create_profile(&mut b, "Kept").unwrap();
    save_settings(&mut b).unwrap();
    reload_settings(&mut b).unwrap();
    let profiles = enumerate_profiles(&mut b).unwrap();
    assert_eq!(profiles.len(), 1);
    assert_eq!(profiles[0].name, "Kept");
}

#[test]
fn availability_report_on_memory_backend() {
    let mut b = MemoryBackend::new();
    let status = check_nvapi_status(&mut b);
    assert!(status.available);
    assert!(status.error.is_none());
}
