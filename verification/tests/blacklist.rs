//! Behavioral tests of the blacklist workflow against the in-memory backend.

use nvidiot::applications::{create_application, find_application};
use nvidiot::memory::MemoryBackend;
use nvidiot::profiles::{create_profile, enumerate_profiles};
use nvidiot::session::{get_session, reload_settings};
use nvidiot::settings::{
    blacklist_application, get_shadowplay_status, set_dword_setting, unblacklist_application,
};
use nvidiot::wire::{SHADOWPLAY_ENABLED, SHADOWPLAY_SETTING_ID};

/// A backend whose persisted store holds one profile with one application.
fn seeded_backend(profile: &str, exe: &str) -> MemoryBackend {
    let mut b = MemoryBackend::new();
    get_session(&mut b).unwrap();
    let handle = create_profile(&mut b, profile).unwrap();
    create_application(&mut b, handle, exe, profile).unwrap();
    nvidiot::session::save_settings(&mut b).unwrap();
    b
}

#[test]
fn blacklist_unknown_creates_profile() {
    let mut b = MemoryBackend::new();
    let result = blacklist_application(&mut b, "game.exe").unwrap();
    assert!(result.success);
    assert_eq!(result.executable, "game.exe");
    assert!(result.message.contains("Created profile"));
    assert_eq!(
        result.message,
        "Created profile 'Nvidiot - game.exe' and blacklisted application"
    );

    let profiles = enumerate_profiles(&mut b).unwrap();
    assert_eq!(profiles.len(), 1);
    assert_eq!(profiles[0].name, "Nvidiot - game.exe");
    assert_eq!(profiles[0].application_count, 1);

    let (handle, record) = find_application(&mut b, "game.exe").unwrap();
    assert_eq!(record.executable, "game.exe");
    assert_eq!(get_shadowplay_status(&b, handle).unwrap(), true);
}

#[test]
fn blacklist_existing_flips_toggle_without_new_profile() {
    let mut b = seeded_backend("P", "game.exe");
    let before = enumerate_profiles(&mut b).unwrap();
    assert_eq!(before.len(), 1);

    let result = blacklist_application(&mut b, "game.exe").unwrap();
    assert!(result.success);
    assert_eq!(result.message, "Application blacklisted successfully");

    let after = enumerate_profiles(&mut b).unwrap();
    assert_eq!(after.len(), 1);
    assert_eq!(after[0].name, "P");

    let (handle, _) = find_application(&mut b, "game.exe").unwrap();
    assert_eq!(get_shadowplay_status(&b, handle).unwrap(), true);
}

#[test]
fn unblacklist_unknown_is_failed_noop() {
    let mut b = seeded_backend("P", "other.exe");
    let before = enumerate_profiles(&mut b).unwrap();

    let result = unblacklist_application(&mut b, "unknown.exe").unwrap();
    assert!(!result.success);
    assert_eq!(result.executable, "unknown.exe");
    assert_eq!(result.message, "Application not found in driver settings");

    let after = enumerate_profiles(&mut b).unwrap();
    assert_eq!(before.len(), after.len());
    for (x, y) in before.iter().zip(after.iter()) {
        assert_eq!(x.name, y.name);
        assert_eq!(x.application_count, y.application_count);
        assert_eq!(x.is_predefined, y.is_predefined);
    }
    let (handle, _) = find_application(&mut b, "other.exe").unwrap();
    assert_eq!(get_shadowplay_status(&b, handle).unwrap(), false);
}

#[test]
fn unblacklist_existing_enables() {
    let mut b = seeded_backend("P", "game.exe");
    blacklist_application(&mut b, "game.exe").unwrap();
    let result = unblacklist_application(&mut b, "game.exe").unwrap();
    assert!(result.success);
    assert_eq!(result.message, "Application unblacklisted successfully");
    let (handle, _) = find_application(&mut b, "game.exe").unwrap();
    assert_eq!(get_shadowplay_status(&b, handle).unwrap(), false);
}

#[test]
fn feature_status_defaults_to_enabled() {
    let mut b = seeded_backend("P", "game.exe");
    let (handle, _) = find_application(&mut b, "game.exe").unwrap();
    assert_eq!(get_shadowplay_status(&b, handle).unwrap(), false);
}

#[test]
fn reload_discards_unsaved_write() {
    let mut b = seeded_backend("P", "game.exe");
    blacklist_application(&mut b, "game.exe").unwrap();

    // an uncommitted write flips the toggle in session memory only
    let (handle, _) = find_application(&mut b, "game.exe").unwrap();
    set_dword_setting(&mut b, handle, SHADOWPLAY_SETTING_ID, SHADOWPLAY_ENABLED).unwrap();
    assert_eq!(get_shadowplay_status(&b, handle).unwrap(), false);

    // re-reading the backing store discards it: the read reflects the last
    // persisted value
    reload_settings(&mut b).unwrap();
    let (handle, _) = find_application(&mut b, "game.exe").unwrap();
    assert_eq!(get_shadowplay_status(&b, handle).unwrap(), true);
}

#[test]
fn blacklist_twice_is_idempotent() {
    let mut b = MemoryBackend::new();
    let first = blacklist_application(&mut b, "game.exe").unwrap();
    assert!(first.success);
    let count_after_first = enumerate_profiles(&mut b).unwrap().len();

    let second = blacklist_application(&mut b, "game.exe").unwrap();
    assert!(second.success);
    assert_eq!(second.message, "Application blacklisted successfully");

    let profiles = enumerate_profiles(&mut b).unwrap();
    assert_eq!(profiles.len(), count_after_first);
    let (handle, _) = find_application(&mut b, "game.exe").unwrap();
    assert_eq!(get_shadowplay_status(&b, handle).unwrap(), true);
}

#[test]
fn blacklist_into_existing_derived_profile() {
    let mut b = MemoryBackend::new();
    get_session(&mut b).unwrap();
    create_profile(&mut b, "Nvidiot - game.exe").unwrap();
    nvidiot::session::save_settings(&mut b).unwrap();

    let result = blacklist_application(&mut b, "game.exe").unwrap();
    assert!(result.success);
    let profiles = enumerate_profiles(&mut b).unwrap();
    assert_eq!(profiles.len(), 1);
    assert_eq!(profiles[0].application_count, 1);
}
