use cntrl_browser::db::{active_flag, flag_is_active, history_page};
use cntrl_browser::error::CntrlError;
use cntrl_browser::privacy::{mode_from_preference, preference_value, tier_allowed, PrivacyGuard};
use cntrl_browser::slots::Slots;
use cntrl_browser::text::{replace_str, same_text, strip_trailing_char, trim_string};

#[test]
fn smoke_test() {
    assert_eq!(2 + 2, 4);
}

#[test]
fn privacy_guard_blocks_remote_tiers_only_when_enabled() {
    let mut guard = PrivacyGuard::new(false);
    assert!(!guard.is_enabled());
    assert!(guard.check_tier("Freemium").is_ok());

    guard.enable();
    assert!(guard.is_enabled());
    assert!(guard.check_tier("Freemium").is_err());
    assert!(guard.check_tier("Premium").is_err());
    assert!(guard.check_tier("Local").is_ok());

    guard.disable();
    assert!(!guard.is_enabled());
    assert!(guard.check_tier("Freemium").is_ok());
    assert!(guard.check_tier("Premium").is_ok());

    guard.set(true);
    assert!(guard.check_tier("Premium").is_err());
}

#[test]
fn privacy_mode_from_stored_preference() {
    assert!(!PrivacyGuard::from_preference(None).is_enabled());
    assert!(!PrivacyGuard::from_preference(Some("false")).is_enabled());
    assert!(PrivacyGuard::from_preference(Some("true")).is_enabled());
    assert!(!PrivacyGuard::from_preference(Some("TRUE")).is_enabled());
    assert!(PrivacyGuard::from_preference(Some(preference_value(true))).is_enabled());
    assert!(!PrivacyGuard::from_preference(Some(preference_value(false))).is_enabled());
}

#[test]
fn privacy_refusal_names_the_tier() {
    match tier_allowed(true, "Premium") {
        Err(CntrlError::Ai(m)) => {
            assert_eq!(m, "Privacy mode is active — remote AI calls (tier: Premium) are blocked")
        },
        other => panic!("unexpected {other:?}"),
    }
    assert!(tier_allowed(true, "Local").is_ok());
    assert!(tier_allowed(false, "Premium").is_ok());
}

#[test]
fn privacy_preference_roundtrip() {
    for enabled in [true, false] {
        assert_eq!(mode_from_preference(Some(preference_value(enabled))), enabled);
        assert_eq!(PrivacyGuard::from_preference(Some(preference_value(enabled))).is_enabled(), enabled);
    }
    assert!(!mode_from_preference(None));
    assert!(!mode_from_preference(Some("TRUE")));
}

#[test]
fn session_flags_and_history_pages() {
    assert_eq!(active_flag(true), 1);
    assert_eq!(active_flag(false), 0);
    assert!(flag_is_active(active_flag(true)));
    assert!(!flag_is_active(active_flag(false)));
    assert!(flag_is_active(-3));
    assert_eq!(history_page(None, None), (100, 0));
    assert_eq!(history_page(Some(1), Some(5)), (1, 5));
}

#[test]
fn slots_insert_get_and_shadow() {
    let mut slots = Slots::new();
    assert!(!slots.contains_key("url"));
    slots.insert("url".to_string(), "a".to_string());
    slots.insert("query".to_string(), "q".to_string());
    slots.insert("url".to_string(), "b".to_string());
    assert_eq!(slots.get("url").map(String::as_str), Some("b"));
    assert_eq!(slots.get("query").map(String::as_str), Some("q"));
    assert_eq!(slots.get("target"), None);
}

#[test]
fn text_helpers() {
    assert_eq!(trim_string("\u{3000} a b \t"), "a b");
    assert_eq!(trim_string("   "), "");
    assert!(same_text("abc", "abc"));
    assert!(!same_text("abc", "abd"));
    assert_eq!(strip_trailing_char("x///", '/'), "x");
    assert_eq!(replace_str("a/x/b/x", "/x", "/y"), "a/y/b/y");
}

// The database-backed privacy scenarios, with the stored preference text in
// place of the `preferences` table (the seeded default is "false").

#[test]
fn default_privacy_mode_is_false() {
    let guard = PrivacyGuard::from_preference(Some("false"));
    assert!(!guard.is_enabled(), "privacy mode must be off by default");
}

#[test]
fn enable_persists_and_blocks_remote_tiers() {
    let mut guard = PrivacyGuard::from_preference(Some("false"));
    guard.enable();
    let stored = preference_value(guard.is_enabled());
    assert_eq!(stored, "true");
    assert!(guard.is_enabled());
    assert!(guard.check_tier("Freemium").is_err());
    assert!(guard.check_tier("Premium").is_err());
    assert!(guard.check_tier("Local").is_ok());
}

#[test]
fn disable_unblocks_remote_tiers() {
    let mut guard = PrivacyGuard::from_preference(Some("false"));
    guard.enable();
    guard.disable();
    assert!(!guard.is_enabled());
    assert!(guard.check_tier("Freemium").is_ok());
}

#[test]
fn privacy_mode_persisted_across_reload() {
    let mut guard = PrivacyGuard::from_preference(Some("false"));
    guard.enable();
    let stored = preference_value(true);
    let reloaded = PrivacyGuard::from_preference(Some(stored));
    assert!(reloaded.is_enabled(), "enabled state must survive a reload");
}
