use aira_platform::config::{AuthMode, Settings};

fn some(s: &str) -> Option<String> {
    Some(s.to_string())
}

#[test]
fn blank_values_count_as_unset() {
    let s = Settings::from_vars(some(" \u{3000}\n"), some(""), None);
    assert_eq!(s.database_url, None);
    assert_eq!(s.api_key, None);
    let s = Settings::from_vars(None, None, None);
    assert_eq!(s.database_url, None);
    assert_eq!(s.api_key, None);
}

#[test]
fn other_values_are_kept_as_they_are() {
    let s = Settings::from_vars(some(" postgres://x "), some(" key "), None);
    assert_eq!(s.database_url, some(" postgres://x "));
    assert_eq!(s.api_key, some(" key "));
}

#[test]
fn the_switch_for_development() {
    for on in ["1", "true", "TRUE", "tRuE"] {
        assert!(Settings::from_vars(None, None, some(on)).allow_insecure_dev);
    }
    for off in ["", "0", "yes", "11", " true", "truee"] {
        assert!(!Settings::from_vars(None, None, some(off)).allow_insecure_dev);
    }
    assert!(!Settings::from_vars(None, None, None).allow_insecure_dev);
}

#[test]
fn how_the_api_is_guarded() {
    assert_eq!(Settings::from_vars(None, some("k"), None).auth_mode(), AuthMode::ApiKey);
    assert_eq!(Settings::from_vars(None, some("k"), some("1")).auth_mode(), AuthMode::ApiKey);
    assert_eq!(Settings::from_vars(None, None, some("1")).auth_mode(), AuthMode::Disabled);
    assert_eq!(Settings::from_vars(None, None, None).auth_mode(), AuthMode::Missing);
}
