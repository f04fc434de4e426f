use std::sync::atomic::{AtomicBool, Ordering};
use std::sync::Arc;
use std::time::Duration;
use tea::domain::ScreenMode;
use tea::menu::{autostart_menu_text, mode_menu_text, sleep_menu_text};
use tea::persistence::AppState;

fn get_tooltip(is_disabled: bool) -> &'static str {
    if is_disabled {
        "Awake - Sleep prevention enabled"
    } else {
        "Awake - Sleep prevention disabled"
    }
}

#[test]
fn test_default_state() {
    let state = AppState::default();
    assert_eq!(
        state.sleep_disabled, false,
        "Default state should have sleep_disabled as false"
    );
}

#[test]
fn test_atomic_bool_operations() {
    let flag = Arc::new(AtomicBool::new(false));
    assert_eq!(flag.load(Ordering::SeqCst), false);

    flag.store(true, Ordering::SeqCst);
    assert_eq!(flag.load(Ordering::SeqCst), true);

    flag.store(false, Ordering::SeqCst);
    assert_eq!(flag.load(Ordering::SeqCst), false);
}

#[test]
fn test_atomic_bool_clone() {
    let flag = Arc::new(AtomicBool::new(true));
    let flag_clone = flag.clone();

    assert_eq!(flag.load(Ordering::SeqCst), true);
    assert_eq!(flag_clone.load(Ordering::SeqCst), true);

    flag.store(false, Ordering::SeqCst);
    assert_eq!(flag_clone.load(Ordering::SeqCst), false, "Clone should reflect changes");
}

#[test]
fn test_duration_creation() {
    let duration = Duration::from_secs(tea::wake_service::WAKE_INTERVAL_SECS);
    assert_eq!(duration.as_secs(), 60);
    assert_eq!(duration.as_millis(), 60000);
}

#[test]
fn test_menu_text_enable_sleep() {
    let text = sleep_menu_text(true);
    assert_eq!(text, "Enable Sleep");
    assert!(text.len() > 0);
    assert!(text.contains("Sleep"));
}

#[test]
fn test_menu_text_disable_sleep() {
    let text = sleep_menu_text(false);
    assert_eq!(text, "Disable Sleep");
    assert!(text.len() > 0);
    assert!(text.contains("Sleep"));
}

#[test]
fn test_menu_text_toggle_logic() {
    let get_menu_text = |is_disabled: bool| sleep_menu_text(is_disabled);

    assert_eq!(get_menu_text(true), "Enable Sleep");
    assert_eq!(get_menu_text(false), "Disable Sleep");
}

#[test]
fn test_autostart_menu_text() {
    let get_autostart_text = |is_enabled: bool| autostart_menu_text(is_enabled);

    assert_eq!(get_autostart_text(true), "✓ Start at Login");
    assert_eq!(get_autostart_text(false), "Start at Login");
}

#[test]
fn test_tooltip_text() {
    assert!(get_tooltip(true).contains("enabled"));
    assert!(get_tooltip(false).contains("disabled"));
}

#[test]
fn unit_tests_test_concurrent_state_access() {
    let state = Arc::new(AtomicBool::new(false));
    let state_clone1 = state.clone();
    let state_clone2 = state.clone();

    state_clone1.store(true, Ordering::SeqCst);
    let value1 = state_clone2.load(Ordering::SeqCst);

    assert_eq!(value1, true, "Concurrent access should work correctly");
}

#[test]
fn mode_items_carry_a_check_mark_for_the_current_mode() {
    let on = ScreenMode::KeepScreenOn;
    let off = ScreenMode::AllowScreenOff;
    assert_eq!(mode_menu_text(on, on), "\u{2713} Keep Screen On");
    assert_eq!(mode_menu_text(on, off), "Keep Screen On");
    assert_eq!(mode_menu_text(off, off), "\u{2713} Allow Screen Off");
    assert_eq!(mode_menu_text(off, on), "Allow Screen Off");
}

#[test]
fn unit_tests_test_state_serialization() {
    let state = AppState { sleep_disabled: true, screen_mode: ScreenMode::AllowScreenOff };
    let json = tea::persistence::encode_state(&state).unwrap();
    assert!(json.contains("sleep_disabled"), "JSON should contain sleep_disabled field");
    assert!(json.contains("true"), "JSON should contain the value true");
}

#[test]
fn test_invalid_json_handling() {
    let invalid_json = "{invalid json}";
    let result = tea::persistence::decode_state(invalid_json);
    assert_eq!(
        result,
        tea::persistence::StoredState::Corrupted,
        "Should fail to parse invalid JSON"
    );
}
