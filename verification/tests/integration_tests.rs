use std::sync::atomic::{AtomicBool, Ordering};
use std::sync::Arc;
use tea::icon::select_icon;
use tea::menu::{
    autostart_menu_text, menu_event, sleep_menu_text, MenuEvent, QUIT_ID, TOGGLE_AUTOSTART_ID,
    TOGGLE_SLEEP_ID,
};

fn get_tooltip(is_disabled: bool) -> &'static str {
    if is_disabled {
        "Awake - Sleep prevention enabled"
    } else {
        "Awake - Sleep prevention disabled"
    }
}

fn get_icon_type(is_sleep_disabled: bool) -> &'static str {
    let chosen = select_icon(is_sleep_disabled, b"ICON_ALLOW", b"ICON_BLOCK");
    if chosen == b"ICON_BLOCK" {
        "ICON_BLOCK"
    } else {
        "ICON_ALLOW"
    }
}

#[test]
fn test_application_state_initialization() {
    let sleep_disabled = Arc::new(AtomicBool::new(false));
    assert_eq!(
        sleep_disabled.load(Ordering::SeqCst),
        false,
        "Application should start with sleep disabled by default"
    );
}

#[test]
fn test_state_toggle_mechanism() {
    let sleep_disabled = Arc::new(AtomicBool::new(false));

    sleep_disabled.store(true, Ordering::SeqCst);
    assert_eq!(sleep_disabled.load(Ordering::SeqCst), true, "State should toggle to true");

    sleep_disabled.store(false, Ordering::SeqCst);
    assert_eq!(sleep_disabled.load(Ordering::SeqCst), false, "State should toggle to false");
}

#[test]
fn test_multiple_state_references() {
    let sleep_disabled = Arc::new(AtomicBool::new(false));
    let reference1 = sleep_disabled.clone();
    let reference2 = sleep_disabled.clone();
    let reference3 = sleep_disabled.clone();

    reference1.store(true, Ordering::SeqCst);

    assert_eq!(reference2.load(Ordering::SeqCst), true);
    assert_eq!(reference3.load(Ordering::SeqCst), true);
    assert_eq!(sleep_disabled.load(Ordering::SeqCst), true);
}

#[test]
fn test_menu_id_constants() {
    let toggle_sleep_id = TOGGLE_SLEEP_ID;
    let toggle_autostart_id = TOGGLE_AUTOSTART_ID;
    let quit_id = QUIT_ID;

    assert_eq!(toggle_sleep_id, "toggle_sleep");
    assert_eq!(toggle_autostart_id, "toggle_autostart");
    assert_eq!(quit_id, "quit");

    assert_ne!(toggle_sleep_id, toggle_autostart_id);
    assert_ne!(toggle_sleep_id, quit_id);
    assert_ne!(toggle_autostart_id, quit_id);
}

#[test]
fn test_menu_text_generation() {
    assert_eq!(sleep_menu_text(false), "Disable Sleep");
    assert_eq!(sleep_menu_text(true), "Enable Sleep");
}

#[test]
fn test_autostart_menu_text_generation() {
    let disabled_text = autostart_menu_text(false);
    let enabled_text = autostart_menu_text(true);

    assert_eq!(disabled_text, "Start at Login");
    assert_eq!(enabled_text, "✓ Start at Login");
    assert!(enabled_text.contains("✓"));
    assert!(!disabled_text.contains("✓"));
}

#[test]
fn test_tooltip_generation() {
    let enabled_tooltip = get_tooltip(true);
    let disabled_tooltip = get_tooltip(false);

    assert!(enabled_tooltip.contains("enabled"));
    assert!(disabled_tooltip.contains("disabled"));
    assert!(enabled_tooltip.starts_with("Awake"));
    assert!(disabled_tooltip.starts_with("Awake"));
}

#[test]
fn test_state_transitions() {
    let sleep_disabled = Arc::new(AtomicBool::new(false));

    sleep_disabled.store(true, Ordering::SeqCst);
    assert_eq!(sleep_disabled.load(Ordering::SeqCst), true);

    sleep_disabled.store(false, Ordering::SeqCst);
    assert_eq!(sleep_disabled.load(Ordering::SeqCst), false);

    for i in 0..10 {
        sleep_disabled.store(i % 2 == 0, Ordering::SeqCst);
    }
    assert_eq!(sleep_disabled.load(Ordering::SeqCst), false);
}

#[test]
fn test_toggle_sleep_menu_action() {
    let sleep_disabled = Arc::new(AtomicBool::new(false));

    let is_currently_disabled = sleep_disabled.load(Ordering::SeqCst);
    let new_state = !is_currently_disabled;
    sleep_disabled.store(new_state, Ordering::SeqCst);

    assert_eq!(sleep_disabled.load(Ordering::SeqCst), true);
}

#[test]
fn test_quit_menu_action() {
    let sleep_disabled = Arc::new(AtomicBool::new(true));

    sleep_disabled.store(false, Ordering::SeqCst);

    assert_eq!(sleep_disabled.load(Ordering::SeqCst), false, "Should stop keep-awake on quit");
}

#[test]
fn test_menu_text_updates_on_toggle() {
    let mut is_disabled = false;

    let initial_text = sleep_menu_text(is_disabled);
    assert_eq!(initial_text, "Disable Sleep");

    is_disabled = true;

    let updated_text = sleep_menu_text(is_disabled);
    assert_eq!(updated_text, "Enable Sleep");
}

#[test]
fn test_autostart_toggle() {
    let is_autostart_enabled = false;

    let text = autostart_menu_text(is_autostart_enabled);
    assert_eq!(text, "Start at Login");

    let is_autostart_enabled = true;
    let text = autostart_menu_text(is_autostart_enabled);
    assert_eq!(text, "✓ Start at Login");
}

#[test]
fn test_icon_selection_logic() {
    assert_eq!(get_icon_type(false), "ICON_ALLOW");
    assert_eq!(get_icon_type(true), "ICON_BLOCK");
}

#[test]
fn test_icon_dimensions_requirement() {
    let expected_width = 32;
    let expected_height = 32;
    let expected_bytes = expected_width * expected_height * 4;

    assert_eq!(expected_bytes, 4096);
}

#[test]
fn test_icon_state_changes() {
    let current_icon = get_icon_type(false);
    assert_eq!(current_icon, "ICON_ALLOW");

    let current_icon = get_icon_type(true);
    assert_eq!(current_icon, "ICON_BLOCK");

    let current_icon = get_icon_type(false);
    assert_eq!(current_icon, "ICON_ALLOW");
}

#[test]
fn menu_identifiers_map_to_their_events() {
    assert_eq!(menu_event("toggle_sleep"), Some(MenuEvent::ToggleSleep));
    assert_eq!(
        menu_event("screen_on"),
        Some(MenuEvent::SetMode(tea::domain::ScreenMode::KeepScreenOn))
    );
    assert_eq!(
        menu_event("screen_off"),
        Some(MenuEvent::SetMode(tea::domain::ScreenMode::AllowScreenOff))
    );
    assert_eq!(menu_event("toggle_autostart"), Some(MenuEvent::ToggleAutostart));
    assert_eq!(menu_event("quit"), Some(MenuEvent::Quit));
}

#[test]
fn unknown_menu_identifiers_map_to_no_event() {
    assert_eq!(menu_event(""), None);
    assert_eq!(menu_event("quit "), None);
    assert_eq!(menu_event("Quit"), None);
    assert_eq!(menu_event("toggle_sleeq"), None);
    assert_eq!(menu_event("screen_"), None);
}
