use std::sync::atomic::{AtomicBool, Ordering};
use std::sync::Arc;
use tea::commands::{
    change_screen_mode_impl, finish_change_screen_mode, finish_toggle_sleep, get_state,
    initial_state, quit, start_up, start_wake_service, toggle_sleep_impl, AppStateManager,
    ControlAction, ModeCell, SETTLE_DELAY_MILLIS,
};
use tea::domain::ScreenMode;
use tea::error::AppError;
use tea::persistence::AppState;
use tea::platform::{DisplayController, PlatformCapabilities};
use tea::wake_service::{ServicePhase, ServiceState};

fn manager(is_awake: bool, mode: ScreenMode) -> AppStateManager {
    AppStateManager { is_awake, screen_mode: ModeCell { mode, poisoned: false } }
}

fn strong() -> PlatformCapabilities {
    PlatformCapabilities::strong()
}

fn weak() -> PlatformCapabilities {
    PlatformCapabilities::weak()
}

fn write_failed() -> Result<(), AppError> {
    Err(AppError::StateIo {
        message: "Failed to write state to state.json".to_string(),
        cause: "disk full".to_string(),
        recovery_hint: "Ensure you have write permissions and sufficient disk space.",
    })
}

#[test]
fn test_app_state_manager_creation() {
    let manager = AppStateManager {
        is_awake: false,
        screen_mode: ModeCell { mode: ScreenMode::default(), poisoned: false },
    };

    assert!(!manager.is_awake);
    assert_eq!(manager.screen_mode.mode, ScreenMode::AllowScreenOff);
    assert_eq!(get_state(&manager).unwrap(), (false, ScreenMode::AllowScreenOff));
}

#[test]
fn toggle_twice_returns_to_the_first_pair() {
    for awake in [false, true] {
        for mode in [ScreenMode::KeepScreenOn, ScreenMode::AllowScreenOff] {
            let mut state = manager(awake, mode);
            let first = toggle_sleep_impl(&mut state).unwrap();
            assert_eq!(first, AppState { sleep_disabled: !awake, screen_mode: mode });
            let second = toggle_sleep_impl(&mut state).unwrap();
            assert_eq!(second, AppState { sleep_disabled: awake, screen_mode: mode });
            assert_eq!(state, manager(awake, mode));
        }
    }
}

#[test]
fn toggle_then_change_mode_then_toggle() {
    let mut state = manager(false, ScreenMode::AllowScreenOff);

    let snapshot = toggle_sleep_impl(&mut state).unwrap();
    assert_eq!(snapshot, AppState { sleep_disabled: true, screen_mode: ScreenMode::AllowScreenOff });
    let actions = finish_toggle_sleep(snapshot, Ok(()), strong()).unwrap();
    assert_eq!(actions, vec![ControlAction::StartService(ScreenMode::AllowScreenOff)]);

    let snapshot = change_screen_mode_impl(&mut state, ScreenMode::KeepScreenOn, strong()).unwrap();
    assert_eq!(snapshot, AppState { sleep_disabled: true, screen_mode: ScreenMode::KeepScreenOn });
    let actions = finish_change_screen_mode(snapshot, Ok(()), strong()).unwrap();
    assert_eq!(
        actions,
        vec![
            ControlAction::StoreFlag(false),
            ControlAction::Settle { millis: 100 },
            ControlAction::StoreFlag(true),
            ControlAction::StartService(ScreenMode::KeepScreenOn),
        ]
    );
    assert_eq!(get_state(&state).unwrap(), (true, ScreenMode::KeepScreenOn));

    let snapshot = toggle_sleep_impl(&mut state).unwrap();
    assert_eq!(snapshot, AppState { sleep_disabled: false, screen_mode: ScreenMode::KeepScreenOn });
    let actions = finish_toggle_sleep(snapshot, Ok(()), strong()).unwrap();
    assert!(actions.is_empty());
    assert_eq!(get_state(&state).unwrap(), (false, ScreenMode::KeepScreenOn));
}

#[test]
fn settle_delay_is_a_tenth_of_a_second() {
    assert_eq!(SETTLE_DELAY_MILLIS, 100);
}

#[test]
fn change_of_mode_while_asleep_restarts_nothing() {
    let mut state = manager(false, ScreenMode::AllowScreenOff);
    let snapshot = change_screen_mode_impl(&mut state, ScreenMode::KeepScreenOn, strong()).unwrap();
    assert_eq!(snapshot, AppState { sleep_disabled: false, screen_mode: ScreenMode::KeepScreenOn });
    assert_eq!(state, manager(false, ScreenMode::KeepScreenOn));
    assert!(finish_change_screen_mode(snapshot, Ok(()), strong()).unwrap().is_empty());
}

#[test]
fn change_to_the_current_mode_still_restarts_while_awake() {
    let mut state = manager(true, ScreenMode::KeepScreenOn);
    let snapshot = change_screen_mode_impl(&mut state, ScreenMode::KeepScreenOn, strong()).unwrap();
    let actions = finish_change_screen_mode(snapshot, Ok(()), strong()).unwrap();
    assert_eq!(actions.len(), 4);
    assert_eq!(actions[3], ControlAction::StartService(ScreenMode::KeepScreenOn));
}

#[test]
fn toggle_with_poisoned_lock_reports_and_keeps_the_flag_flipped() {
    let mut state = AppStateManager {
        is_awake: false,
        screen_mode: ModeCell { mode: ScreenMode::KeepScreenOn, poisoned: true },
    };
    let result = toggle_sleep_impl(&mut state);
    assert_eq!(
        result.unwrap_err(),
        "Mutex poisoned during toggle_sleep: poisoned lock: another task failed inside"
    );
    assert!(state.is_awake);
    assert_eq!(state.screen_mode, ModeCell { mode: ScreenMode::KeepScreenOn, poisoned: true });
}

#[test]
fn change_of_mode_with_poisoned_lock_changes_nothing() {
    let mut state = AppStateManager {
        is_awake: true,
        screen_mode: ModeCell { mode: ScreenMode::KeepScreenOn, poisoned: true },
    };
    let before = state;
    let result = change_screen_mode_impl(&mut state, ScreenMode::AllowScreenOff, strong());
    assert_eq!(
        result.unwrap_err(),
        "Mutex poisoned during change_screen_mode: poisoned lock: another task failed inside"
    );
    assert_eq!(state, before);
}

#[test]
fn get_state_with_poisoned_lock_reports() {
    let state = AppStateManager {
        is_awake: true,
        screen_mode: ModeCell { mode: ScreenMode::KeepScreenOn, poisoned: true },
    };
    assert_eq!(
        get_state(&state).unwrap_err(),
        "Mutex poisoned during get_state: poisoned lock: another task failed inside"
    );
}

#[test]
fn failed_persist_is_reported_and_starts_nothing() {
    let snapshot = AppState { sleep_disabled: true, screen_mode: ScreenMode::KeepScreenOn };
    let expected = "Failed to persist state: State I/O error: Failed to write state to state.json (cause: disk full, hint: Ensure you have write permissions and sufficient disk space.)";
    assert_eq!(finish_toggle_sleep(snapshot, write_failed(), strong()).unwrap_err(), expected);
    assert_eq!(finish_change_screen_mode(snapshot, write_failed(), strong()).unwrap_err(), expected);
}

#[test]
fn failed_persist_leaves_the_memory_state_changed() {
    let mut state = manager(false, ScreenMode::AllowScreenOff);
    let snapshot = toggle_sleep_impl(&mut state).unwrap();
    assert!(finish_toggle_sleep(snapshot, write_failed(), strong()).is_err());
    assert_eq!(get_state(&state).unwrap(), (true, ScreenMode::AllowScreenOff));
}

#[test]
fn quit_clears_the_flag() {
    let mut state = manager(true, ScreenMode::KeepScreenOn);
    quit(&mut state);
    assert_eq!(state, manager(false, ScreenMode::KeepScreenOn));
    quit(&mut state);
    assert_eq!(state, manager(false, ScreenMode::KeepScreenOn));
}

#[test]
fn started_service_is_idle_and_reads_the_shared_flag() {
    let flag = Arc::new(AtomicBool::new(true));
    let service = start_wake_service(flag.clone(), PlatformCapabilities::strong());
    assert_eq!(service.phase(), ServicePhase::Idle);
    assert_eq!(service.state(), ServiceState::Idle);
    assert!(matches!(service.read_flag(), tea::wake_service::WakeEvent::FlagRead(true)));
    flag.store(false, Ordering::SeqCst);
    assert!(matches!(service.read_flag(), tea::wake_service::WakeEvent::FlagRead(false)));
}

#[test]
fn controller_follows_the_platform() {
    assert!(matches!(
        tea::platform::get_display_controller(PlatformCapabilities::strong()),
        DisplayController::Windows(_)
    ));
    assert!(matches!(
        tea::platform::get_display_controller(PlatformCapabilities::weak()),
        DisplayController::NoOp(_)
    ));
}

#[test]
fn allow_screen_off_is_rejected_where_the_platform_lacks_the_primitive() {
    for awake in [false, true] {
        let mut state = manager(awake, ScreenMode::KeepScreenOn);
        let result = change_screen_mode_impl(&mut state, ScreenMode::AllowScreenOff, weak());
        assert_eq!(
            result.unwrap_err(),
            "Screen mode AllowScreenOff is not supported on this platform"
        );
        assert_eq!(state, manager(awake, ScreenMode::KeepScreenOn));
    }
}

#[test]
fn poisoned_lock_is_reported_before_an_unsupported_mode() {
    let mut state = AppStateManager {
        is_awake: true,
        screen_mode: ModeCell { mode: ScreenMode::KeepScreenOn, poisoned: true },
    };
    let before = state;
    let result = change_screen_mode_impl(&mut state, ScreenMode::AllowScreenOff, weak());
    assert_eq!(
        result.unwrap_err(),
        "Mutex poisoned during change_screen_mode: poisoned lock: another task failed inside"
    );
    assert_eq!(state, before);
    let result = change_screen_mode_impl(&mut state, ScreenMode::KeepScreenOn, weak());
    assert!(result.unwrap_err().starts_with("Mutex poisoned during change_screen_mode"));
    assert_eq!(state, before);
}

#[test]
fn keep_screen_on_is_accepted_on_every_platform() {
    for platform in [strong(), weak()] {
        let mut state = manager(true, ScreenMode::KeepScreenOn);
        let snapshot = change_screen_mode_impl(&mut state, ScreenMode::KeepScreenOn, platform).unwrap();
        assert_eq!(snapshot, AppState { sleep_disabled: true, screen_mode: ScreenMode::KeepScreenOn });
    }
    let mut state = manager(false, ScreenMode::KeepScreenOn);
    assert!(change_screen_mode_impl(&mut state, ScreenMode::AllowScreenOff, strong()).is_ok());
    assert_eq!(state, manager(false, ScreenMode::AllowScreenOff));
}

#[test]
fn no_service_is_started_with_an_unsupported_mode() {
    let snapshot = AppState { sleep_disabled: true, screen_mode: ScreenMode::AllowScreenOff };
    assert_eq!(
        finish_toggle_sleep(snapshot, Ok(()), weak()).unwrap(),
        vec![ControlAction::StartService(ScreenMode::KeepScreenOn)]
    );
    assert_eq!(
        finish_change_screen_mode(snapshot, Ok(()), weak()).unwrap()[3],
        ControlAction::StartService(ScreenMode::KeepScreenOn)
    );
    assert_eq!(
        start_up(snapshot, weak()),
        vec![ControlAction::StartService(ScreenMode::KeepScreenOn)]
    );
    assert_eq!(
        start_up(snapshot, strong()),
        vec![ControlAction::StartService(ScreenMode::AllowScreenOff)]
    );
}

#[test]
fn startup_with_sleep_allowed_starts_nothing() {
    let loaded = AppState { sleep_disabled: false, screen_mode: ScreenMode::KeepScreenOn };
    assert!(start_up(loaded, strong()).is_empty());
    assert!(start_up(loaded, weak()).is_empty());
}

#[test]
fn initial_state_holds_a_supported_mode() {
    let loaded = AppState { sleep_disabled: true, screen_mode: ScreenMode::AllowScreenOff };
    assert_eq!(initial_state(loaded, strong()), manager(true, ScreenMode::AllowScreenOff));
    assert_eq!(initial_state(loaded, weak()), manager(true, ScreenMode::KeepScreenOn));
    let loaded = AppState { sleep_disabled: false, screen_mode: ScreenMode::KeepScreenOn };
    assert_eq!(initial_state(loaded, weak()), manager(false, ScreenMode::KeepScreenOn));
}

#[test]
fn weak_platform_scenario_never_runs_with_screen_off_allowed() {
    let loaded = AppState::default();
    let mut state = initial_state(loaded, weak());
    assert_eq!(state, manager(false, ScreenMode::KeepScreenOn));

    let snapshot = toggle_sleep_impl(&mut state).unwrap();
    assert_eq!(snapshot, AppState { sleep_disabled: true, screen_mode: ScreenMode::KeepScreenOn });
    assert_eq!(
        finish_toggle_sleep(snapshot, Ok(()), weak()).unwrap(),
        vec![ControlAction::StartService(ScreenMode::KeepScreenOn)]
    );

    assert!(change_screen_mode_impl(&mut state, ScreenMode::AllowScreenOff, weak()).is_err());
    assert_eq!(get_state(&state).unwrap(), (true, ScreenMode::KeepScreenOn));
}

#[test]
fn service_reads_the_flag_it_was_given_and_no_other() {
    let given = Arc::new(AtomicBool::new(false));
    let other = Arc::new(AtomicBool::new(false));
    let service = start_wake_service(given.clone(), strong());
    other.store(true, Ordering::SeqCst);
    assert!(matches!(service.read_flag(), tea::wake_service::WakeEvent::FlagRead(false)));
    given.store(true, Ordering::SeqCst);
    assert!(matches!(service.read_flag(), tea::wake_service::WakeEvent::FlagRead(true)));
    assert_eq!(Arc::strong_count(&given), 2);
    assert_eq!(Arc::strong_count(&other), 1);
}
