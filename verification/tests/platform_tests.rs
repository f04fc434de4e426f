use tea::domain::ScreenMode;
use tea::platform::{
    get_display_controller, DisplayControl, NoOpDisplayControl, PlatformCapabilities,
    PowerRequest, WindowsDisplayControl, ES_CONTINUOUS, ES_DISPLAY_REQUIRED,
};

#[test]
fn execution_state_flags_have_their_values() {
    assert_eq!(ES_CONTINUOUS, 0x8000_0000);
    assert_eq!(ES_DISPLAY_REQUIRED, 0x0000_0002);
}

#[test]
fn windows_keep_screen_on_requires_the_display() {
    let control = WindowsDisplayControl;
    assert_eq!(
        control.set_display_mode(ScreenMode::KeepScreenOn),
        PowerRequest::ExecutionState(0x8000_0002)
    );
}

#[test]
fn windows_allow_screen_off_is_continuous_only() {
    let control = WindowsDisplayControl;
    assert_eq!(
        control.set_display_mode(ScreenMode::AllowScreenOff),
        PowerRequest::ExecutionState(0x8000_0000)
    );
}

#[test]
fn windows_restore_is_continuous_only() {
    let control = WindowsDisplayControl;
    assert_eq!(control.restore_normal_mode(), PowerRequest::ExecutionState(0x8000_0000));
}

#[test]
fn noop_controller_asks_nothing() {
    let control = NoOpDisplayControl;
    assert_eq!(control.set_display_mode(ScreenMode::KeepScreenOn), PowerRequest::Nothing);
    assert_eq!(control.set_display_mode(ScreenMode::AllowScreenOff), PowerRequest::Nothing);
    assert_eq!(control.restore_normal_mode(), PowerRequest::Nothing);
}

#[test]
fn restore_without_set_and_twice_in_a_row_asks_the_same() {
    for platform in [PlatformCapabilities::strong(), PlatformCapabilities::weak()] {
        let control = get_display_controller(platform);
        let first = control.restore_normal_mode();
        let second = control.restore_normal_mode();
        assert_eq!(first, second);
    }
}

#[test]
fn set_display_mode_is_idempotent() {
    for platform in [PlatformCapabilities::strong(), PlatformCapabilities::weak()] {
        let control = get_display_controller(platform);
        for mode in [ScreenMode::KeepScreenOn, ScreenMode::AllowScreenOff] {
            assert_eq!(control.set_display_mode(mode), control.set_display_mode(mode));
        }
    }
}

#[test]
fn factory_controller_asks_what_its_platform_controller_asks() {
    let strong = get_display_controller(PlatformCapabilities::strong());
    let weak = get_display_controller(PlatformCapabilities::weak());
    for mode in [ScreenMode::KeepScreenOn, ScreenMode::AllowScreenOff] {
        assert_eq!(strong.set_display_mode(mode), WindowsDisplayControl.set_display_mode(mode));
        assert_eq!(weak.set_display_mode(mode), NoOpDisplayControl.set_display_mode(mode));
    }
    assert_eq!(strong.restore_normal_mode(), WindowsDisplayControl.restore_normal_mode());
    assert_eq!(weak.restore_normal_mode(), NoOpDisplayControl.restore_normal_mode());
}
