//! Platform capabilities and display power control.
//!
//! A display controller decides what to ask of the operating system for a
//! screen mode. It performs no call itself: it hands back a `PowerRequest`,
//! and whoever runs the wake service passes the request on.

use crate::domain::ScreenMode;
use vstd::prelude::*;

verus! {

/// Execution state flag: the state stays in force until the next request.
pub const ES_CONTINUOUS: u32 = 0x8000_0000;

/// Execution state flag: the display is required to stay on.
pub const ES_DISPLAY_REQUIRED: u32 = 0x0000_0002;

/// What a platform offers for sleep prevention, resolved once at startup.
#[derive(Clone, Copy, PartialEq, Eq, Debug, Structural)]
pub struct PlatformCapabilities {
    /// The platform can hold the system awake without forcing the display on.
    pub supports_strong_sleep_primitive: bool,
}

impl PlatformCapabilities {
    /// A platform with a native sleep-prevention primitive.
    pub fn strong() -> (platform: Self)
        ensures
            platform.supports_strong_sleep_primitive,
    {
        PlatformCapabilities { supports_strong_sleep_primitive: true }
    }

    /// A platform that can only be kept awake by periodic input activity.
    pub fn weak() -> (platform: Self)
        ensures
            !platform.supports_strong_sleep_primitive,
    {
        PlatformCapabilities { supports_strong_sleep_primitive: false }
    }
}

/// What a display controller asks of the operating system.
#[derive(Clone, Copy, PartialEq, Eq, Debug, Structural)]
pub enum PowerRequest {
    /// No call is to be made.
    Nothing,
    /// The thread's execution state is to be set to these flags.
    ExecutionState(u32),
}

/// Platform-specific display power control.
///
/// Both operations are functions of their arguments alone, so repeating one
/// asks the same of the operating system again.
pub trait DisplayControl {
    /// The request that applies `screen_mode`.
    spec fn mode_request(&self, screen_mode: ScreenMode) -> PowerRequest;

    /// The request that returns the system to its default power policy.
    spec fn normal_request(&self) -> PowerRequest;

    /// The power request that puts `screen_mode` into force.
    fn set_display_mode(&self, screen_mode: ScreenMode) -> (request: PowerRequest)
        ensures
            request == self.mode_request(screen_mode),
    ;

    /// The power request that clears what `set_display_mode` asked for.
    fn restore_normal_mode(&self) -> (request: PowerRequest)
        ensures
            request == self.normal_request(),
    ;
}

/// The flags that `WindowsDisplayControl` requests for a screen mode.
pub open spec fn windows_mode_flags(screen_mode: ScreenMode) -> u32 {
    if screen_mode == ScreenMode::KeepScreenOn {
        0x8000_0002
    } else {
        0x8000_0000
    }
}

/// Display control through the thread execution state of Windows.
#[derive(Clone, Copy, Debug)]
pub struct WindowsDisplayControl;

impl DisplayControl for WindowsDisplayControl {
    open spec fn mode_request(&self, screen_mode: ScreenMode) -> PowerRequest {
        PowerRequest::ExecutionState(windows_mode_flags(screen_mode))
    }

    open spec fn normal_request(&self) -> PowerRequest {
        PowerRequest::ExecutionState(0x8000_0000)
    }

    fn set_display_mode(&self, screen_mode: ScreenMode) -> (request: PowerRequest) {
        if screen_mode.should_keep_display_on() {
            assert(ES_CONTINUOUS | ES_DISPLAY_REQUIRED == 0x8000_0002u32) by (bit_vector);
            PowerRequest::ExecutionState(ES_CONTINUOUS | ES_DISPLAY_REQUIRED)
        } else {
            PowerRequest::ExecutionState(ES_CONTINUOUS)
        }
    }

    fn restore_normal_mode(&self) -> (request: PowerRequest) {
        PowerRequest::ExecutionState(ES_CONTINUOUS)
    }
}

/// Display control for platforms without a power primitive: it asks nothing.
#[derive(Clone, Copy, Debug)]
pub struct NoOpDisplayControl;

impl DisplayControl for NoOpDisplayControl {
    open spec fn mode_request(&self, screen_mode: ScreenMode) -> PowerRequest {
        PowerRequest::Nothing
    }

    open spec fn normal_request(&self) -> PowerRequest {
        PowerRequest::Nothing
    }

    fn set_display_mode(&self, _screen_mode: ScreenMode) -> (request: PowerRequest) {
        PowerRequest::Nothing
    }

    fn restore_normal_mode(&self) -> (request: PowerRequest) {
        PowerRequest::Nothing
    }
}

/// The display controller of a platform, chosen once and never swapped.
#[derive(Clone, Copy, Debug)]
pub enum DisplayController {
    Windows(WindowsDisplayControl),
    NoOp(NoOpDisplayControl),
}

impl DisplayControl for DisplayController {
    open spec fn mode_request(&self, screen_mode: ScreenMode) -> PowerRequest {
        match self {
            DisplayController::Windows(control) => control.mode_request(screen_mode),
            DisplayController::NoOp(control) => control.mode_request(screen_mode),
        }
    }

    open spec fn normal_request(&self) -> PowerRequest {
        match self {
            DisplayController::Windows(control) => control.normal_request(),
            DisplayController::NoOp(control) => control.normal_request(),
        }
    }

    fn set_display_mode(&self, screen_mode: ScreenMode) -> (request: PowerRequest) {
        match self {
            DisplayController::Windows(control) => control.set_display_mode(screen_mode),
            DisplayController::NoOp(control) => control.set_display_mode(screen_mode),
        }
    }

    fn restore_normal_mode(&self) -> (request: PowerRequest) {
        match self {
            DisplayController::Windows(control) => control.restore_normal_mode(),
            DisplayController::NoOp(control) => control.restore_normal_mode(),
        }
    }
}

/// The display controller for a platform: the native one where the platform
/// has a strong sleep-prevention primitive, the one that asks nothing elsewhere.
pub fn get_display_controller(platform: PlatformCapabilities) -> (controller: DisplayController)
    ensures
        platform.supports_strong_sleep_primitive ==> controller is Windows,
        !platform.supports_strong_sleep_primitive ==> controller is NoOp,
        forall|mode: ScreenMode| #[trigger]
            controller.mode_request(mode) == (if platform.supports_strong_sleep_primitive {
                PowerRequest::ExecutionState(windows_mode_flags(mode))
            } else {
                PowerRequest::Nothing
            }),
        controller.normal_request() == (if platform.supports_strong_sleep_primitive {
            PowerRequest::ExecutionState(0x8000_0000)
        } else {
            PowerRequest::Nothing
        }),
{
    if platform.supports_strong_sleep_primitive {
        DisplayController::Windows(WindowsDisplayControl)
    } else {
        DisplayController::NoOp(NoOpDisplayControl)
    }
}

} // verus!
