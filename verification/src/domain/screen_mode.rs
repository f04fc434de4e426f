//! The user's preference for the display while the system is kept awake.

use crate::platform::PlatformCapabilities;
use vstd::prelude::*;

verus! {

/// What the display may do while the system is kept awake.
#[derive(Clone, Copy, PartialEq, Eq, Debug, Structural)]
pub enum ScreenMode {
    /// The display stays on. Every platform can honour this.
    KeepScreenOn,
    /// The display may sleep while the system stays awake. This needs a
    /// platform primitive that holds the system awake on its own.
    AllowScreenOff,
}

impl Default for ScreenMode {
    fn default() -> (mode: Self)
        ensures
            mode == ScreenMode::AllowScreenOff,
    {
        ScreenMode::AllowScreenOff
    }
}

impl ScreenMode {
    /// Whether this mode is available on a platform with the given capabilities.
    pub open spec fn supported_on(self, platform: PlatformCapabilities) -> bool {
        self == ScreenMode::KeepScreenOn || platform.supports_strong_sleep_primitive
    }

    /// The mode that a service runs with where this one is asked for: the
    /// mode itself where the platform supports it, and `KeepScreenOn`, which
    /// every platform supports, where it does not.
    pub open spec fn effective_on(self, platform: PlatformCapabilities) -> ScreenMode {
        if self.supported_on(platform) {
            self
        } else {
            ScreenMode::KeepScreenOn
        }
    }

    /// True exactly for `KeepScreenOn`.
    pub fn should_keep_display_on(self) -> (keep: bool)
        ensures
            keep == (self == ScreenMode::KeepScreenOn),
    {
        match self {
            ScreenMode::KeepScreenOn => true,
            ScreenMode::AllowScreenOff => false,
        }
    }

    /// True if the platform can honour this mode: always for `KeepScreenOn`,
    /// and for `AllowScreenOff` only where the platform can hold the system
    /// awake without forcing the display on.
    pub fn is_supported(self, platform: PlatformCapabilities) -> (supported: bool)
        ensures
            supported == self.supported_on(platform),
            self == ScreenMode::KeepScreenOn ==> supported,
            self == ScreenMode::AllowScreenOff ==> supported
                == platform.supports_strong_sleep_primitive,
    {
        match self {
            ScreenMode::KeepScreenOn => true,
            ScreenMode::AllowScreenOff => platform.supports_strong_sleep_primitive,
        }
    }

    /// The mode to run a service with in place of this one: the mode itself
    /// where the platform supports it, `KeepScreenOn` where it does not. The
    /// result is always supported.
    pub fn effective(self, platform: PlatformCapabilities) -> (mode: ScreenMode)
        ensures
            mode == self.effective_on(platform),
            mode.supported_on(platform),
            self.supported_on(platform) ==> mode == self,
    {
        if self.is_supported(platform) {
            self
        } else {
            ScreenMode::KeepScreenOn
        }
    }
}

} // verus!
