//! The tooltip of the tray icon.

use super::screen_mode::ScreenMode;
use vstd::prelude::*;
use vstd::string::*;

verus! {

/// The tooltip text for a wake state and a screen mode.
pub open spec fn tooltip_for(is_awake: bool, screen_mode: ScreenMode) -> Seq<char> {
    if !is_awake {
        "Tea - Sleep prevention disabled"@
    } else if screen_mode == ScreenMode::KeepScreenOn {
        "Tea - Screen & System On"@
    } else {
        "Tea - System On, Screen Can Sleep"@
    }
}

/// Tooltip text for the tray icon.
#[derive(Debug, Clone, PartialEq, Eq)]
pub struct TooltipText(String);

impl View for TooltipText {
    type V = Seq<char>;

    closed spec fn view(&self) -> Seq<char> {
        self.0@
    }
}

impl TooltipText {
    /// The tooltip that describes the given state. While sleep prevention is
    /// off the screen mode does not show.
    pub fn for_state(is_awake: bool, screen_mode: ScreenMode) -> (tooltip: Self)
        ensures
            tooltip@ == tooltip_for(is_awake, screen_mode),
    {
        let text = if is_awake {
            match screen_mode {
                ScreenMode::KeepScreenOn => "Tea - Screen & System On",
                ScreenMode::AllowScreenOff => "Tea - System On, Screen Can Sleep",
            }
        } else {
            "Tea - Sleep prevention disabled"
        };
        TooltipText(String::from_str(text))
    }

    /// The text of the tooltip.
    pub fn as_str(&self) -> (text: &str)
        ensures
            text@ == self@,
    {
        self.0.as_str()
    }
}

impl AsRef<str> for TooltipText {
    /// The text of the tooltip.
    fn as_ref(&self) -> (text: &str)
        ensures
            text@ == self@,
    {
        self.0.as_str()
    }
}

} // verus!
