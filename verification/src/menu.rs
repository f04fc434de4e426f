//! The tray menu: the identifiers of its items and the texts they show.

use crate::domain::ScreenMode;
use crate::text::str_equal;
use vstd::prelude::*;

verus! {

/// Identifier of the item that toggles sleep prevention.
pub const TOGGLE_SLEEP_ID: &'static str = "toggle_sleep";

/// Identifier of the item that toggles the start at login.
pub const TOGGLE_AUTOSTART_ID: &'static str = "toggle_autostart";

/// Identifier of the item that selects `KeepScreenOn`.
pub const SCREEN_ON_ID: &'static str = "screen_on";

/// Identifier of the item that selects `AllowScreenOff`.
pub const SCREEN_OFF_ID: &'static str = "screen_off";

/// Identifier of the item that quits.
pub const QUIT_ID: &'static str = "quit";

/// What a menu item asks of the control layer.
#[derive(Clone, Copy, PartialEq, Eq, Debug, Structural)]
pub enum MenuEvent {
    ToggleSleep,
    SetMode(ScreenMode),
    ToggleAutostart,
    Quit,
}

/// The event of each menu identifier; `None` for any other text.
pub open spec fn event_of(id: Seq<char>) -> Option<MenuEvent> {
    if id == "toggle_sleep"@ {
        Some(MenuEvent::ToggleSleep)
    } else if id == "screen_on"@ {
        Some(MenuEvent::SetMode(ScreenMode::KeepScreenOn))
    } else if id == "screen_off"@ {
        Some(MenuEvent::SetMode(ScreenMode::AllowScreenOff))
    } else if id == "toggle_autostart"@ {
        Some(MenuEvent::ToggleAutostart)
    } else if id == "quit"@ {
        Some(MenuEvent::Quit)
    } else {
        None
    }
}

/// The text of the sleep item: it names what a click will do.
pub open spec fn sleep_text(is_awake: bool) -> Seq<char> {
    if is_awake {
        "Enable Sleep"@
    } else {
        "Disable Sleep"@
    }
}

/// The text of the autostart item, with a check mark while enabled.
pub open spec fn autostart_text(enabled: bool) -> Seq<char> {
    if enabled {
        "\u{2713} Start at Login"@
    } else {
        "Start at Login"@
    }
}

/// The text of the item of `item_mode`, with a check mark while it is the
/// current mode.
pub open spec fn mode_text(item_mode: ScreenMode, current: ScreenMode) -> Seq<char> {
    match item_mode {
        ScreenMode::KeepScreenOn => if current == item_mode {
            "\u{2713} Keep Screen On"@
        } else {
            "Keep Screen On"@
        },
        ScreenMode::AllowScreenOff => if current == item_mode {
            "\u{2713} Allow Screen Off"@
        } else {
            "Allow Screen Off"@
        },
    }
}

/// Maps the identifier of a clicked item to its event.
pub fn menu_event(id: &str) -> (event: Option<MenuEvent>)
    ensures
        event == event_of(id@),
{
    if str_equal(id, TOGGLE_SLEEP_ID) {
        Some(MenuEvent::ToggleSleep)
    } else if str_equal(id, SCREEN_ON_ID) {
        Some(MenuEvent::SetMode(ScreenMode::KeepScreenOn))
    } else if str_equal(id, SCREEN_OFF_ID) {
        Some(MenuEvent::SetMode(ScreenMode::AllowScreenOff))
    } else if str_equal(id, TOGGLE_AUTOSTART_ID) {
        Some(MenuEvent::ToggleAutostart)
    } else if str_equal(id, QUIT_ID) {
        Some(MenuEvent::Quit)
    } else {
        None
    }
}

/// The text of the sleep item for a wake state.
pub fn sleep_menu_text(is_awake: bool) -> (text: &'static str)
    ensures
        text@ == sleep_text(is_awake),
{
    if is_awake {
        "Enable Sleep"
    } else {
        "Disable Sleep"
    }
}

/// The text of the autostart item.
pub fn autostart_menu_text(enabled: bool) -> (text: &'static str)
    ensures
        text@ == autostart_text(enabled),
{
    if enabled {
        "\u{2713} Start at Login"
    } else {
        "Start at Login"
    }
}

/// The text of the item that selects `item_mode` while `current` is in force.
pub fn mode_menu_text(item_mode: ScreenMode, current: ScreenMode) -> (text: &'static str)
    ensures
        text@ == mode_text(item_mode, current),
{
    match item_mode {
        ScreenMode::KeepScreenOn => match current {
            ScreenMode::KeepScreenOn => "\u{2713} Keep Screen On",
            ScreenMode::AllowScreenOff => "Keep Screen On",
        },
        ScreenMode::AllowScreenOff => match current {
            ScreenMode::AllowScreenOff => "\u{2713} Allow Screen Off",
            ScreenMode::KeepScreenOn => "Allow Screen Off",
        },
    }
}

} // verus!
