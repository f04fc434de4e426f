//! Platform-independent values: the screen mode and the tray tooltip.

pub mod screen_mode;
pub mod tooltip;

pub use screen_mode::ScreenMode;
pub use tooltip::TooltipText;
