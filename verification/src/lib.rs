//! Tea keeps a machine from going to sleep while leaving the display's own
//! sleep behaviour to the user.
//!
//! The crate holds the decisions of the tool: which display modes a platform
//! can honour, what a display controller asks of the operating system, the
//! wake service as a state machine that is driven one outcome at a time, the
//! control operations that toggle the wake state and change the mode, the
//! stored form of the state, and the texts and icons of the tray.
//! The caller performs the effects (timers, input events, power calls,
//! files, windows) and reports their outcomes back.

pub mod commands;
pub mod domain;
pub mod error;
pub mod icon;
pub mod menu;
pub mod persistence;
pub mod platform;
pub mod text;
pub mod wake_laws;
pub mod wake_service;
