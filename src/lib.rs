//! Decision logic of a tray-resident window: where the window is placed when
//! it is shown, and which window-manager operations each tray click, shortcut,
//! quit request or close request calls for on each platform.

pub mod laws;
pub mod platform;
pub mod position;
pub mod presenter;
