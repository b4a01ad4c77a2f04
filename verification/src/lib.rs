//! Verified decision logic of a small desktop switcher: which mouse events at
//! the left screen edge become virtual-desktop commands, how feature settings
//! are kept, how the start-up registry entry is encoded and recognised, and how
//! the tray window reacts to its messages.

pub mod screen_edge;
pub mod config;
pub mod mouse_hook;
pub mod desktop_switch;
pub mod utf16;
pub mod startup;
pub mod tray;
