//! Verified core of the Lumbus pointer highlighter.
//!
//! The library holds the decisions the overlay application makes: which
//! window level overlays use, which letter marks a click, how events are
//! dispatched, how settings are cached, snapped and persisted, how colours
//! are written as hex, and how the quit dialog reacts to keys.
//! The platform front end (`app/`) performs the drawing and the system calls.

pub mod window_level;
pub mod drawing;
pub mod events;
pub mod config;
pub mod color;
pub mod settings_window;
pub mod input;
pub mod main_window;
pub mod render;
pub mod view_state;
pub mod quit_dialog;
pub mod texts;
pub mod notify;
pub mod overlay_windows;
