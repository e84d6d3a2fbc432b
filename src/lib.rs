//! Tap a watched modifier key to switch the input method on, tap another to
//! switch it off, while chords and accelerators that use those keys pass
//! through untouched.

pub mod config;
pub mod hook;
pub mod ime;
pub mod keyboard;
pub mod setting;
pub mod tap;
pub mod tray;
