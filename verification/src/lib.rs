//! Decision logic of an input-mode indicator: where the text caret is, whether
//! an indicator dot should be visible, and in which colour it is drawn.
//!
//! The library never talks to the desktop itself. Every function takes what
//! the desktop answered as plain values and says what to do or to ask next.

pub mod caret_detector;
pub mod cascade;
pub mod config;
pub mod cursor_detector;
pub mod desktop;
pub mod ime_detector;
pub mod indicator;
pub mod overlay;
pub mod text;
pub mod trail;
pub mod tray;
