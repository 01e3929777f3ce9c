//! Rotating window title: the text of an input box, turned left one
//! character at a time and cut to a chosen length, shown in a title bar.

pub mod error_handling;
pub mod rotation;
pub mod wide;
pub mod window_state;
