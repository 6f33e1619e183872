//! Keyboard-driven list menus for a disk installer: a cursor over a list of
//! rows, the main menu built on it, the disk picker opened from the main menu,
//! and the reading of the block-device listing that fills the picker.
//!
//! Every state change is a function from the current state and one key press
//! to the next state. Drawing and reading keys are left to the caller, which
//! asks the menu what to draw, reads a key, and hands the key back.

pub mod devices;
pub mod layout;
pub mod menu;
pub mod picker;
pub mod screen;
pub mod selection;
