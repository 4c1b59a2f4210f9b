//! The decision logic of a pie-menu launcher: the input state machine that opens
//! and closes the menu, the key recorder for macros, the menu configuration and
//! its editing operations, and the plans for running an item's action.

pub mod text;
pub mod keys;
pub mod input;
pub mod actions;
pub mod config;
pub mod pie;
pub mod editor;
pub mod assets;
