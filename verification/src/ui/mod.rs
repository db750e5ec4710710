//! The decisions behind the panels and popups of the user interface.
//!
//! Drawing belongs to the caller. Each `show` here takes what the widgets of
//! one panel reported in one frame and does what the panel does with it:
//! change the shared state, call the storage layer, and answer with what the
//! shell has to do.

pub mod components;
pub mod popups;
pub mod views;
