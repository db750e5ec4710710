//! Clipboard history: the model, the storage layer over an embedded SQL
//! engine, the clipboard watcher's decisions and the decisions behind each
//! panel of the user interface, with their contracts.

pub mod clipboard;
pub mod db;
pub mod gui;
pub mod models;
pub mod settings;
pub mod tray;
pub mod ui;
pub mod utils;
