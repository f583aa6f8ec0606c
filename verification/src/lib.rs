//! Remapping engine for the Hagibis UC-1102AG USB hub: HID report parsing,
//! key-combo parsing, mapping resolution and the decisions of the engine.

pub mod backend;
pub mod config;
pub mod engine;
pub mod error;
pub mod hid;
pub mod logging;
pub mod text;
pub mod tui;
