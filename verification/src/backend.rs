//! Platform backends: the traits the engine drives them through, and the
//! decisions of the macOS and Windows backends that do not touch the OS.

pub mod macos;
pub mod traits;
pub mod windows;

pub use traits::{FocusQuery, FocusedApp, HIDBackend};
