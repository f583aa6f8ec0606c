//! HID report layer: keycodes, typed reports and the report parser.

pub mod keycode;
pub mod parser;
pub mod report;

pub use keycode::{ConsumerBits, KeyCode};
pub use report::{ConsumerReport, KeyboardReport, MediaKeysReport, Report};
