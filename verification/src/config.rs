//! Configuration: data types, the key-combo parser, validation, the
//! built-in defaults and the rules the config file is loaded and saved by.

pub mod combo;
pub mod defaults;
pub mod manager;
pub mod types;
pub mod validate;

pub use types::{ButtonMappingSet, Config, DeviceConfig, DeviceMatch, LoggingConfig, Profile, TargetEvent};
