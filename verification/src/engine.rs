//! The remapping engine: mapping resolution, per-report handlers, the plan
//! of injector calls for each target event, the engine status and the
//! engine's seeking/active life cycle.

pub mod consumer;
pub mod dispatcher;
pub mod injector_util;
pub mod key_mapper;
pub mod keyboard;
pub mod lifecycle;
pub mod status;

pub use dispatcher::Dispatcher;
