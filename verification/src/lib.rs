//! Verified core of the DQCsim quantum simulator framework: log levels and
//! log records, the C API's enumerations and their conversions, the
//! predefined quantum gates, plugin definitions and the plugin shutdown
//! protocol.

pub mod error;
pub mod log;
pub mod types;
pub mod ctypes;
pub mod gates;
pub mod definition;
pub mod process;
pub mod protocol;
pub mod plugin;
pub mod cli;
