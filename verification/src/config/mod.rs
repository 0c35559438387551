//! The `.rrduconfig` configuration: its model, path rules and errors.

pub mod error;
pub mod model;
pub mod section_map;
pub mod version;

pub use error::ConfigError;
