//! Verified core of the recursive dependency updater: the `.rrduconfig`
//! model with its path rules and version checks, and the dependency model
//! read from `Cargo.toml` manifests.

pub mod config;
pub mod globals;
pub mod text;
pub mod workspace;
