//! Workspace discovery and the dependency model of projects.

pub mod discovery;
pub mod project;
