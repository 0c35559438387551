use vstd::prelude::*;

verus! {

/// Errors that can occur when loading, parsing, or validating configuration.
#[derive(Debug, Clone, PartialEq, Eq)]
pub enum ConfigError {
    /// Rejection of parent paths (`..`) or root paths (`/`, `C:\`).
    InsecurePath(String),
    /// I/O error when reading or creating the configuration file (its message).
    Io(String),
    /// YAML parsing or serialization failure (its message).
    Yaml(String),
    /// The configuration names no schema version, or one that is not SemVer.
    LegacyConfiguration,
    /// The configuration was written for a version this build does not accept.
    IncompatibleVersion { found: String, required: String },
}

} // verus!
