//! Types shared by the configuration and the workspace model.

use vstd::prelude::*;

verus! {

/// Primitive boolean enum for better readability
#[derive(Debug, Clone, Copy, PartialEq, Eq, Hash, Structural)]
pub enum Boolean {
    True,
    False,
}

#[derive(Debug, Clone, Copy, PartialEq, Eq, Hash, Structural)]
pub enum TargetDepKind {
    /// `[dependencies]`
    Normal,
    /// `[dev-dependencies]`
    Dev,
    /// `[build-dependencies]`
    Build,
}

#[derive(Debug, Clone, PartialEq, Eq)]
pub enum DependencyVersion {
    /// Supported crates.io dependency version requirement (e.g. "1.0.0", "^3.1", "~0.4")
    Supported(String),
    /// Contains one or more unsupported configuration keys (e.g. ["git", "path"])
    UnsupportedKeys { keys: Vec<String> },
    /// One or more required fields are missing or invalid (e.g. ["version"])
    MissingRequired { fields: Vec<String> },
    /// Value of version is not supported
    UnsupportedValue(String),
}

#[derive(Debug, Clone, PartialEq, Eq)]
pub enum DependencyEntry {
    /// E.g. `colored = "3.1.1"`
    Simple(SimpleDependency),
    /// E.g. `web-sys = { version = "0.3", features = [...] }`
    Inline(InlineDependency),
    /// E.g. `[dependencies.serde]` with `version = "3.0.0"`, or
    /// `[dependencies.my_serde]` with `version = "3.0.0"` and `package = "serde"`
    Table(TableDependency),
}

/// Schema of a simple key-value dependency definition, e.g. `colored = "3.1.1"`
#[derive(Debug, Clone, PartialEq, Eq)]
pub struct SimpleDependency {
    pub toml_key: String,
    pub version: DependencyVersion,
}

/// Schema of an object-like dependency definition,
/// e.g. `web-sys = { version = "0.3", features = [...] }`
#[derive(Debug, Clone, PartialEq, Eq)]
pub struct InlineDependency {
    pub toml_key: String,
    pub package: String,
    pub version: DependencyVersion,
}

/// Schema of a section specified dependency definition, e.g.
/// `[dependencies.my_serde]` with `version = "3.0.0"` and `package = "serde"`
#[derive(Debug, Clone, PartialEq, Eq)]
pub struct TableDependency {
    pub toml_key: String,
    pub package: String,
    pub version: DependencyVersion,
}

/// Values to generate CI and CLI dependency table row
///
/// (is latest, needs migration, version string)
pub type DependecyRow = (Boolean, Boolean, String);

#[derive(Debug, PartialEq, Eq, Hash)]
pub enum DependencySection {
    /// `[dependencies]`
    Normal,
    /// `[dev-dependencies]`
    Dev,
    /// `[build-dependencies]`
    Build,
    /// `[workspace.dependencies]`
    Workspace,
    /// `[target.'<target>'.dependencies | dev-dependencies | build-dependencies]`
    Target { target: String, kind: TargetDepKind },
    /// `[dependencies.my_serde]` or `[target.x86.dependencies.my_serde]`
    Table { parent: Box<DependencySection>, toml_key: String },
}

/// The mathematical value of a [`DependencyVersion`].
pub enum DependencyVersionView {
    Supported(Seq<char>),
    UnsupportedKeys(Seq<Seq<char>>),
    MissingRequired(Seq<Seq<char>>),
    UnsupportedValue(Seq<char>),
}

impl View for DependencyVersion {
    type V = DependencyVersionView;

    open spec fn view(&self) -> DependencyVersionView {
        match self {
            DependencyVersion::Supported(v) => DependencyVersionView::Supported(v@),
            DependencyVersion::UnsupportedKeys { keys } => DependencyVersionView::UnsupportedKeys(
                keys.deep_view(),
            ),
            DependencyVersion::MissingRequired { fields } => DependencyVersionView::MissingRequired(
                fields.deep_view(),
            ),
            DependencyVersion::UnsupportedValue(v) => DependencyVersionView::UnsupportedValue(v@),
        }
    }
}

/// The mathematical value of a [`DependencyEntry`].
pub enum DependencyEntryView {
    Simple { toml_key: Seq<char>, version: DependencyVersionView },
    Inline { toml_key: Seq<char>, package: Seq<char>, version: DependencyVersionView },
    Table { toml_key: Seq<char>, package: Seq<char>, version: DependencyVersionView },
}

impl View for DependencyEntry {
    type V = DependencyEntryView;

    open spec fn view(&self) -> DependencyEntryView {
        match self {
            DependencyEntry::Simple(d) => DependencyEntryView::Simple {
                toml_key: d.toml_key@,
                version: d.version@,
            },
            DependencyEntry::Inline(d) => DependencyEntryView::Inline {
                toml_key: d.toml_key@,
                package: d.package@,
                version: d.version@,
            },
            DependencyEntry::Table(d) => DependencyEntryView::Table {
                toml_key: d.toml_key@,
                package: d.package@,
                version: d.version@,
            },
        }
    }
}

impl Clone for DependencySection {
    fn clone(&self) -> (copy: Self)
        ensures
            copy == *self,
        decreases self,
    {
        match self {
            DependencySection::Normal => DependencySection::Normal,
            DependencySection::Dev => DependencySection::Dev,
            DependencySection::Build => DependencySection::Build,
            DependencySection::Workspace => DependencySection::Workspace,
            DependencySection::Target { target, kind } => DependencySection::Target {
                target: target.clone(),
                kind: *kind,
            },
            DependencySection::Table { parent, toml_key } => {
                let parent_copy = (**parent).clone();
                DependencySection::Table { parent: Box::new(parent_copy), toml_key: toml_key.clone() }
            },
        }
    }
}

} // verus!
