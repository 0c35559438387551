//! Representation of projects and dependencies.
//! This is not the representation for the config: it holds what the CLI
//! navigates and what updating a `Cargo.toml` needs.

use std::collections::HashMap;

use vstd::prelude::*;

pub use crate::globals::{
    Boolean, DependecyRow, DependencyEntry, DependencyEntryView, DependencySection,
    DependencyVersion, DependencyVersionView, InlineDependency, SimpleDependency,
    TableDependency, TargetDepKind,
};
use crate::config::model::ProjectConfig;
use crate::config::version::{
    parse_version_req, requirement_view, semver_parse, semver_req_parse, ReqComparator,
    ReqComparatorView, SemVer, SemVersion,
};
use crate::text::{join_strings, owned, seq_join, str_equal};

verus! {

/// A TOML value as the dependency parser reads it.
#[derive(Debug, Clone, PartialEq, Eq)]
pub enum TomlValue {
    /// A string value, with its contents.
    Str(String),
    /// Any other value, with the text that renders it.
    Other(String),
}

/// The mathematical value of a [`TomlValue`].
pub enum TomlValueView {
    Str(Seq<char>),
    Other(Seq<char>),
}

impl View for TomlValue {
    type V = TomlValueView;

    open spec fn view(&self) -> TomlValueView {
        match self {
            TomlValue::Str(s) => TomlValueView::Str(s@),
            TomlValue::Other(s) => TomlValueView::Other(s@),
        }
    }
}

/// An entry of a `[dependencies.<name>]` table.
#[derive(Debug, Clone, PartialEq, Eq)]
pub enum TomlTableEntry {
    /// A value, such as `version = "1.0"`.
    Value(TomlValue),
    /// A sub-table or an array of tables.
    NonValue,
}

/// The mathematical value of a [`TomlTableEntry`].
pub enum TomlTableEntryView {
    Value(TomlValueView),
    NonValue,
}

impl View for TomlTableEntry {
    type V = TomlTableEntryView;

    open spec fn view(&self) -> TomlTableEntryView {
        match self {
            TomlTableEntry::Value(v) => TomlTableEntryView::Value(v@),
            TomlTableEntry::NonValue => TomlTableEntryView::NonValue,
        }
    }
}

/// Some key of `keys` marks an unsupported definition.
pub open spec fn has_unsupported_key(keys: Seq<Seq<char>>) -> bool {
    exists|i: int| 0 <= i < keys.len() && is_unsupported_key(#[trigger] keys[i])
}

proof fn lemma_unsupported_keys_nonempty(keys: Seq<Seq<char>>)
    ensures
        unsupported_keys(keys).len() > 0 <==> has_unsupported_key(keys),
    decreases keys.len(),
{
    if keys.len() > 0 {
        let init = keys.drop_last();
        lemma_unsupported_keys_nonempty(init);
        if has_unsupported_key(init) {
            let i = choose|i: int| 0 <= i < init.len() && is_unsupported_key(#[trigger] init[i]);
            assert(keys[i] == init[i]);
        }
        if has_unsupported_key(keys) && !is_unsupported_key(keys.last()) {
            let i = choose|i: int| 0 <= i < keys.len() && is_unsupported_key(#[trigger] keys[i]);
            assert(i != keys.len() - 1);
            assert(init[i] == keys[i]);
        }
        if is_unsupported_key(keys.last()) {
            assert(keys[keys.len() - 1] == keys.last());
        }
    }
}

/// The item that a dependency key holds in a manifest, with the entries of
/// a table in the order in which the manifest lists them.
#[derive(Debug, Clone, PartialEq, Eq)]
pub enum TomlItem {
    /// A plain value: `colored = "3.1.1"`, or a value of another type.
    Value(TomlValue),
    /// An inline table: `web-sys = { version = "0.3", features = [...] }`.
    InlineTable(Vec<(String, TomlValue)>),
    /// A table: `[dependencies.serde]`.
    Table(Vec<(String, TomlTableEntry)>),
    /// Anything else, such as an array of tables.
    Other,
}

/// The mathematical value of a [`TomlItem`].
pub enum TomlItemView {
    Value(TomlValueView),
    InlineTable(Seq<(Seq<char>, TomlValueView)>),
    Table(Seq<(Seq<char>, TomlTableEntryView)>),
    Other,
}

impl View for TomlItem {
    type V = TomlItemView;

    open spec fn view(&self) -> TomlItemView {
        match self {
            TomlItem::Value(v) => TomlItemView::Value(v@),
            TomlItem::InlineTable(entries) => TomlItemView::InlineTable(
                entries@.map_values(|e: (String, TomlValue)| (e.0@, e.1@)),
            ),
            TomlItem::Table(entries) => TomlItemView::Table(
                entries@.map_values(|e: (String, TomlTableEntry)| (e.0@, e.1@)),
            ),
            TomlItem::Other => TomlItemView::Other,
        }
    }
}

/// The value of the first entry of `s` whose key is `k`.
pub open spec fn first_match<V>(s: Seq<(Seq<char>, V)>, k: Seq<char>) -> Option<V>
    decreases s.len(),
{
    if s.len() == 0 {
        None
    } else if s[0].0 == k {
        Some(s[0].1)
    } else {
        first_match(s.drop_first(), k)
    }
}

proof fn lemma_first_match<V>(s: Seq<(Seq<char>, V)>, k: Seq<char>, i: int)
    requires
        0 <= i <= s.len(),
        forall|j: int| 0 <= j < i ==> s[j].0 != k,
    ensures
        i < s.len() && s[i].0 == k ==> first_match(s, k) == Some(s[i].1),
        i == s.len() ==> first_match(s, k) is None,
    decreases i,
{
    if i > 0 {
        let t = s.drop_first();
        assert forall|j: int| 0 <= j < i - 1 implies t[j].0 != k by {
            assert(t[j] == s[j + 1]);
        }
        lemma_first_match(t, k, i - 1);
    }
}

/// Index of the first entry of `entries` whose key is `key`.
fn find_first<V: View>(entries: &Vec<(String, V)>, key: &str) -> (found: Option<usize>)
    ensures
        match found {
            Some(i) => i < entries.len() && entries@[i as int].0@ == key@ && forall|j: int|
                0 <= j < i ==> entries@[j].0@ != key@,
            None => forall|j: int| 0 <= j < entries.len() ==> entries@[j].0@ != key@,
        },
{
    let mut i: usize = 0;
    while i < entries.len()
        invariant
            i <= entries.len(),
            forall|j: int| 0 <= j < i ==> entries@[j].0@ != key@,
        decreases entries.len() - i,
    {
        if str_equal(entries[i].0.as_str(), key) {
            return Some(i);
        }
        i = i + 1;
    }
    None
}

/// `key` is one of the keys that mark a dependency not served by crates.io.
pub open spec fn is_unsupported_key(key: Seq<char>) -> bool {
    key == "git"@ || key == "path"@ || key == "registry"@ || key == "workspace"@
}

/// The keys of `keys` that mark an unsupported definition, in their order.
pub open spec fn unsupported_keys(keys: Seq<Seq<char>>) -> Seq<Seq<char>>
    decreases keys.len(),
{
    if keys.len() == 0 {
        Seq::empty()
    } else if is_unsupported_key(keys.last()) {
        unsupported_keys(keys.drop_last()).push(keys.last())
    } else {
        unsupported_keys(keys.drop_last())
    }
}

/// The version that a version value stands for.
pub open spec fn version_of_value(v: TomlValueView) -> DependencyVersionView {
    match v {
        TomlValueView::Str(s) => DependencyVersionView::Supported(s),
        TomlValueView::Other(r) => DependencyVersionView::UnsupportedValue(r),
    }
}

/// The version when the `version` key is missing.
pub open spec fn missing_version() -> DependencyVersionView {
    DependencyVersionView::MissingRequired(seq!["version"@])
}

/// The version of an inline table dependency.
pub open spec fn inline_version(entries: Seq<(Seq<char>, TomlValueView)>) -> DependencyVersionView {
    let bad = unsupported_keys(entries.map_values(|e: (Seq<char>, TomlValueView)| e.0));
    if bad.len() > 0 {
        DependencyVersionView::UnsupportedKeys(bad)
    } else {
        match first_match(entries, "version"@) {
            Some(v) => version_of_value(v),
            None => missing_version(),
        }
    }
}

/// The package of an inline table dependency: its `package` string, or its key.
pub open spec fn inline_package(entries: Seq<(Seq<char>, TomlValueView)>, key: Seq<char>) -> Seq<
    char,
> {
    match first_match(entries, "package"@) {
        Some(TomlValueView::Str(p)) => p,
        _ => key,
    }
}

/// The version of a table dependency.
pub open spec fn table_version(entries: Seq<(Seq<char>, TomlTableEntryView)>) -> DependencyVersionView {
    let bad = unsupported_keys(entries.map_values(|e: (Seq<char>, TomlTableEntryView)| e.0));
    if bad.len() > 0 {
        DependencyVersionView::UnsupportedKeys(bad)
    } else {
        match first_match(entries, "version"@) {
            Some(TomlTableEntryView::Value(v)) => version_of_value(v),
            _ => missing_version(),
        }
    }
}

/// The package of a table dependency: its `package` string, or its key.
pub open spec fn table_package(entries: Seq<(Seq<char>, TomlTableEntryView)>, key: Seq<char>) -> Seq<
    char,
> {
    match first_match(entries, "package"@) {
        Some(TomlTableEntryView::Value(TomlValueView::Str(p))) => p,
        _ => key,
    }
}

/// The dependency that `key = item` declares, whatever its version, where
/// its shape (a string, an inline table or a table) is supported.
pub open spec fn declared_dependency(key: Seq<char>, item: TomlItemView) -> Option<
    DependencyEntryView,
> {
    match item {
        TomlItemView::Value(TomlValueView::Str(s)) => Some(
            DependencyEntryView::Simple { toml_key: key, version: DependencyVersionView::Supported(s) },
        ),
        TomlItemView::InlineTable(entries) => Some(
            DependencyEntryView::Inline {
                toml_key: key,
                package: inline_package(entries, key),
                version: inline_version(entries),
            },
        ),
        TomlItemView::Table(entries) => Some(
            DependencyEntryView::Table {
                toml_key: key,
                package: table_package(entries, key),
                version: table_version(entries),
            },
        ),
        _ => None,
    }
}

/// The version is a string that `semver::VersionReq::parse` reads as a
/// version requirement.
pub open spec fn is_semver_requirement(version: DependencyVersionView) -> bool {
    match version {
        DependencyVersionView::Supported(v) => semver_req_parse(v) is Some,
        _ => false,
    }
}

/// The dependency that `key = item` maps: one whose shape is supported and
/// whose version is a SemVer requirement string. A definition with a
/// `git`, `path`, `registry` or `workspace` key, without a `version`, or
/// with a version that is no string or no SemVer requirement, is not mapped.
pub open spec fn dependency_of(key: Seq<char>, item: TomlItemView) -> Option<DependencyEntryView> {
    match declared_dependency(key, item) {
        Some(e) => if is_semver_requirement(version_of(e)) {
            Some(e)
        } else {
            None
        },
        None => None,
    }
}

/// The dependency name on crates.io.
pub open spec fn package_of(e: DependencyEntryView) -> Seq<char> {
    match e {
        DependencyEntryView::Simple { toml_key, .. } => toml_key,
        DependencyEntryView::Inline { package, .. } => package,
        DependencyEntryView::Table { package, .. } => package,
    }
}

/// The key under which the manifest declares the dependency.
pub open spec fn toml_key_of(e: DependencyEntryView) -> Seq<char> {
    match e {
        DependencyEntryView::Simple { toml_key, .. } => toml_key,
        DependencyEntryView::Inline { toml_key, .. } => toml_key,
        DependencyEntryView::Table { toml_key, .. } => toml_key,
    }
}

/// The version requirement of the dependency.
pub open spec fn version_of(e: DependencyEntryView) -> DependencyVersionView {
    match e {
        DependencyEntryView::Simple { version, .. } => version,
        DependencyEntryView::Inline { version, .. } => version,
        DependencyEntryView::Table { version, .. } => version,
    }
}

/// `True` or `False` after `b`.
pub open spec fn flag(b: bool) -> Boolean {
    if b {
        Boolean::True
    } else {
        Boolean::False
    }
}

/// The version a requirement comparator names, with left-out minor and
/// patch numbers read as 0 (`^1.2` names 1.2.0).
pub open spec fn declared_release(c: ReqComparatorView) -> SemVer {
    SemVer {
        major: c.major,
        minor: match c.minor {
            Some(m) => m,
            None => 0,
        },
        patch: match c.patch {
            Some(p) => p,
            None => 0,
        },
        pre: c.pre,
        build: Seq::empty(),
    }
}

/// `d` is the version `l`: same numbers and pre-release (build metadata
/// does not count).
pub open spec fn same_version(d: SemVer, l: SemVer) -> bool {
    d.major == l.major && d.minor == l.minor && d.patch == l.patch && d.pre == l.pre
}

/// Moving from `d` to `l` is a breaking change: the major number changes,
/// or, below 1.0, the minor number changes.
pub open spec fn breaking_change(d: SemVer, l: SemVer) -> bool {
    l.major != d.major || (d.major == 0 && l.minor != d.minor)
}

/// `(is_latest, needs_migration)` for a declared requirement and the
/// latest version: where the requirement is one comparator and the latest
/// version reads, the declared version is the latest when it is the same
/// version, and moving to the latest needs a migration when it is not and
/// the change is breaking; where either does not read, `(False, False)`.
pub open spec fn latest_classification(
    declared: Option<Seq<ReqComparatorView>>,
    latest: Option<SemVer>,
) -> (Boolean, Boolean) {
    if declared is Some && declared->0.len() == 1 && latest is Some {
        let d = declared_release(declared->0[0]);
        let l = latest->0;
        (flag(same_version(d, l)), flag(!same_version(d, l) && breaking_change(d, l)))
    } else {
        (Boolean::False, Boolean::False)
    }
}

/// A parsed version, seen through its view.
pub open spec fn parsed_view(v: Option<SemVersion>) -> Option<SemVer> {
    match v {
        Some(x) => Some(x@),
        None => None,
    }
}

/// Whether a dependency of `version` is at `latest`, and whether moving
/// there needs a migration. A version requirement is read by
/// `semver::VersionReq::parse` and `latest` by `semver::Version::parse`;
/// every invalid version counts as the latest and needs no migration.
pub open spec fn latest_status(version: DependencyVersionView, latest: Seq<char>) -> (
    Boolean,
    Boolean,
) {
    match version {
        DependencyVersionView::Supported(v) => latest_classification(
            semver_req_parse(v),
            semver_parse(latest),
        ),
        _ => (Boolean::True, Boolean::False),
    }
}

/// Classifies a declared requirement against the latest version, both as
/// read by the `semver` crate.
pub fn classify_latest(declared: &Option<Vec<ReqComparator>>, latest: &Option<SemVersion>) -> (status: (
    Boolean,
    Boolean,
))
    ensures
        status == latest_classification(requirement_view(*declared), parsed_view(*latest)),
{
    match (declared, latest) {
        (Some(cs), Some(l)) => {
            if cs.len() != 1 {
                return (Boolean::False, Boolean::False);
            }
            let c = &cs[0];
            let minor = match c.minor {
                Some(m) => m,
                None => 0,
            };
            let patch = match c.patch {
                Some(p) => p,
                None => 0,
            };
            let same = c.major == l.major() && minor == l.minor() && patch == l.patch()
                && str_equal(c.pre.as_str(), l.pre());
            let breaking = l.major() != c.major || (c.major == 0 && l.minor() != minor);
            proof {
                let d = declared_release(requirement_view(*declared)->0[0]);
                assert(requirement_view(*declared)->0[0] == c@);
                assert(same == same_version(d, l@));
                assert(breaking == breaking_change(d, l@));
            }
            let is_latest = if same {
                Boolean::True
            } else {
                Boolean::False
            };
            let needs_migration = if !same && breaking {
                Boolean::True
            } else {
                Boolean::False
            };
            (is_latest, needs_migration)
        },
        _ => (Boolean::False, Boolean::False),
    }
}

/// The row of the CI and CLI dependency table for a dependency of `version`.
pub open spec fn dependency_row(version: DependencyVersionView, latest: Seq<char>) -> (
    Boolean,
    Boolean,
    Seq<char>,
) {
    match version {
        DependencyVersionView::Supported(v) => {
            let (is_latest, needs_migration) = latest_status(version, latest);
            let message = match is_latest {
                Boolean::True => v,
                Boolean::False => v + " -> "@ + latest,
            };
            (is_latest, needs_migration, message)
        },
        DependencyVersionView::UnsupportedKeys(keys) => (
            Boolean::True,
            Boolean::False,
            "Unsupported "@ + (if keys.len() > 1 {
                "keys"@
            } else {
                "key"@
            }) + ": "@ + seq_join(keys, ", "@),
        ),
        DependencyVersionView::MissingRequired(fields) => (
            Boolean::True,
            Boolean::False,
            "Missing: "@ + seq_join(fields, ", "@),
        ),
        DependencyVersionView::UnsupportedValue(v) => (
            Boolean::True,
            Boolean::False,
            "Unsupported value: "@ + v,
        ),
    }
}

/// A dependency whose definition holds a `git`, `path`, `registry` or
/// `workspace` key is skipped: it is never mapped.
pub proof fn law_unsupported_definitions_are_skipped(key: Seq<char>, item: TomlItemView)
    ensures
        match item {
            TomlItemView::InlineTable(entries) => has_unsupported_key(
                entries.map_values(|e: (Seq<char>, TomlValueView)| e.0),
            ) ==> dependency_of(key, item) is None,
            TomlItemView::Table(entries) => has_unsupported_key(
                entries.map_values(|e: (Seq<char>, TomlTableEntryView)| e.0),
            ) ==> dependency_of(key, item) is None,
            _ => true,
        },
{
    match item {
        TomlItemView::InlineTable(entries) => {
            lemma_unsupported_keys_nonempty(
                entries.map_values(|e: (Seq<char>, TomlValueView)| e.0),
            );
        },
        TomlItemView::Table(entries) => {
            lemma_unsupported_keys_nonempty(
                entries.map_values(|e: (Seq<char>, TomlTableEntryView)| e.0),
            );
        },
        _ => {},
    }
}

/// A dependency defined without a `version` key is not mapped.
pub proof fn law_definitions_without_version_are_skipped(key: Seq<char>, item: TomlItemView)
    ensures
        match item {
            TomlItemView::InlineTable(entries) => (forall|i: int|
                0 <= i < entries.len() ==> entries[i].0 != "version"@) ==> dependency_of(
                key,
                item,
            ) is None,
            TomlItemView::Table(entries) => (forall|i: int|
                0 <= i < entries.len() ==> entries[i].0 != "version"@) ==> dependency_of(
                key,
                item,
            ) is None,
            _ => true,
        },
{
    match item {
        TomlItemView::InlineTable(entries) => {
            if forall|i: int| 0 <= i < entries.len() ==> entries[i].0 != "version"@ {
                lemma_first_match(entries, "version"@, entries.len() as int);
            }
        },
        TomlItemView::Table(entries) => {
            if forall|i: int| 0 <= i < entries.len() ==> entries[i].0 != "version"@ {
                lemma_first_match(entries, "version"@, entries.len() as int);
            }
        },
        _ => {},
    }
}

/// The unsupported keys of two key lists, one after the other, are those
/// of the first list and then those of the second.
pub proof fn law_unsupported_keys_concat(a: Seq<Seq<char>>, b: Seq<Seq<char>>)
    ensures
        unsupported_keys(a + b) == unsupported_keys(a) + unsupported_keys(b),
    decreases b.len(),
{
    if b.len() == 0 {
        assert(a + b =~= a);
        assert(unsupported_keys(a) + unsupported_keys(b) =~= unsupported_keys(a));
    } else {
        law_unsupported_keys_concat(a, b.drop_last());
        assert((a + b).drop_last() =~= a + b.drop_last());
        assert((a + b).last() == b.last());
        if is_unsupported_key(b.last()) {
            assert(unsupported_keys(a) + unsupported_keys(b.drop_last()).push(b.last()) =~= (
            unsupported_keys(a) + unsupported_keys(b.drop_last())).push(b.last()));
        }
    }
}

/// The keys that mark a definition as not served by crates.io are exactly
/// `git`, `path`, `registry` and `workspace`: an inline or table definition
/// holding any of them is never mapped, and one holding none of them whose
/// `version` is a SemVer requirement string is mapped with that version.
pub proof fn law_unsupported_key_names(key: Seq<char>, item: TomlItemView)
    ensures
        match item {
            TomlItemView::InlineTable(entries) => {
                &&& (exists|i: int|
                    0 <= i < entries.len() && (entries[i].0 == "git"@ || entries[i].0 == "path"@
                        || entries[i].0 == "registry"@ || entries[i].0 == "workspace"@))
                    ==> dependency_of(key, item) is None
                &&& forall|v: Seq<char>|
                    #![trigger semver_req_parse(v)]
                    (forall|i: int|
                        0 <= i < entries.len() ==> entries[i].0 != "git"@ && entries[i].0
                            != "path"@ && entries[i].0 != "registry"@ && entries[i].0
                            != "workspace"@) && first_match(entries, "version"@) == Some(
                        TomlValueView::Str(v),
                    ) && semver_req_parse(v) is Some ==> dependency_of(key, item) is Some
                        && version_of(dependency_of(key, item)->0)
                        == DependencyVersionView::Supported(v)
            },
            TomlItemView::Table(entries) => {
                &&& (exists|i: int|
                    0 <= i < entries.len() && (entries[i].0 == "git"@ || entries[i].0 == "path"@
                        || entries[i].0 == "registry"@ || entries[i].0 == "workspace"@))
                    ==> dependency_of(key, item) is None
                &&& forall|v: Seq<char>|
                    #![trigger semver_req_parse(v)]
                    (forall|i: int|
                        0 <= i < entries.len() ==> entries[i].0 != "git"@ && entries[i].0
                            != "path"@ && entries[i].0 != "registry"@ && entries[i].0
                            != "workspace"@) && first_match(entries, "version"@) == Some(
                        TomlTableEntryView::Value(TomlValueView::Str(v)),
                    ) && semver_req_parse(v) is Some ==> dependency_of(key, item) is Some
                        && version_of(dependency_of(key, item)->0)
                        == DependencyVersionView::Supported(v)
            },
            _ => true,
        },
{
    match item {
        TomlItemView::InlineTable(entries) => {
            let keys = entries.map_values(|e: (Seq<char>, TomlValueView)| e.0);
            lemma_unsupported_keys_nonempty(keys);
            if exists|i: int|
                0 <= i < entries.len() && (entries[i].0 == "git"@ || entries[i].0 == "path"@
                    || entries[i].0 == "registry"@ || entries[i].0 == "workspace"@) {
                let i = choose|i: int|
                    0 <= i < entries.len() && (entries[i].0 == "git"@ || entries[i].0 == "path"@
                        || entries[i].0 == "registry"@ || entries[i].0 == "workspace"@);
                assert(keys[i] == entries[i].0);
                assert(is_unsupported_key(keys[i]));
            }
            if forall|i: int|
                0 <= i < entries.len() ==> entries[i].0 != "git"@ && entries[i].0 != "path"@
                    && entries[i].0 != "registry"@ && entries[i].0 != "workspace"@ {
                assert forall|i: int| 0 <= i < keys.len() implies !is_unsupported_key(
                    #[trigger] keys[i],
                ) by {
                    assert(keys[i] == entries[i].0);
                }
            }
        },
        TomlItemView::Table(entries) => {
            let keys = entries.map_values(|e: (Seq<char>, TomlTableEntryView)| e.0);
            lemma_unsupported_keys_nonempty(keys);
            if exists|i: int|
                0 <= i < entries.len() && (entries[i].0 == "git"@ || entries[i].0 == "path"@
                    || entries[i].0 == "registry"@ || entries[i].0 == "workspace"@) {
                let i = choose|i: int|
                    0 <= i < entries.len() && (entries[i].0 == "git"@ || entries[i].0 == "path"@
                        || entries[i].0 == "registry"@ || entries[i].0 == "workspace"@);
                assert(keys[i] == entries[i].0);
                assert(is_unsupported_key(keys[i]));
            }
            if forall|i: int|
                0 <= i < entries.len() ==> entries[i].0 != "git"@ && entries[i].0 != "path"@
                    && entries[i].0 != "registry"@ && entries[i].0 != "workspace"@ {
                assert forall|i: int| 0 <= i < keys.len() implies !is_unsupported_key(
                    #[trigger] keys[i],
                ) by {
                    assert(keys[i] == entries[i].0);
                }
            }
        },
        _ => {},
    }
}

/// A declared requirement is the latest exactly when it names the latest
/// version: the same major, minor and patch numbers (a left-out minor or
/// patch counting as 0) and the same pre-release. Moving to the latest
/// needs a migration exactly when it is not the latest and the major
/// number changes, or, below 1.0, the minor number changes.
pub proof fn law_latest_and_migration(c: ReqComparatorView, l: SemVer)
    ensures
        latest_classification(Some(seq![c]), Some(l)).0 == Boolean::True <==> (c.major == l.major
            && match c.minor {
            Some(m) => m,
            None => 0u64,
        } == l.minor && match c.patch {
            Some(p) => p,
            None => 0u64,
        } == l.patch && c.pre == l.pre),
        latest_classification(Some(seq![c]), Some(l)).1 == Boolean::True <==> (
        latest_classification(Some(seq![c]), Some(l)).0 == Boolean::False && (c.major != l.major
            || (c.major == 0 && match c.minor {
            Some(m) => m,
            None => 0u64,
        } != l.minor))),
{
    assert(seq![c].len() == 1);
    assert(seq![c][0] == c);
}

/// Without a `package` key, a dependency's crates.io name is the key it is
/// declared under.
pub proof fn law_package_defaults_to_key(key: Seq<char>, item: TomlItemView)
    ensures
        dependency_of(key, item) is Some && match item {
            TomlItemView::InlineTable(entries) => forall|i: int|
                0 <= i < entries.len() ==> entries[i].0 != "package"@,
            TomlItemView::Table(entries) => forall|i: int|
                0 <= i < entries.len() ==> entries[i].0 != "package"@,
            _ => true,
        } ==> package_of(dependency_of(key, item)->0) == key,
{
    match item {
        TomlItemView::InlineTable(entries) => {
            if forall|i: int| 0 <= i < entries.len() ==> entries[i].0 != "package"@ {
                lemma_first_match(entries, "package"@, entries.len() as int);
            }
        },
        TomlItemView::Table(entries) => {
            if forall|i: int| 0 <= i < entries.len() ==> entries[i].0 != "package"@ {
                lemma_first_match(entries, "package"@, entries.len() as int);
            }
        },
        _ => {},
    }
}

/// Every version that is not a supported version requirement counts as the
/// latest and needs no migration.
pub proof fn law_invalid_versions_need_no_migration(
    version: DependencyVersionView,
    latest: Seq<char>,
)
    ensures
        !(version is Supported) ==> dependency_row(version, latest).0 == Boolean::True
            && dependency_row(version, latest).1 == Boolean::False,
{
}

/// The keys of `entries`, in order.
fn keys_of<V>(entries: &Vec<(String, V)>) -> (keys: Vec<String>)
    ensures
        keys@.map_values(|k: String| k@) == entries@.map_values(|e: (String, V)| e.0@),
{
    let mut keys: Vec<String> = Vec::new();
    let mut i: usize = 0;
    while i < entries.len()
        invariant
            i <= entries.len(),
            keys.len() == i,
            forall|j: int| 0 <= j < i ==> #[trigger] keys@[j]@ == entries@[j].0@,
        decreases entries.len() - i,
    {
        let k = entries[i].0.clone();
        keys.push(k);
        i = i + 1;
    }
    assert(keys@.map_values(|k: String| k@) =~= entries@.map_values(|e: (String, V)| e.0@));
    keys
}

/// `key` is one of `git`, `path`, `registry` and `workspace`.
fn is_unsupported_key_exec(key: &str) -> (unsupported: bool)
    ensures
        unsupported == is_unsupported_key(key@),
{
    str_equal(key, "git") || str_equal(key, "path") || str_equal(key, "registry") || str_equal(
        key,
        "workspace",
    )
}

impl DependencyEntry {
    /// Entry function for parsing the dependency.
    ///
    /// This function internally handles all possible schemas.
    /// If a schema is not supported or wrongly defined (e.g. no version key)
    /// it returns `None` so that it does not get mapped.
    ///
    /// * Only dependencies which are downloadable and updateable from crates.io are supported.
    /// * At least the version needs to be defined as a semver supported string.
    pub fn new(key: &str, item: &TomlItem) -> (entry: Option<Self>)
        ensures
            entry is Some == dependency_of(key@, item@) is Some,
            entry is Some ==> entry->0@ == dependency_of(key@, item@)->0,
    {
        match item {
            TomlItem::Value(val) => match val {
                TomlValue::Str(_) => Self::keep_supported(
                    Self::Simple(
                        SimpleDependency {
                            toml_key: owned(key),
                            version: Self::validate_version_definition(val),
                        },
                    ),
                ),
                TomlValue::Other(_) => None,
            },
            TomlItem::InlineTable(inline) => Self::keep_supported(Self::parse_inline(key, inline)),
            TomlItem::Table(table) => Self::keep_supported(Self::parse_table(key, table)),
            TomlItem::Other => None,
        }
    }

    /// The entry, where its version is a version requirement string.
    fn keep_supported(entry: Self) -> (kept: Option<Self>)
        ensures
            kept == (if is_semver_requirement(version_of(entry@)) {
                Some(entry)
            } else {
                None
            }),
    {
        let readable = match entry.version() {
            DependencyVersion::Supported(v) => parse_version_req(v.as_str()).is_some(),
            _ => false,
        };
        if readable {
            Some(entry)
        } else {
            None
        }
    }

    /// Parses an inline dependency definition:
    /// `web-sys = { version = "0.3", features = [...] }`
    fn parse_inline(key: &str, item: &Vec<(String, TomlValue)>) -> (entry: Self)
        ensures
            entry@ == (DependencyEntryView::Inline {
                toml_key: key@,
                package: inline_package(item@.map_values(|e: (String, TomlValue)| (e.0@, e.1@)), key@),
                version: inline_version(item@.map_values(|e: (String, TomlValue)| (e.0@, e.1@))),
            }),
    {
        let ghost view = item@.map_values(|e: (String, TomlValue)| (e.0@, e.1@));
        let keys = keys_of(item);
        assert(keys@.map_values(|k: String| k@) =~= view.map_values(
            |e: (Seq<char>, TomlValueView)| e.0,
        ));
        let found_version = find_first(item, "version");
        proof {
            match found_version {
                Some(i) => lemma_first_match(view, "version"@, i as int),
                None => lemma_first_match(view, "version"@, view.len() as int),
            }
        }
        let version = match Self::is_unsupported(&keys) {
            Some(def) => def,
            None => Self::validate_version_key(
                match found_version {
                    Some(i) => Some(&item[i].1),
                    None => None,
                },
            ),
        };
        let found_package = find_first(item, "package");
        proof {
            match found_package {
                Some(i) => lemma_first_match(view, "package"@, i as int),
                None => lemma_first_match(view, "package"@, view.len() as int),
            }
        }
        let package = match found_package {
            Some(i) => match &item[i].1 {
                TomlValue::Str(p) => p.clone(),
                TomlValue::Other(_) => owned(key),
            },
            None => owned(key),
        };
        Self::Inline(InlineDependency { toml_key: owned(key), package, version })
    }

    /// Parses a table dependency definition:
    /// `[dependencies.my_serde]` with `version = "3.0.0"` and `package = "serde"`
    fn parse_table(key: &str, table: &Vec<(String, TomlTableEntry)>) -> (entry: Self)
        ensures
            entry@ == (DependencyEntryView::Table {
                toml_key: key@,
                package: table_package(
                    table@.map_values(|e: (String, TomlTableEntry)| (e.0@, e.1@)),
                    key@,
                ),
                version: table_version(table@.map_values(|e: (String, TomlTableEntry)| (e.0@, e.1@))),
            }),
    {
        let ghost view = table@.map_values(|e: (String, TomlTableEntry)| (e.0@, e.1@));
        let keys = keys_of(table);
        assert(keys@.map_values(|k: String| k@) =~= view.map_values(
            |e: (Seq<char>, TomlTableEntryView)| e.0,
        ));
        let found_version = find_first(table, "version");
        proof {
            match found_version {
                Some(i) => lemma_first_match(view, "version"@, i as int),
                None => lemma_first_match(view, "version"@, view.len() as int),
            }
        }
        let version = match Self::is_unsupported(&keys) {
            Some(def) => def,
            None => Self::validate_version_key(
                match found_version {
                    Some(i) => match &table[i].1 {
                        TomlTableEntry::Value(v) => Some(v),
                        TomlTableEntry::NonValue => None,
                    },
                    None => None,
                },
            ),
        };
        let found_package = find_first(table, "package");
        proof {
            match found_package {
                Some(i) => lemma_first_match(view, "package"@, i as int),
                None => lemma_first_match(view, "package"@, view.len() as int),
            }
        }
        let package = match found_package {
            Some(i) => match &table[i].1 {
                TomlTableEntry::Value(TomlValue::Str(p)) => p.clone(),
                _ => owned(key),
            },
            None => owned(key),
        };
        Self::Table(TableDependency { toml_key: owned(key), package, version })
    }

    /// Validates that the keys do not include an unsupported dependency
    /// definition (git, path, ...).
    fn is_unsupported(keys: &Vec<String>) -> (unsupported: Option<DependencyVersion>)
        ensures
            match unsupported {
                Some(v) => unsupported_keys(keys@.map_values(|k: String| k@)).len() > 0 && v@
                    == DependencyVersionView::UnsupportedKeys(
                    unsupported_keys(keys@.map_values(|k: String| k@)),
                ),
                None => unsupported_keys(keys@.map_values(|k: String| k@)).len() == 0,
            },
    {
        let ghost views = keys@.map_values(|k: String| k@);
        let mut unsupported_list: Vec<String> = Vec::new();
        let mut i: usize = 0;
        while i < keys.len()
            invariant
                i <= keys.len(),
                views == keys@.map_values(|k: String| k@),
                unsupported_list@.map_values(|k: String| k@) == unsupported_keys(
                    views.take(i as int),
                ),
            decreases keys.len() - i,
        {
            assert(views.take(i + 1).drop_last() =~= views.take(i as int));
            if is_unsupported_key_exec(keys[i].as_str()) {
                unsupported_list.push(keys[i].clone());
                assert(unsupported_list@.map_values(|k: String| k@) =~= unsupported_keys(
                    views.take(i as int),
                ).push(views[i as int]));
            }
            i = i + 1;
        }
        assert(views.take(keys.len() as int) =~= views);
        if unsupported_list.len() != 0 {
            assert(unsupported_list.deep_view() =~= unsupported_list@.map_values(|k: String| k@));
            Some(DependencyVersion::UnsupportedKeys { keys: unsupported_list })
        } else {
            None
        }
    }

    /// Validates that the key `version` is present in the definition.
    fn validate_version_key(key: Option<&TomlValue>) -> (version: DependencyVersion)
        ensures
            version@ == match key {
                Some(v) => version_of_value(v@),
                None => missing_version(),
            },
    {
        match key {
            Some(v) => Self::validate_version_definition(v),
            None => {
                let fields = vec![owned("version")];
                assert(fields.deep_view() =~= seq!["version"@]);
                DependencyVersion::MissingRequired { fields }
            },
        }
    }

    /// Validates that the version value is supported (a string).
    fn validate_version_definition(value: &TomlValue) -> (version: DependencyVersion)
        ensures
            version@ == version_of_value(value@),
    {
        match value {
            TomlValue::Str(s) => DependencyVersion::Supported(s.clone()),
            TomlValue::Other(rendered) => DependencyVersion::UnsupportedValue(rendered.clone()),
        }
    }

    /// Returns the dependency name (on crates.io).
    pub fn package(&self) -> (package: &str)
        ensures
            package@ == package_of(self@),
    {
        match self {
            Self::Simple(d) => d.toml_key.as_str(),
            Self::Inline(d) => d.package.as_str(),
            Self::Table(d) => d.package.as_str(),
        }
    }

    /// Returns the key of a dependency defined in Cargo.toml.
    pub fn toml_key(&self) -> (toml_key: &str)
        ensures
            toml_key@ == toml_key_of(self@),
    {
        match self {
            Self::Simple(d) => d.toml_key.as_str(),
            Self::Inline(d) => d.toml_key.as_str(),
            Self::Table(d) => d.toml_key.as_str(),
        }
    }

    /// Returns the version value based on the DependencyVersion enum.
    pub fn version(&self) -> (version: &DependencyVersion)
        ensures
            version@ == version_of(self@),
    {
        match self {
            Self::Simple(d) => &d.version,
            Self::Inline(d) => &d.version,
            Self::Table(d) => &d.version,
        }
    }

    /// Returns the values needed for the dependency row inside the CI and the CLI:
    /// `(is_latest, needs_migration, message)`.
    pub fn get_dependency_row_valus(&self, latest: String) -> (row: DependecyRow)
        ensures
            (row.0, row.1, row.2@) == dependency_row(version_of(self@), latest@),
    {
        let version = self.version();
        match version {
            DependencyVersion::Supported(v) => {
                let (is_latest, needs_migration) = self.check_if_latest(latest.as_str());
                let message = match &is_latest {
                    Boolean::True => v.clone(),
                    Boolean::False => {
                        let mut m = v.clone();
                        m.append(" -> ");
                        m.append(latest.as_str());
                        m
                    },
                };
                (is_latest, needs_migration, message)
            },
            // All invalid versions are latest by default and do not need a dependency migration.
            DependencyVersion::UnsupportedKeys { keys } => {
                let key_string = if keys.len() > 1 {
                    "keys"
                } else {
                    "key"
                };
                let mut m = owned("Unsupported ");
                m.append(key_string);
                m.append(": ");
                let joined = join_strings(keys, ", ");
                m.append(joined.as_str());
                (Boolean::True, Boolean::False, m)
            },
            DependencyVersion::MissingRequired { fields } => {
                let mut m = owned("Missing: ");
                let joined = join_strings(fields, ", ");
                m.append(joined.as_str());
                (Boolean::True, Boolean::False, m)
            },
            DependencyVersion::UnsupportedValue(v) => {
                let mut m = owned("Unsupported value: ");
                m.append(v.as_str());
                (Boolean::True, Boolean::False, m)
            },
        }
    }

    /// Checks if the current version is the latest and, if not, whether the
    /// latest could need a migration: `(is_latest, needs_migration)`.
    pub fn check_if_latest(&self, latest: &str) -> (status: (Boolean, Boolean))
        ensures
            status == latest_status(version_of(self@), latest@),
    {
        match self.version() {
            DependencyVersion::Supported(v) => {
                let declared = parse_version_req(v.as_str());
                let latest_version = SemVersion::parse(latest);
                classify_latest(&declared, &latest_version)
            },
            _ => (Boolean::True, Boolean::False),
        }
    }
}

/// The table name of a target dependency kind.
pub open spec fn kind_table_name(kind: TargetDepKind) -> Seq<char> {
    match kind {
        TargetDepKind::Normal => "dependencies"@,
        TargetDepKind::Dev => "dev-dependencies"@,
        TargetDepKind::Build => "build-dependencies"@,
    }
}

/// The dotted name of a section, as its table header writes it.
pub open spec fn section_name(section: DependencySection) -> Seq<char>
    decreases section,
{
    match section {
        DependencySection::Normal => "dependencies"@,
        DependencySection::Dev => "dev-dependencies"@,
        DependencySection::Build => "build-dependencies"@,
        DependencySection::Workspace => "workspace.dependencies"@,
        DependencySection::Target { target, kind } => "target."@ + target@ + "."@ + kind_table_name(
            kind,
        ),
        DependencySection::Table { parent, toml_key } => section_name(*parent) + "."@ + toml_key@,
    }
}

/// The keys indexed from the document root to reach the section's table.
pub open spec fn root_keys(section: DependencySection) -> Seq<Seq<char>>
    decreases section,
{
    match section {
        DependencySection::Normal => seq!["dependencies"@],
        DependencySection::Dev => seq!["dev-dependencies"@],
        DependencySection::Build => seq!["build-dependencies"@],
        DependencySection::Workspace => seq!["workspace"@, "dependencies"@],
        DependencySection::Target { target, kind } => seq!["target"@, target@, kind_table_name(kind)],
        DependencySection::Table { parent, .. } => root_keys(*parent),
    }
}

/// The message when the item reached through the root keys is no table.
pub open spec fn root_error(section: DependencySection) -> Seq<char>
    decreases section,
{
    match section {
        DependencySection::Normal => "no dependencies table"@,
        DependencySection::Dev => "no dev-dependencies table"@,
        DependencySection::Build => "no build-dependencies table"@,
        DependencySection::Workspace => "no workspace dependencies"@,
        DependencySection::Target { .. } => "no target table"@,
        DependencySection::Table { parent, .. } => root_error(*parent),
    }
}

/// The keys then looked up inside that table, each with the message for
/// a missing entry or one that is no table.
pub open spec fn nested_keys(section: DependencySection) -> Seq<(Seq<char>, Seq<char>)>
    decreases section,
{
    match section {
        DependencySection::Table { parent, toml_key } => nested_keys(*parent).push(
            (toml_key@, "table section "@ + toml_key@ + " not found"@),
        ),
        _ => Seq::empty(),
    }
}

/// All keys that lead to the section's table, from the document root.
pub open spec fn table_path(section: DependencySection) -> Seq<Seq<char>> {
    root_keys(section) + nested_keys(section).map_values(|e: (Seq<char>, Seq<char>)| e.0)
}

/// The exclusion key of a section is its table header: the keys that lead
/// to its table in a manifest, joined by dots (`dependencies.clap` for
/// `[dependencies.clap]`).
pub proof fn law_section_name_is_table_path(section: DependencySection)
    ensures
        section_name(section) == seq_join(table_path(section), "."@),
    decreases section,
{
    reveal_strlit(".");
    match section {
        DependencySection::Table { parent, toml_key } => {
            law_section_name_is_table_path(*parent);
            let x = table_path(*parent);
            let y = table_path(section);
            lemma_root_keys_nonempty(*parent);
            assert(y =~= x.push(toml_key@));
            assert(y.drop_last() =~= x);
            assert(y.len() >= 2);
            assert(seq_join(y, "."@) == seq_join(x, "."@) + "."@ + toml_key@);
            assert(section_name(section) == section_name(*parent) + "."@ + toml_key@);
            assert(section_name(*parent) == seq_join(x, "."@));
            assert(section_name(section) == seq_join(y, "."@));
        },
        DependencySection::Target { target, kind } => {
            reveal_strlit("target.");
            reveal_strlit("target");
            let y = table_path(section);
            assert(y =~= seq!["target"@, target@, kind_table_name(kind)]);
            assert(y.drop_last() =~= seq!["target"@, target@]);
            assert(y.drop_last().drop_last() =~= seq!["target"@]);
            assert(seq_join(y.drop_last().drop_last(), "."@) == "target"@);
            assert(seq_join(y.drop_last(), "."@) == "target"@ + "."@ + target@);
            assert(seq_join(y, "."@) == "target"@ + "."@ + target@ + "."@ + kind_table_name(kind));
            assert("target."@ =~= "target"@ + "."@);
            assert(section_name(section) =~= seq_join(y, "."@));
        },
        DependencySection::Workspace => {
            reveal_strlit("workspace.dependencies");
            reveal_strlit("workspace");
            reveal_strlit("dependencies");
            let y = table_path(section);
            assert(y =~= seq!["workspace"@, "dependencies"@]);
            assert(y.drop_last() =~= seq!["workspace"@]);
            assert(seq_join(y.drop_last(), "."@) == "workspace"@);
            assert(seq_join(y, "."@) == "workspace"@ + "."@ + "dependencies"@);
            assert("workspace.dependencies"@ =~= "workspace"@ + "."@ + "dependencies"@);
        },
        _ => {
            let y = table_path(section);
            assert(y =~= root_keys(section));
            assert(y.len() == 1);
            assert(section_name(section) == y[0]);
        },
    }
}

/// A target section is the plain section of its kind under
/// `target.<target>`: its name is `target.`, the target, a dot and the
/// plain section's name, and its table is reached through the three keys
/// `target`, the target and the plain section's key.
pub proof fn law_target_sections(target: String, kind: TargetDepKind)
    ensures
        match kind {
            TargetDepKind::Normal => section_name(DependencySection::Target { target, kind })
                == "target."@ + target@ + "."@ + section_name(DependencySection::Normal) && root_keys(
                DependencySection::Target { target, kind },
            ) == seq!["target"@, target@] + root_keys(DependencySection::Normal),
            TargetDepKind::Dev => section_name(DependencySection::Target { target, kind })
                == "target."@ + target@ + "."@ + section_name(DependencySection::Dev) && root_keys(
                DependencySection::Target { target, kind },
            ) == seq!["target"@, target@] + root_keys(DependencySection::Dev),
            TargetDepKind::Build => section_name(DependencySection::Target { target, kind })
                == "target."@ + target@ + "."@ + section_name(DependencySection::Build) && root_keys(
                DependencySection::Target { target, kind },
            ) == seq!["target"@, target@] + root_keys(DependencySection::Build),
        },
        root_keys(DependencySection::Target { target, kind }).len() == 3,
        root_keys(DependencySection::Target { target, kind })[0] == "target"@,
        root_keys(DependencySection::Target { target, kind })[1] == target@,
        nested_keys(DependencySection::Target { target, kind }).len() == 0,
{
    let s = DependencySection::Target { target, kind };
    match kind {
        TargetDepKind::Normal => {
            assert(root_keys(s) =~= seq!["target"@, target@] + root_keys(DependencySection::Normal));
        },
        TargetDepKind::Dev => {
            assert(root_keys(s) =~= seq!["target"@, target@] + root_keys(DependencySection::Dev));
        },
        TargetDepKind::Build => {
            assert(root_keys(s) =~= seq!["target"@, target@] + root_keys(DependencySection::Build));
        },
    }
}

/// A table section (`[<parent>.<key>]`) is reached through its parent's
/// root keys, then its parent's nested keys, then its own key.
pub proof fn law_table_sections(parent: DependencySection, toml_key: String)
    ensures
        root_keys(DependencySection::Table { parent: Box::new(parent), toml_key }) == root_keys(
            parent,
        ),
        nested_keys(DependencySection::Table { parent: Box::new(parent), toml_key }).len()
            == nested_keys(parent).len() + 1,
        nested_keys(DependencySection::Table { parent: Box::new(parent), toml_key }).last().0
            == toml_key@,
        section_name(DependencySection::Table { parent: Box::new(parent), toml_key })
            == section_name(parent) + "."@ + toml_key@,
{
}

proof fn lemma_root_keys_nonempty(section: DependencySection)
    ensures
        root_keys(section).len() >= 1,
    decreases section,
{
    if let DependencySection::Table { parent, .. } = section {
        lemma_root_keys_nonempty(*parent);
    }
}

/// How to reach the table of a section in a manifest: index `root_keys` one
/// after another from the document root, as the manifest editor's indexing
/// does; fail with `root_error` where the item reached is no table; then
/// look up each key of `nested` in turn (without inserting), failing with
/// its message where the entry is missing or no table.
#[derive(Debug, Clone, PartialEq, Eq)]
pub struct TableLookup {
    pub root_keys: Vec<String>,
    pub root_error: String,
    pub nested: Vec<(String, String)>,
}

impl DependencySection {
    /// The dotted section name, such as `dev-dependencies` or
    /// `dependencies.clap`, under which a project's exclusions are kept.
    pub fn to_string(&self) -> (name: String)
        ensures
            name@ == section_name(*self),
        decreases self,
    {
        match self {
            DependencySection::Normal => owned("dependencies"),
            DependencySection::Dev => owned("dev-dependencies"),
            DependencySection::Build => owned("build-dependencies"),
            DependencySection::Workspace => owned("workspace.dependencies"),
            DependencySection::Target { target, kind } => {
                let mut name = owned("target.");
                name.append(target.as_str());
                name.append(".");
                name.append(kind_name(*kind));
                name
            },
            DependencySection::Table { parent, toml_key } => {
                let mut name = parent.to_string();
                name.append(".");
                name.append(toml_key.as_str());
                name
            },
        }
    }

    /// The steps that lead to the section's table in a manifest.
    pub fn table_lookup(&self) -> (lookup: TableLookup)
        ensures
            lookup.root_keys.deep_view() == root_keys(*self),
            lookup.root_error@ == root_error(*self),
            lookup.nested@.map_values(|e: (String, String)| (e.0@, e.1@)) == nested_keys(*self),
        decreases self,
    {
        match self {
            DependencySection::Normal => single_root("dependencies", "no dependencies table"),
            DependencySection::Dev => single_root("dev-dependencies", "no dev-dependencies table"),
            DependencySection::Build => single_root(
                "build-dependencies",
                "no build-dependencies table",
            ),
            DependencySection::Workspace => {
                let root_keys = vec![owned("workspace"), owned("dependencies")];
                let nested: Vec<(String, String)> = Vec::new();
                let lookup = TableLookup {
                    root_keys,
                    root_error: owned("no workspace dependencies"),
                    nested,
                };
                assert(lookup.root_keys.deep_view() =~= seq!["workspace"@, "dependencies"@]);
                assert(lookup.nested@.map_values(|e: (String, String)| (e.0@, e.1@)) =~= Seq::<
                    (Seq<char>, Seq<char>),
                >::empty());
                lookup
            },
            DependencySection::Target { target, kind } => {
                let root_keys = vec![owned("target"), target.clone(), owned(kind_name(*kind))];
                let nested: Vec<(String, String)> = Vec::new();
                let lookup = TableLookup { root_keys, root_error: owned("no target table"), nested };
                assert(lookup.root_keys.deep_view() =~= seq![
                    "target"@,
                    target@,
                    kind_table_name(*kind),
                ]);
                assert(lookup.nested@.map_values(|e: (String, String)| (e.0@, e.1@)) =~= Seq::<
                    (Seq<char>, Seq<char>),
                >::empty());
                lookup
            },
            DependencySection::Table { parent, toml_key } => {
                let mut lookup = parent.table_lookup();
                let ghost before = lookup.nested@;
                let mut message = owned("table section ");
                message.append(toml_key.as_str());
                message.append(" not found");
                lookup.nested.push((toml_key.clone(), message));
                assert(lookup.nested@.map_values(|e: (String, String)| (e.0@, e.1@)) =~= before.map_values(
                    |e: (String, String)| (e.0@, e.1@),
                ).push((toml_key@, "table section "@ + toml_key@ + " not found"@)));
                lookup
            },
        }
    }
}

/// The table name of a target dependency kind.
fn kind_name(kind: TargetDepKind) -> (name: &'static str)
    ensures
        name@ == kind_table_name(kind),
{
    match kind {
        TargetDepKind::Normal => "dependencies",
        TargetDepKind::Dev => "dev-dependencies",
        TargetDepKind::Build => "build-dependencies",
    }
}

/// A lookup of a single key from the root.
fn single_root(key: &str, error: &str) -> (lookup: TableLookup)
    ensures
        lookup.root_keys.deep_view() == seq![key@],
        lookup.root_error@ == error@,
        lookup.nested@.len() == 0,
{
    let root_keys = vec![owned(key)];
    let nested: Vec<(String, String)> = Vec::new();
    let lookup = TableLookup { root_keys, root_error: owned(error), nested };
    assert(lookup.root_keys.deep_view() =~= seq![key@]);
    lookup
}

/// A project of the workspace with its dependencies by section.
pub struct Projects {
    pub name: String,
    pub path: String,
    pub deps: HashMap<DependencySection, HashMap<String, DependencyEntry>>,
    pub config: ProjectConfig,
}

/// The projects of a workspace and the dependencies collected over them.
pub struct Workspace {
    pub projects: Vec<Projects>,
    pub collected_deps: HashMap<String, Option<String>>,
}

} // verus!
