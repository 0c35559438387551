use rrdu::globals::{
    Boolean, DependencyEntry, DependencySection, DependencyVersion, SimpleDependency,
};
use rrdu::workspace::project::{TomlItem, TomlTableEntry, TomlValue};

fn s(text: &str) -> String {
    text.to_string()
}

#[test]
fn simple_string_dependency_is_supported() {
    let entry = DependencyEntry::new("colored", &TomlItem::Value(TomlValue::Str(s("3.1.1")))).unwrap();
    assert_eq!(entry.package(), "colored");
    assert_eq!(entry.toml_key(), "colored");
    assert_eq!(entry.version(), &DependencyVersion::Supported(s("3.1.1")));
    assert!(matches!(entry, DependencyEntry::Simple(_)));
}

#[test]
fn unsupported_item_shapes_are_skipped() {
    assert_eq!(
        DependencyEntry::new("x", &TomlItem::Value(TomlValue::Other(s("5")))),
        None
    );
    assert_eq!(DependencyEntry::new("x", &TomlItem::Other), None);
}

#[test]
fn inline_dependency_with_package_and_version() {
    let item = TomlItem::InlineTable(vec![
        (s("version"), TomlValue::Str(s("0.3"))),
        (s("features"), TomlValue::Other(s("[\"a\"]"))),
        (s("package"), TomlValue::Str(s("web-sys"))),
    ]);
    let entry = DependencyEntry::new("web", &item).unwrap();
    assert!(matches!(entry, DependencyEntry::Inline(_)));
    assert_eq!(entry.toml_key(), "web");
    assert_eq!(entry.package(), "web-sys");
    assert_eq!(entry.version(), &DependencyVersion::Supported(s("0.3")));
}

#[test]
fn inline_dependency_without_version_is_not_mapped() {
    let item = TomlItem::InlineTable(vec![(s("features"), TomlValue::Other(s("[]")))]);
    assert_eq!(DependencyEntry::new("serde", &item), None);
}

#[test]
fn inline_dependency_with_git_and_path_is_not_mapped() {
    let item = TomlItem::InlineTable(vec![
        (s("path"), TomlValue::Str(s("../x"))),
        (s("version"), TomlValue::Str(s("1.0"))),
        (s("git"), TomlValue::Str(s("https://example.com/x"))),
    ]);
    assert_eq!(DependencyEntry::new("x", &item), None);
}

#[test]
fn inline_dependency_with_non_string_version_is_not_mapped() {
    let item = TomlItem::InlineTable(vec![(s("version"), TomlValue::Other(s("1")))]);
    assert_eq!(DependencyEntry::new("x", &item), None);
}

#[test]
fn inline_dependency_without_package_uses_its_key() {
    let item = TomlItem::InlineTable(vec![(s("version"), TomlValue::Str(s("1.0")))]);
    let entry = DependencyEntry::new("serde", &item).unwrap();
    assert_eq!(entry.package(), "serde");
}

#[test]
fn table_dependency_reads_version_and_package() {
    let item = TomlItem::Table(vec![
        (s("version"), TomlTableEntry::Value(TomlValue::Str(s("3.0.0")))),
        (s("package"), TomlTableEntry::Value(TomlValue::Str(s("serde")))),
    ]);
    let entry = DependencyEntry::new("my_serde", &item).unwrap();
    assert!(matches!(entry, DependencyEntry::Table(_)));
    assert_eq!(entry.toml_key(), "my_serde");
    assert_eq!(entry.package(), "serde");
    assert_eq!(entry.version(), &DependencyVersion::Supported(s("3.0.0")));
}

#[test]
fn table_dependency_with_sub_table_version_is_not_mapped() {
    let item = TomlItem::Table(vec![
        (s("version"), TomlTableEntry::NonValue),
        (s("package"), TomlTableEntry::Value(TomlValue::Other(s("1")))),
    ]);
    assert_eq!(DependencyEntry::new("dep", &item), None);
}

#[test]
fn table_dependency_from_workspace_is_not_mapped() {
    let item = TomlItem::Table(vec![(
        s("workspace"),
        TomlTableEntry::Value(TomlValue::Other(s("true"))),
    )]);
    assert_eq!(DependencyEntry::new("dep", &item), None);
}

#[test]
fn table_dependency_with_non_string_package_uses_its_key() {
    let item = TomlItem::Table(vec![
        (s("version"), TomlTableEntry::Value(TomlValue::Str(s("1")))),
        (s("package"), TomlTableEntry::Value(TomlValue::Other(s("1")))),
    ]);
    let entry = DependencyEntry::new("dep", &item).unwrap();
    assert_eq!(entry.package(), "dep");
}

fn simple(key: &str, version: DependencyVersion) -> DependencyEntry {
    DependencyEntry::Simple(SimpleDependency { toml_key: s(key), version })
}

#[test]
fn dependency_rows() {
    let outdated = simple("a", DependencyVersion::Supported(s("1.0")));
    assert_eq!(
        outdated.get_dependency_row_valus(s("2.0.0")),
        (Boolean::False, Boolean::True, s("1.0 -> 2.0.0"))
    );
    let compatible = simple("a", DependencyVersion::Supported(s("1.0")));
    assert_eq!(
        compatible.get_dependency_row_valus(s("1.4.2")),
        (Boolean::False, Boolean::False, s("1.0 -> 1.4.2"))
    );
    let latest = simple("a", DependencyVersion::Supported(s("1.4.2")));
    assert_eq!(
        latest.get_dependency_row_valus(s("1.4.2")),
        (Boolean::True, Boolean::False, s("1.4.2"))
    );

    let one_key = simple("b", DependencyVersion::UnsupportedKeys { keys: vec![s("git")] });
    assert_eq!(
        one_key.get_dependency_row_valus(s("2.0")),
        (Boolean::True, Boolean::False, s("Unsupported key: git"))
    );

    let two_keys = simple(
        "c",
        DependencyVersion::UnsupportedKeys { keys: vec![s("git"), s("registry")] },
    );
    assert_eq!(
        two_keys.get_dependency_row_valus(s("2.0")),
        (Boolean::True, Boolean::False, s("Unsupported keys: git, registry"))
    );

    let missing = simple("d", DependencyVersion::MissingRequired { fields: vec![s("version")] });
    assert_eq!(
        missing.get_dependency_row_valus(s("2.0")),
        (Boolean::True, Boolean::False, s("Missing: version"))
    );

    let bad_value = simple("e", DependencyVersion::UnsupportedValue(s("1")));
    assert_eq!(
        bad_value.get_dependency_row_valus(s("2.0")),
        (Boolean::True, Boolean::False, s("Unsupported value: 1"))
    );
}

#[test]
fn check_if_latest_follows_semver_rules() {
    let serde = simple("serde", DependencyVersion::Supported(s("1.2.0")));
    assert_eq!(serde.check_if_latest("1.2.0"), (Boolean::True, Boolean::False));
    let clap = simple("clap", DependencyVersion::Supported(s("1.8.0")));
    assert_eq!(clap.check_if_latest("2.0.0"), (Boolean::False, Boolean::True));
    assert_eq!(clap.check_if_latest("1.9.1"), (Boolean::False, Boolean::False));
    let pre = simple("x", DependencyVersion::Supported(s("0.12.5")));
    assert_eq!(pre.check_if_latest("0.20.0"), (Boolean::False, Boolean::True));
    let patch = simple("x", DependencyVersion::Supported(s("~0.5.3")));
    assert_eq!(patch.check_if_latest("0.5.4"), (Boolean::False, Boolean::False));
    let caret = simple("x", DependencyVersion::Supported(s("^3.1")));
    assert_eq!(caret.check_if_latest("3.1.0"), (Boolean::True, Boolean::False));
    assert_eq!(caret.check_if_latest("not a version"), (Boolean::False, Boolean::False));
    let range = simple("x", DependencyVersion::Supported(s(">=1.2, <1.5")));
    assert_eq!(range.check_if_latest("1.4.0"), (Boolean::False, Boolean::False));
    let invalid = simple("x", DependencyVersion::MissingRequired { fields: vec![s("version")] });
    assert_eq!(invalid.check_if_latest("1.0.0"), (Boolean::True, Boolean::False));
}

#[test]
fn table_lookup_steps() {
    let lookup = DependencySection::Workspace.table_lookup();
    assert_eq!(lookup.root_keys, vec![s("workspace"), s("dependencies")]);
    assert_eq!(lookup.root_error, "no workspace dependencies");
    assert!(lookup.nested.is_empty());

    let table = DependencySection::Table {
        parent: Box::new(DependencySection::Dev),
        toml_key: s("clap"),
    };
    let lookup = table.table_lookup();
    assert_eq!(lookup.root_keys, vec![s("dev-dependencies")]);
    assert_eq!(lookup.root_error, "no dev-dependencies table");
    assert_eq!(lookup.nested, vec![(s("clap"), s("table section clap not found"))]);
    assert_eq!(table.clone(), table);
}

#[test]
fn dependency_with_non_semver_version_is_not_mapped() {
    assert_eq!(
        DependencyEntry::new("x", &TomlItem::Value(TomlValue::Str(s("abc")))),
        None
    );
    let item = TomlItem::InlineTable(vec![(s("version"), TomlValue::Str(s("1.x.y.z")))]);
    assert_eq!(DependencyEntry::new("x", &item), None);
    let item = TomlItem::Table(vec![(
        s("version"),
        TomlTableEntry::Value(TomlValue::Str(s("not a version"))),
    )]);
    assert_eq!(DependencyEntry::new("x", &item), None);
    assert!(DependencyEntry::new("x", &TomlItem::Value(TomlValue::Str(s("^1.2")))).is_some());
}
