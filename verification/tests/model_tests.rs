use rrdu::config::model::{
    check_config_compatibility, get_rrdu_version, ConfigCompatibility, ExcludeArea,
    ProjectConfig, RrduConfig, SubConfig, UpdaterConfig,
};
use rrdu::config::section_map::SectionExcludes;
use rrdu::config::version::{SemVersion, VersionOrder};
use rrdu::config::ConfigError;
use rrdu::globals::{DependencySection, TargetDepKind};
use rrdu::workspace::discovery::Discovery;

#[test]
fn test_validate_path_valid_relative_paths() {
    let valid_paths = [
        "./",
        "./Cargo.toml",
        "./crates/my_crate",
        "crates/sub_project/Cargo.toml",
        "sub_project",
    ];

    for path in valid_paths {
        let project = ProjectConfig::new("test".to_string(), path.to_string());
        assert!(
            project.validate_project_path(),
            "Expected valid path '{path}' to pass validation"
        );
    }
}

#[test]
fn test_validate_path_rejects_parent_traversal() {
    let traversal_paths = [
        "../",
        "../Cargo.toml",
        "./crates/../../secret",
        "crates/../..",
        "crates/sub/../../../etc",
    ];

    for path in traversal_paths {
        let project = ProjectConfig::new("test".to_string(), path.to_string());
        assert!(
            !project.validate_project_path(),
            "Expected traversal path '{path}' to fail validation"
        );
    }
}

#[test]
fn model_test_validate_path_rejects_root_and_prefix() {
    let absolute_paths = ["/", "/etc/passwd", "/home/user/project"];

    for path in absolute_paths {
        let project = ProjectConfig::new("test".to_string(), path.to_string());
        assert!(
            !project.validate_project_path(),
            "Expected absolute/root path '{path}' to fail validation"
        );
    }

    let absolute_paths = ["C:\\", "C:\\Windows\\System32", "D:\\"];

    for path in absolute_paths {
        let project = ProjectConfig::new("test".to_string(), path.to_string());
        assert!(
            !project.validate_project_path(),
            "Expected absolute/root path '{path}' to fail validation"
        );
    }
}

#[test]
fn test_project_config_exclude_dep() {
    let mut project = ProjectConfig::new("Core".to_string(), "./crates/core".to_string());
    assert!(project.exclude.project.is_empty());
    assert!(project.exclude.section.is_empty());

    project.exclude_dep(ExcludeArea::Project, "tokio".to_string());
    project.exclude_dep(ExcludeArea::Project, "serde".to_string());

    project.exclude_dep(
        ExcludeArea::Section(DependencySection::Dev),
        "clap".to_string(),
    );
    project.exclude_dep(
        ExcludeArea::Section(DependencySection::Dev),
        "tokio".to_string(),
    );
    project.exclude_dep(
        ExcludeArea::Section(DependencySection::Table {
            parent: Box::new(DependencySection::Dev),
            toml_key: "clap".to_string(),
        }),
        "clap".to_string(),
    );

    assert_eq!(project.exclude.project, vec!["tokio", "serde"]);
    assert_eq!(
        *project
            .exclude
            .section
            .get(&DependencySection::Dev.to_string())
            .unwrap(),
        vec!["clap", "tokio"]
    );
    assert_eq!(
        *project
            .exclude
            .section
            .get(
                &DependencySection::Table {
                    parent: Box::new(DependencySection::Dev),
                    toml_key: "clap".to_string(),
                }
                .to_string()
            )
            .unwrap(),
        Vec::<String>::new()
    );
}

#[test]
fn test_updater_config_defaults_and_exclude() {
    let mut updater = UpdaterConfig::default();
    assert_eq!(updater.auto_update, "none");
    assert!(updater.auto_scan);
    assert_eq!(updater.max_lines, 50);
    assert!(updater.exclude.is_empty());

    updater.exclude_project("crates/vendor".to_string());
    assert_eq!(updater.exclude, vec!["crates/vendor"]);
}

#[test]
fn test_rrdu_config_add_workspace() {
    let mut config = RrduConfig::default();
    assert!(config.workspace.is_empty());

    config.add_workspace("App".to_string(), "./".to_string());
    assert_eq!(config.workspace.len(), 1);
    assert_eq!(config.workspace[0].project, "App");
    assert_eq!(config.workspace[0].path, "./");
}

#[test]
fn validate_path_accepts_empty_and_dotted_names() {
    assert!(ProjectConfig::validate_path(""));
    assert!(ProjectConfig::validate_path("."));
    assert!(ProjectConfig::validate_path("..."));
    assert!(ProjectConfig::validate_path("a..b/c"));
    assert!(ProjectConfig::validate_path("crates/.hidden"));
    assert!(!ProjectConfig::validate_path(".."));
    assert!(!ProjectConfig::validate_path("a\\..\\b"));
    assert!(!ProjectConfig::validate_path("\\\\server\\share"));
    assert!(!ProjectConfig::validate_path("c:relative"));
}

#[test]
fn sub_config_path_joins_and_validates() {
    let mut project = ProjectConfig::new("Sub".to_string(), "crates/sub".to_string());
    assert_eq!(project.get_sub_config_path(), None);
    project.define_sub_config(SubConfig::Bool(false));
    assert_eq!(project.get_sub_config_path(), None);
    project.define_sub_config(SubConfig::Bool(true));
    assert_eq!(
        project.get_sub_config_path(),
        Some("crates/sub/.rrduconfig".to_string())
    );

    let project = {
        let mut p = ProjectConfig::new("Root".to_string(), "./".to_string());
        p.define_sub_config(SubConfig::Bool(true));
        p
    };
    assert_eq!(project.get_sub_config_path(), Some("./.rrduconfig".to_string()));

    let project = {
        let mut p = ProjectConfig::new("Empty".to_string(), "".to_string());
        p.define_sub_config(SubConfig::Bool(true));
        p
    };
    assert_eq!(project.get_sub_config_path(), Some(".rrduconfig".to_string()));

    let project = {
        let mut p = ProjectConfig::new("Escape".to_string(), "../other".to_string());
        p.define_sub_config(SubConfig::Bool(true));
        p
    };
    assert_eq!(project.get_sub_config_path(), None);
}

#[test]
fn excluding_keeps_earlier_exclusions() {
    let mut project = ProjectConfig::new("Core".to_string(), "./".to_string());
    let table = DependencySection::Table {
        parent: Box::new(DependencySection::Normal),
        toml_key: "clap".to_string(),
    };
    project.exclude_dep(ExcludeArea::Section(table.clone()), "ignored".to_string());
    project.exclude_dep(ExcludeArea::Section(DependencySection::Normal), "a".to_string());
    project.exclude_dep(ExcludeArea::Section(DependencySection::Normal), "b".to_string());
    project.exclude_dep(ExcludeArea::Section(table.clone()), "again".to_string());
    assert_eq!(
        *project.exclude.section.get("dependencies").unwrap(),
        vec!["a", "b"]
    );
    assert_eq!(
        *project.exclude.section.get("dependencies.clap").unwrap(),
        Vec::<String>::new()
    );
    assert_eq!(project.exclude.section.get("dev-dependencies"), None);
    assert!(project.exclude.project.is_empty());
}

#[test]
fn section_map_insert_replaces() {
    let mut map = SectionExcludes::new();
    map.insert("dependencies".to_string(), vec!["a".to_string()]);
    map.insert("dependencies".to_string(), vec!["b".to_string()]);
    map.push_value("dev-dependencies".to_string(), "c".to_string());
    assert_eq!(*map.get("dependencies").unwrap(), vec!["b"]);
    assert_eq!(*map.get("dev-dependencies").unwrap(), vec!["c"]);
    assert_eq!(map.entries().len(), 2);
    let copy = map.clone();
    assert_eq!(copy, map);
}

#[test]
fn rrdu_config_new_falls_back_to_initial() {
    let mut loaded = RrduConfig::default();
    loaded.add_workspace("App".to_string(), "./".to_string());
    let config = RrduConfig::new(Ok(loaded.clone()));
    assert_eq!(config, loaded);

    let config = RrduConfig::new(Err(ConfigError::Io("missing".to_string())));
    assert!(config.workspace.is_empty());
    assert_eq!(config.updater, UpdaterConfig::default());
    assert_eq!(config, RrduConfig::init());
}

#[test]
fn rrdu_version_is_the_default_schema_version() {
    assert_eq!(get_rrdu_version(), "0.0.3");
    assert_eq!(UpdaterConfig::default().version, Some("0.0.3".to_string()));
}

fn config_with_version(version: Option<&str>) -> RrduConfig {
    let mut config = RrduConfig::default();
    config.updater.version = version.map(|v| v.to_string());
    config
}

#[test]
fn compatibility_of_schema_versions() {
    assert!(matches!(
        check_config_compatibility(&config_with_version(Some("0.0.3"))),
        ConfigCompatibility::Compatible
    ));
    assert!(matches!(
        check_config_compatibility(&config_with_version(None)),
        ConfigCompatibility::LegacyMissingVersion
    ));
    assert!(matches!(
        check_config_compatibility(&config_with_version(Some("0.0"))),
        ConfigCompatibility::LegacyMissingVersion
    ));
    match check_config_compatibility(&config_with_version(Some("0.0.2"))) {
        ConfigCompatibility::OutdatedVersion(found, required) => {
            assert_eq!(found.to_string(), "0.0.2");
            assert_eq!(required.to_string(), "0.0.3");
        }
        other => panic!("unexpected {:?}", other),
    }
    assert!(matches!(
        check_config_compatibility(&config_with_version(Some("0.0.3-rc.1"))),
        ConfigCompatibility::OutdatedVersion(..)
    ));
    match check_config_compatibility(&config_with_version(Some("0.1.0"))) {
        ConfigCompatibility::IncompatibleFutureVersion(found) => {
            assert_eq!(found.to_string(), "0.1.0");
        }
        other => panic!("unexpected {:?}", other),
    }
    assert!(matches!(
        check_config_compatibility(&config_with_version(Some("0.0.3+build.7"))),
        ConfigCompatibility::IncompatibleFutureVersion(..)
    ));
}

#[test]
fn semver_parse_compare_and_show() {
    let v = SemVersion::parse("1.2.3-alpha.1+b5").unwrap();
    assert_eq!(v.to_string(), "1.2.3-alpha.1+b5");
    assert!(SemVersion::parse("01.2.3").is_none());
    let release = SemVersion::new(1, 2, 3);
    assert_eq!(release.to_string(), "1.2.3");
    assert_eq!(v.compare(&release), VersionOrder::Less);
    assert_eq!(release.compare(&v), VersionOrder::Greater);
    assert_eq!(SemVersion::new(2, 0, 0).compare(&release), VersionOrder::Greater);
    assert_eq!(
        SemVersion::parse("1.2.3").unwrap().compare(&release),
        VersionOrder::Equal
    );
}

#[test]
fn validate_loaded_reports_first_insecure_path() {
    let mut config = config_with_version(Some("0.0.3"));
    config.add_workspace("Ok".to_string(), "crates/ok".to_string());
    config.add_workspace("Bad".to_string(), "../bad".to_string());
    config.add_workspace("Worse".to_string(), "/worse".to_string());
    assert_eq!(
        RrduConfig::validate_loaded(config),
        Err(ConfigError::InsecurePath("../bad".to_string()))
    );
}

#[test]
fn validate_loaded_checks_versions() {
    let mut config = config_with_version(Some("0.0.3"));
    config.add_workspace("Ok".to_string(), "crates/ok".to_string());
    assert_eq!(RrduConfig::validate_loaded(config.clone()), Ok(config));

    assert_eq!(
        RrduConfig::validate_loaded(config_with_version(None)),
        Err(ConfigError::LegacyConfiguration)
    );
    assert_eq!(
        RrduConfig::validate_loaded(config_with_version(Some("not a version"))),
        Err(ConfigError::LegacyConfiguration)
    );
    assert_eq!(
        RrduConfig::validate_loaded(config_with_version(Some("0.0.1"))),
        Err(ConfigError::IncompatibleVersion {
            found: "0.0.1".to_string(),
            required: "0.0.3".to_string(),
        })
    );
    assert_eq!(
        RrduConfig::validate_loaded(config_with_version(Some("1.0.0"))),
        Err(ConfigError::IncompatibleVersion {
            found: "1.0.0".to_string(),
            required: "<= 0.0.3".to_string(),
        })
    );
}

#[test]
fn discovery_ignores_build_folders_only_with_a_manifest() {
    assert_eq!(Discovery::new(false), Discovery::default());
    assert_ne!(Discovery::new(true), Discovery::default());
}

#[test]
fn section_maps_compare_by_content() {
    let mut a = SectionExcludes::new();
    a.insert("dependencies".to_string(), vec!["x".to_string()]);
    a.insert("dev-dependencies".to_string(), vec!["y".to_string()]);
    let mut b = SectionExcludes::new();
    b.insert("dev-dependencies".to_string(), vec!["y".to_string()]);
    b.insert("dependencies".to_string(), vec!["x".to_string()]);
    assert_eq!(a, b);
    b.push_value("dependencies".to_string(), "z".to_string());
    assert_ne!(a, b);
}

#[test]
fn section_names_follow_table_headers() {
    assert_eq!(DependencySection::Normal.to_string(), "dependencies");
    assert_eq!(DependencySection::Build.to_string(), "build-dependencies");
    assert_eq!(
        DependencySection::Workspace.to_string(),
        "workspace.dependencies"
    );
    let target = DependencySection::Target {
        target: "cfg(unix)".to_string(),
        kind: TargetDepKind::Dev,
    };
    assert_eq!(target.to_string(), "target.cfg(unix).dev-dependencies");
    let table = DependencySection::Table {
        parent: Box::new(target),
        toml_key: "libc".to_string(),
    };
    assert_eq!(table.to_string(), "target.cfg(unix).dev-dependencies.libc");
    let lookup = table.table_lookup();
    let mut path = lookup.root_keys.clone();
    path.extend(lookup.nested.iter().map(|(k, _)| k.clone()));
    assert_eq!(path.join("."), table.to_string());
}

#[test]
fn semver_orders_by_numbers_first() {
    let a = SemVersion::parse("1.2.3-beta").unwrap();
    let b = SemVersion::parse("1.10.0-alpha").unwrap();
    assert_eq!(a.compare(&b), VersionOrder::Less);
    assert_eq!(b.compare(&a), VersionOrder::Greater);
    let c = SemVersion::parse("1.2.3-beta").unwrap();
    assert_eq!(a.compare(&c), VersionOrder::Equal);
}

#[test]
fn sub_config_path_after_backslash_gets_a_slash() {
    let mut project = ProjectConfig::new("Sub".to_string(), "crates\\sub\\".to_string());
    project.define_sub_config(SubConfig::Bool(true));
    assert_eq!(
        project.get_sub_config_path(),
        Some("crates\\sub\\/.rrduconfig".to_string())
    );
}
