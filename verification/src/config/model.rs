//! The `.rrduconfig` model: projects with their exclusions and paths, the
//! updater settings, and the checks a loaded configuration must pass.

use vstd::prelude::*;

use crate::config::error::ConfigError;
use crate::config::section_map::SectionExcludes;
use crate::config::version::{
    order_against_release, release, semver_parse, version_text, SemVer, SemVersion,
    VersionOrder,
};
use crate::globals::DependencySection;
use crate::text::{chars_of, owned};
use crate::workspace::project::section_name;

verus! {

/// A path separator on any supported platform.
pub open spec fn is_separator(c: char) -> bool {
    c == '/' || c == '\\'
}

/// `s` starts at the filesystem root (`/…`, `\…`, `\\server\…`).
pub open spec fn is_rooted(s: Seq<char>) -> bool {
    s.len() > 0 && is_separator(s[0])
}

/// `s` starts with a drive prefix such as `C:`.
pub open spec fn has_drive_prefix(s: Seq<char>) -> bool {
    s.len() >= 2 && s[1] == ':' && (('a' <= s[0] && s[0] <= 'z') || ('A' <= s[0] && s[0] <= 'Z'))
}

/// A `..` component starts at index `i` of `s`.
pub open spec fn parent_component_at(s: Seq<char>, i: int) -> bool {
    &&& 0 <= i
    &&& i + 2 <= s.len()
    &&& s[i] == '.'
    &&& s[i + 1] == '.'
    &&& (i == 0 || is_separator(s[i - 1]))
    &&& (i + 2 == s.len() || is_separator(s[i + 2]))
}

/// `s` has a `..` component somewhere.
pub open spec fn has_parent_component(s: Seq<char>) -> bool {
    exists|i: int| parent_component_at(s, i)
}

/// A path that stays inside the workspace: relative, without a drive
/// prefix, and without any `..` component.
pub open spec fn is_secure_path(s: Seq<char>) -> bool {
    !is_rooted(s) && !has_drive_prefix(s) && !has_parent_component(s)
}

/// The name of the configuration file.
pub open spec fn config_file_name() -> Seq<char> {
    seq!['.', 'r', 'r', 'd', 'u', 'c', 'o', 'n', 'f', 'i', 'g']
}

/// `name` pushed onto the path `base`: a `/` is put between them unless
/// `base` is empty or already ends in `/`.
pub open spec fn join_paths(base: Seq<char>, name: Seq<char>) -> Seq<char> {
    if base.len() == 0 || base.last() == '/' {
        base + name
    } else {
        base + seq!['/'] + name
    }
}

/// `base` joined with the configuration file name.
pub open spec fn join_config_file(base: Seq<char>) -> Seq<char> {
    join_paths(base, config_file_name())
}

/// Joining a relative path without drive prefix onto a path keeps it
/// inside the workspace exactly when both paths were: a `..` or a root
/// appears in the joined path only where one of the two had it.
pub proof fn law_join_secure(a: Seq<char>, b: Seq<char>)
    requires
        !is_rooted(b),
        !has_drive_prefix(b),
    ensures
        is_secure_path(join_paths(a, b)) == (is_secure_path(a) && is_secure_path(b)),
{
    let j = join_paths(a, b);
    let n = a.len() as int;
    if n == 0 {
        assert(j =~= b);
        assert(!has_parent_component(a));
        return;
    }
    let added = a.last() != '/';
    let off = if added { n + 1 } else { n };
    assert(j.len() == off + b.len());
    assert forall|i: int| 0 <= i < n implies #[trigger] j[i] == a[i] by {}
    assert forall|k: int| 0 <= k < b.len() implies #[trigger] j[off + k] == b[k] by {}
    if added {
        assert(j[n] == '/');
    }
    // roots and drive prefixes
    assert(j[0] == a[0]);
    assert(is_rooted(j) == is_rooted(a));
    if n >= 2 {
        assert(j[1] == a[1]);
    } else if added {
        assert(j[1] == '/');
    }
    assert(is_rooted(a) || (has_drive_prefix(j) == has_drive_prefix(a)));
    // parent components of `a` stay
    if has_parent_component(a) {
        let i = choose|i: int| parent_component_at(a, i);
        if i + 2 < n {
            assert(j[i + 2] == a[i + 2]);
        } else {
            assert(a.last() == '.');
        }
        assert(parent_component_at(j, i));
    }
    // parent components of `b` stay, shifted
    if has_parent_component(b) {
        let k = choose|k: int| parent_component_at(b, k);
        assert(j[off + k] == b[k]);
        assert(j[off + k + 1] == b[k + 1]);
        if k > 0 {
            assert(j[off + k - 1] == b[k - 1]);
        } else if !added {
            assert(j[off - 1] == a.last());
        }
        if k + 2 < b.len() {
            assert(j[off + k + 2] == b[k + 2]);
        }
        assert(parent_component_at(j, off + k));
    }
    // and no other appears
    if has_parent_component(j) {
        let i = choose|i: int| parent_component_at(j, i);
        if i < n {
            if i + 1 == n {
                if added {
                    assert(j[i + 1] == '/');
                } else {
                    assert(a.last() == a[i]);
                }
                assert(false);
            }
            assert(j[i + 1] == a[i + 1]);
            if i + 2 < n {
                assert(j[i + 2] == a[i + 2]);
            }
            if i > 0 {
                assert(j[i - 1] == a[i - 1]);
            }
            assert(parent_component_at(a, i));
        } else if i == n && added {
            assert(j[i] == '/');
            assert(false);
        } else {
            let k = i - off;
            assert(j[off + k] == b[k]);
            assert(j[off + k + 1] == b[k + 1]);
            if k > 0 {
                assert(j[off + k - 1] == b[k - 1]);
            }
            if k + 2 < b.len() {
                assert(j[off + k + 2] == b[k + 2]);
            }
            assert(parent_component_at(b, k));
        }
    }
}

/// Joining the configuration file name to a path keeps it inside the
/// workspace exactly when the path was.
pub proof fn lemma_join_config_file_secure(base: Seq<char>)
    ensures
        is_secure_path(join_config_file(base)) == is_secure_path(base),
{
    let f = config_file_name();
    law_join_secure(base, f);
    if has_parent_component(f) {
        let i = choose|i: int| parent_component_at(f, i);
        assert(f[i] == '.' && f[i + 1] == '.');
        assert(false);
    }
}

/// Identifier if a sub project configuration is present.
///
/// Possible values:
/// - `Bool(true)`: a sub config file is in the same folder as the Cargo.toml
/// - `Bool(false)`: no sub config file is present, but a Cargo.toml
#[derive(Debug, Clone, Copy, PartialEq, Eq, Structural)]
pub enum SubConfig {
    /// Not given in the configuration
    Unset,
    Bool(bool),
}

impl Default for SubConfig {
    fn default() -> (sub_config: Self)
        ensures
            sub_config == SubConfig::Unset,
    {
        SubConfig::Unset
    }
}

#[derive(Debug, Clone, PartialEq, Eq)]
pub struct ExcludeConfig {
    /// Project wide excluded dependencies
    pub project: Vec<String>,
    /// Section specified excluded dependencies
    pub section: SectionExcludes,
}

impl Default for ExcludeConfig {
    fn default() -> (exclude: Self)
        ensures
            exclude.project@.len() == 0,
            exclude.section@ == Map::<Seq<char>, Seq<Seq<char>>>::empty(),
    {
        ExcludeConfig { project: Vec::new(), section: SectionExcludes::new() }
    }
}

/// Where a dependency is excluded: in the whole project, or in one section.
#[derive(Debug, Clone, PartialEq, Eq)]
pub enum ExcludeArea {
    Project,
    Section(DependencySection),
}

/// The section exclusions after excluding `dep` in `section`: a table
/// section (`[dependencies.clap]`) is excluded as a whole, so its key is
/// only made present; any other section gets `dep` appended to its list.
pub open spec fn section_excluded(
    section_map: Map<Seq<char>, Seq<Seq<char>>>,
    section: DependencySection,
    dep: Seq<char>,
) -> Map<Seq<char>, Seq<Seq<char>>> {
    let key = section_name(section);
    match section {
        DependencySection::Table { .. } => if section_map.contains_key(key) {
            section_map
        } else {
            section_map.insert(key, Seq::empty())
        },
        _ => section_map.insert(
            key,
            (if section_map.contains_key(key) {
                section_map[key]
            } else {
                Seq::empty()
            }).push(dep),
        ),
    }
}

/// Excluding a dependency never drops an earlier exclusion: every section
/// key stays, and its list only grows at its end. A table section
/// (`[dependencies.clap]`), excluded as a whole, gains no names, and
/// excluding it again changes nothing.
pub proof fn law_section_exclusion_keeps_earlier(
    section_map: Map<Seq<char>, Seq<Seq<char>>>,
    section: DependencySection,
    dep: Seq<char>,
    other_dep: Seq<char>,
)
    ensures
        section is Table ==> section_excluded(
            section_excluded(section_map, section, dep),
            section,
            other_dep,
        ) == section_excluded(section_map, section, dep),
        forall|k: Seq<char>| #[trigger]
            section_map.contains_key(k) ==> section_excluded(section_map, section, dep).contains_key(
                k,
            ) && section_map[k] == section_excluded(section_map, section, dep)[k].take(
                section_map[k].len() as int,
            ),
        section_excluded(section_map, section, dep).contains_key(section_name(section)),
        section is Table ==> section_excluded(section_map, section, dep)[section_name(section)]
            == (if section_map.contains_key(section_name(section)) {
            section_map[section_name(section)]
        } else {
            Seq::<Seq<char>>::empty()
        }),
{
    let key = section_name(section);
    let after = section_excluded(section_map, section, dep);
    assert forall|k: Seq<char>| #[trigger] section_map.contains_key(k) implies after.contains_key(k)
        && section_map[k] == after[k].take(section_map[k].len() as int) by {
        if k == key && !(section is Table) {
            assert(section_map[k] =~= section_map[k].push(dep).take(section_map[k].len() as int));
        } else {
            assert(section_map[k] =~= after[k].take(section_map[k].len() as int));
        }
    }
}

#[derive(Debug, Clone, PartialEq, Eq)]
pub struct ProjectConfig {
    /// Name of the project: the `name` key from Cargo.toml, or the last
    /// folder from the discovery if it is a sub-config project
    pub project: String,
    /// Path to the `Cargo.toml`, or to the `.rrduconfig` if sub-config
    pub path: String,
    /// List of dependencies excluded from updating
    pub exclude: ExcludeConfig,
    /// Identifier, if the project is a `.rrduconfig` link
    pub sub_config: SubConfig,
}

/// `p` is the project `project` at `path`, with nothing excluded and no
/// sub-config.
pub open spec fn is_new_project(p: ProjectConfig, project: String, path: String) -> bool {
    &&& p.project == project
    &&& p.path == path
    &&& p.exclude.project@.len() == 0
    &&& p.exclude.section@ == Map::<Seq<char>, Seq<Seq<char>>>::empty()
    &&& p.sub_config == SubConfig::Unset
}

impl ProjectConfig {
    pub fn new(project: String, path: String) -> (config: Self)
        ensures
            is_new_project(config, project, path),
    {
        Self {
            project,
            path,
            exclude: ExcludeConfig { project: Vec::new(), section: SectionExcludes::new() },
            sub_config: SubConfig::default(),
        }
    }

    pub fn define_sub_config(&mut self, sub_config: SubConfig)
        ensures
            *final(self) == (ProjectConfig { sub_config, ..*old(self) }),
    {
        self.sub_config = sub_config;
    }

    /// The path of the project's own `.rrduconfig`, where it declares one
    /// and the path stays inside the workspace.
    pub fn get_sub_config_path(&self) -> (path: Option<String>)
        ensures
            path is Some <==> (self.sub_config == SubConfig::Bool(true) && is_secure_path(
                self.path@,
            )),
            path is Some ==> path->0@ == join_config_file(self.path@),
            path is Some ==> is_secure_path(path->0@),
    {
        proof {
            reveal_strlit(".rrduconfig");
            assert(RrduConfig::CONFIG_FILE_NAME@ =~= config_file_name());
        }
        let path = match &self.sub_config {
            SubConfig::Bool(true) => join_path(self.path.as_str(), RrduConfig::CONFIG_FILE_NAME),
            _ => return None,
        };
        proof {
            lemma_join_config_file_secure(self.path@);
        }
        if Self::validate_path(path.as_str()) {
            Some(path)
        } else {
            None
        }
    }

    /// Excludes `dep` from updating, project wide or in one section.
    pub fn exclude_dep(&mut self, area: ExcludeArea, dep: String)
        ensures
            final(self).project == old(self).project,
            final(self).path == old(self).path,
            final(self).sub_config == old(self).sub_config,
            match area {
                ExcludeArea::Project => {
                    &&& final(self).exclude.project@ == old(self).exclude.project@.push(dep)
                    &&& final(self).exclude.section@ == old(self).exclude.section@
                },
                ExcludeArea::Section(section) => {
                    &&& final(self).exclude.project@ == old(self).exclude.project@
                    &&& final(self).exclude.section@ == section_excluded(
                        old(self).exclude.section@,
                        section,
                        dep@,
                    )
                },
            },
    {
        match area {
            ExcludeArea::Project => {
                self.exclude.project.push(dep);
            },
            ExcludeArea::Section(sec) => self.format_section_dep(sec, dep),
        }
    }

    fn format_section_dep(&mut self, sec: DependencySection, dep: String)
        ensures
            final(self).project == old(self).project,
            final(self).path == old(self).path,
            final(self).sub_config == old(self).sub_config,
            final(self).exclude.project@ == old(self).exclude.project@,
            final(self).exclude.section@ == section_excluded(old(self).exclude.section@, sec, dep@),
    {
        let key = sec.to_string();
        match sec {
            DependencySection::Table { .. } => {
                self.exclude.section.ensure_key(key);
            },
            _ => {
                self.exclude.section.push_value(key, dep);
            },
        }
    }

    /// Whether the project's path stays inside the workspace.
    pub fn validate_project_path(&self) -> (valid: bool)
        ensures
            valid == is_secure_path(self.path@),
    {
        Self::validate_path(self.path.as_str())
    }

    /// Whether `path` stays inside the workspace: no root (`/`, `\\`), no
    /// drive prefix (`C:`), and no parent (`..`) component.
    pub fn validate_path(path: &str) -> (valid: bool)
        ensures
            valid == is_secure_path(path@),
    {
        let c = chars_of(path);
        let n = c.len();
        if n > 0 && (c[0] == '/' || c[0] == '\\') {
            return false;
        }
        if n >= 2 && c[1] == ':' && (('a' <= c[0] && c[0] <= 'z') || ('A' <= c[0] && c[0] <= 'Z')) {
            return false;
        }
        let mut i: usize = 0;
        while i < n
            invariant
                c@ == path@,
                n == c.len(),
                i <= n,
                forall|j: int| 0 <= j < i ==> !parent_component_at(path@, j),
            decreases n - i,
        {
            if i + 1 < n && c[i] == '.' && c[i + 1] == '.' && (i == 0 || c[i - 1] == '/' || c[i - 1] == '\\')
                && (i + 2 == n || c[i + 2] == '/' || c[i + 2] == '\\') {
                assert(parent_component_at(path@, i as int));
                return false;
            }
            i = i + 1;
        }
        assert forall|j: int| !parent_component_at(path@, j) by {
            if 0 <= j && j < i {
            }
        }
        true
    }
}

/// `base` joined with `name`, with a `/` between them unless `base` is
/// empty or already ends in `/`.
fn join_path(base: &str, name: &str) -> (joined: String)
    ensures
        joined@ == join_paths(base@, name@),
{
    let chars = chars_of(base);
    let mut joined = owned(base);
    let n = chars.len();
    if n > 0 && chars[n - 1] != '/' {
        joined.append("/");
        proof {
            reveal_strlit("/");
        }
    }
    joined.append(name);
    joined
}

/// The version of this build, as written in its package manifest.
pub const RRDU_VERSION: &'static str = "0.0.3";

/// The text of the version of this build.
pub open spec fn rrdu_version() -> Seq<char> {
    seq!['0', '.', '0', '.', '3']
}

/// The text of the version of this build.
pub fn get_rrdu_version() -> (version: String)
    ensures
        version@ == rrdu_version(),
{
    proof {
        reveal_strlit("0.0.3");
    }
    let version = owned(RRDU_VERSION);
    assert(version@ =~= rrdu_version());
    version
}

#[derive(Debug, Clone, PartialEq, Eq)]
pub struct UpdaterConfig {
    /// List of excluded projects from the workspace list
    pub exclude: Vec<String>,
    /// Automatic update all dependencies (excludes these ones from the project defined excluded and excluded projects)
    pub auto_update: String,
    /// Automatic scan for updates of dependencies (excludes these ones from the project defined excluded and excluded projects)
    pub auto_scan: bool,
    /// Scroll area for interactive CLI (does not affect CI mode)
    pub max_lines: usize,
    /// Version where the `.rrduconfig` was created.
    pub version: Option<String>,
}

/// Default value for `updater.auto-update`.
pub fn default_auto_update() -> (value: String)
    ensures
        value@ == seq!['n', 'o', 'n', 'e'],
{
    proof {
        reveal_strlit("none");
    }
    let value = owned("none");
    assert(value@ =~= seq!['n', 'o', 'n', 'e']);
    value
}

/// Default value for `updater.auto-scan`.
pub fn default_auto_scan() -> (value: bool)
    ensures
        value,
{
    true
}

/// Default value for `updater.max-lines`.
pub fn default_max_lines() -> (value: usize)
    ensures
        value == 50,
{
    50
}

/// `u` holds the updater defaults: nothing excluded, no automatic update,
/// automatic scan, pages of 50 lines, and the version of this build.
pub open spec fn is_default_updater(u: UpdaterConfig) -> bool {
    &&& u.exclude@.len() == 0
    &&& u.auto_update@ == seq!['n', 'o', 'n', 'e']
    &&& u.auto_scan
    &&& u.max_lines == 50
    &&& u.version is Some
    &&& u.version->0@ == rrdu_version()
}

impl Default for UpdaterConfig {
    fn default() -> (updater: Self)
        ensures
            is_default_updater(updater),
    {
        Self {
            exclude: Vec::new(),
            auto_update: default_auto_update(),
            auto_scan: default_auto_scan(),
            max_lines: default_max_lines(),
            version: Some(get_rrdu_version()),
        }
    }
}

impl UpdaterConfig {
    pub fn exclude_project(&mut self, project: String)
        ensures
            final(self).exclude@ == old(self).exclude@.push(project),
            final(self).auto_update == old(self).auto_update,
            final(self).auto_scan == old(self).auto_scan,
            final(self).max_lines == old(self).max_lines,
            final(self).version == old(self).version,
    {
        self.exclude.push(project);
    }
}

#[derive(Debug, Clone, PartialEq, Eq)]
pub struct RrduConfig {
    /// List of workspaces based on the `.rrduconfig` folder
    pub workspace: Vec<ProjectConfig>,
    /// Updater configuration
    pub updater: UpdaterConfig,
}

/// The default list of projects: none.
pub fn default_root_project() -> (projects: Vec<ProjectConfig>)
    ensures
        projects@.len() == 0,
{
    Vec::new()
}

/// `c` is the configuration a workspace starts with: no project, and the
/// updater defaults.
pub open spec fn is_initial_config(c: RrduConfig) -> bool {
    c.workspace@.len() == 0 && is_default_updater(c.updater)
}

impl Default for RrduConfig {
    fn default() -> (config: Self)
        ensures
            is_initial_config(config),
    {
        Self { workspace: default_root_project(), updater: UpdaterConfig::default() }
    }
}

/// The oldest configuration schema that this build reads.
pub open spec fn min_supported_version() -> SemVer {
    release(0, 0, 3)
}

/// The version of this build, as a SemVer release.
pub open spec fn installed_version() -> SemVer {
    release(0, 0, 3)
}

/// The compatibility of a configuration whose schema version reads as `v`.
pub open spec fn compatibility_of(v: SemVer) -> CompatibilityView {
    if order_against_release(v, min_supported_version()) == VersionOrder::Less {
        CompatibilityView::OutdatedVersion(v, min_supported_version())
    } else if order_against_release(v, installed_version()) == VersionOrder::Greater {
        CompatibilityView::IncompatibleFutureVersion(v)
    } else {
        CompatibilityView::Compatible
    }
}

/// The compatibility of a configuration whose schema version is `version`.
pub open spec fn config_compatibility(version: Option<String>) -> CompatibilityView {
    match version {
        None => CompatibilityView::LegacyMissingVersion,
        Some(text) => match semver_parse(text@) {
            None => CompatibilityView::LegacyMissingVersion,
            Some(v) => compatibility_of(v),
        },
    }
}

#[derive(Debug)]
pub enum ConfigCompatibility {
    /// Version of config is compatible with the current running/installed version
    Compatible,
    /// Config have no version specified
    LegacyMissingVersion,
    /// Version of config is outdated: (found, minimum supported)
    OutdatedVersion(SemVersion, SemVersion),
    /// Version of running rrdu is older than config version
    IncompatibleFutureVersion(SemVersion),
}

/// The mathematical value of a [`ConfigCompatibility`].
pub enum CompatibilityView {
    Compatible,
    LegacyMissingVersion,
    OutdatedVersion(SemVer, SemVer),
    IncompatibleFutureVersion(SemVer),
}

impl View for ConfigCompatibility {
    type V = CompatibilityView;

    open spec fn view(&self) -> CompatibilityView {
        match self {
            ConfigCompatibility::Compatible => CompatibilityView::Compatible,
            ConfigCompatibility::LegacyMissingVersion => CompatibilityView::LegacyMissingVersion,
            ConfigCompatibility::OutdatedVersion(found, required) => CompatibilityView::OutdatedVersion(
                found@,
                required@,
            ),
            ConfigCompatibility::IncompatibleFutureVersion(found) => CompatibilityView::IncompatibleFutureVersion(
                found@,
            ),
        }
    }
}

/// Classifies the schema version `config_ver` of a configuration from how
/// it compares with the minimum supported version and with the version of
/// this build.
pub fn classify_config_version(
    config_ver: SemVersion,
    min_supported: SemVersion,
    vs_min_supported: VersionOrder,
    vs_installed: VersionOrder,
) -> (compatibility: ConfigCompatibility)
    ensures
        compatibility@ == if vs_min_supported == VersionOrder::Less {
            CompatibilityView::OutdatedVersion(config_ver@, min_supported@)
        } else if vs_installed == VersionOrder::Greater {
            CompatibilityView::IncompatibleFutureVersion(config_ver@)
        } else {
            CompatibilityView::Compatible
        },
{
    if vs_min_supported == VersionOrder::Less {
        ConfigCompatibility::OutdatedVersion(config_ver, min_supported)
    } else if vs_installed == VersionOrder::Greater {
        ConfigCompatibility::IncompatibleFutureVersion(config_ver)
    } else {
        ConfigCompatibility::Compatible
    }
}

/// Checks the schema version of `config` against this build.
pub fn check_config_compatibility(config: &RrduConfig) -> (compatibility: ConfigCompatibility)
    ensures
        compatibility@ == config_compatibility(config.updater.version),
        config.updater.version is Some && config.updater.version->0@ == rrdu_version()
            ==> compatibility@ == CompatibilityView::Compatible,
{
    let raw_version = match &config.updater.version {
        Some(v) => v,
        None => return ConfigCompatibility::LegacyMissingVersion,
    };
    proof {
        reveal_strlit("0.0.3");
        assert(rrdu_version() =~= crate::config::version::release_text(0, 0, 3));
    }
    let config_ver = match SemVersion::parse(raw_version.as_str()) {
        Some(v) => v,
        None => return ConfigCompatibility::LegacyMissingVersion,
    };
    let min_supported = SemVersion::new(0, 0, 3);
    proof {
        reveal_strlit("0.0.3");
        assert(RRDU_VERSION@ =~= crate::config::version::release_text(0, 0, 3));
    }
    let installed = match SemVersion::parse(RRDU_VERSION) {
        Some(v) => v,
        None => SemVersion::new(0, 0, 0),
    };
    let vs_min_supported = config_ver.compare(&min_supported);
    let vs_installed = config_ver.compare(&installed);
    classify_config_version(config_ver, min_supported, vs_min_supported, vs_installed)
}

/// Every project path of `projects` stays inside the workspace.
pub open spec fn all_paths_secure(projects: Seq<ProjectConfig>) -> bool {
    forall|i: int| 0 <= i < projects.len() ==> is_secure_path(#[trigger] projects[i].path@)
}

impl RrduConfig {
    pub const CONFIG_FILE_NAME: &'static str = ".rrduconfig";

    /// The configuration to work with: the loaded one, or else the initial
    /// one, which is not saved.
    pub fn new(loaded: Result<Self, ConfigError>) -> (config: Self)
        ensures
            match loaded {
                Ok(c) => config == c,
                Err(_) => is_initial_config(config),
            },
    {
        match loaded {
            Ok(c) => c,
            Err(_) => Self::init(),
        }
    }

    /// The initial configuration, with the discovered workspace.
    pub fn init() -> (config: Self)
        ensures
            is_initial_config(config),
    {
        let mut initial_default: Self = Self::default();
        initial_default.discover_workspace();
        initial_default
    }

    pub fn add_workspace(&mut self, project: String, path: String)
        ensures
            final(self).workspace@.len() == old(self).workspace@.len() + 1,
            final(self).workspace@.take(old(self).workspace@.len() as int) == old(self).workspace@,
            is_new_project(final(self).workspace@.last(), project, path),
            final(self).updater == old(self).updater,
    {
        self.workspace.push(ProjectConfig::new(project, path));
        assert(self.workspace@.take(old(self).workspace@.len() as int) =~= old(self).workspace@);
    }

    /// Discovers the workspace for Cargo.toml files; finds nothing yet.
    fn discover_workspace(&mut self)
        ensures
            *final(self) == *old(self),
    {
    }

    /// Checks a configuration read from a file: every project path must stay
    /// inside the workspace (the first one that does not is reported), and
    /// the schema version must be compatible with this build.
    pub fn validate_loaded(config: Self) -> (checked: Result<Self, ConfigError>)
        ensures
            !all_paths_secure(config.workspace@) <==> checked matches Err(
                ConfigError::InsecurePath(_),
            ),
            checked matches Err(ConfigError::InsecurePath(p)) ==> exists|i: int|
                0 <= i < config.workspace@.len() && p == config.workspace@[i].path
                    && !is_secure_path(p@) && forall|j: int|
                    0 <= j < i ==> is_secure_path(#[trigger] config.workspace@[j].path@),
            all_paths_secure(config.workspace@) ==> match config_compatibility(
                config.updater.version,
            ) {
                CompatibilityView::Compatible => checked == Ok::<Self, ConfigError>(config),
                CompatibilityView::LegacyMissingVersion => checked == Err::<Self, ConfigError>(
                    ConfigError::LegacyConfiguration,
                ),
                CompatibilityView::OutdatedVersion(found, required) => checked matches Err(
                    ConfigError::IncompatibleVersion { found: f, required: r },
                ) && f@ == version_text(found) && r@ == version_text(required),
                CompatibilityView::IncompatibleFutureVersion(found) => checked matches Err(
                    ConfigError::IncompatibleVersion { found: f, required: r },
                ) && f@ == version_text(found) && r@ == seq!['<', '=', ' '] + rrdu_version(),
            },
    {
        let mut i: usize = 0;
        while i < config.workspace.len()
            invariant
                i <= config.workspace@.len(),
                forall|j: int| 0 <= j < i ==> is_secure_path(#[trigger] config.workspace@[j].path@),
            decreases config.workspace.len() - i,
        {
            if !config.workspace[i].validate_project_path() {
                return Err(ConfigError::InsecurePath(config.workspace[i].path.clone()));
            }
            i = i + 1;
        }
        match check_config_compatibility(&config) {
            ConfigCompatibility::Compatible => Ok(config),
            ConfigCompatibility::LegacyMissingVersion => Err(ConfigError::LegacyConfiguration),
            ConfigCompatibility::OutdatedVersion(found, required) => Err(
                ConfigError::IncompatibleVersion {
                    found: found.to_string(),
                    required: required.to_string(),
                },
            ),
            ConfigCompatibility::IncompatibleFutureVersion(found) => {
                let mut required = owned("<= ");
                required.append(RRDU_VERSION);
                proof {
                    reveal_strlit("<= ");
                    reveal_strlit("0.0.3");
                    assert(required@ =~= seq!['<', '=', ' '] + rrdu_version());
                }
                Err(ConfigError::IncompatibleVersion { found: found.to_string(), required })
            },
        }
    }
}
} // verus!
