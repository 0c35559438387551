# rrdu

The verified core of `rrdu`, a tool that keeps the dependencies of Rust
workspaces up to date.

- `src/` is the library, checked by Verus:
  - `config/model.rs`: the `.rrduconfig` model, the workspace path rule
    (no root, drive prefix or `..` component), the section-wise exclusions,
    the updater defaults, and the checks a loaded configuration passes
    (secure project paths, compatible schema version);
  - `config/section_map.rs`: the section exclusion map;
  - `config/version.rs`: SemVer versions, read, compared and printed by the
    `semver` crate;
  - `workspace/project.rs`: dependency definitions read from a manifest
    model, the rows shown for them, and the way to a section's table;
  - `workspace/discovery.rs`: the folder discovery state.
- `app/` is the command line program: file I/O, YAML through `noyalib`,
  manifests through `toml_edit`, and arguments through `clap`.
- `tests/` runs the library on concrete values.
