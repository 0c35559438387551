//! The discovery of projects in a workspace.
//!
//! The discovery flow is:
//! - Enter a folder
//! - Check for '.rrduconfig'; if found, read the config and include it, and
//!   skip the rest, as the config is the single source of truth
//! - Search for 'Cargo.toml'; if found, read it and collect the project dependencies
//! - Check for '.gitignore' and '.rrduignore'; if found, collect their values
//!   to skip them in this folder's discovery
//! - Enter the next folder if it is not ignored, till no sub-folder is left
//!
//! Hidden folders (e.g. .git) and 'target' are ignored by default.

use vstd::prelude::*;

use crate::text::owned;

verus! {

/// The folders that Rust projects hold besides their sources.
pub open spec fn default_ignored_folders() -> Seq<Seq<char>> {
    seq![seq!['t', 'a', 'r', 'g', 'e', 't'], seq!['s', 'r', 'c']]
}

/// Where a `Cargo.toml` is present, exactly two folders are skipped by
/// default: `target` (build outputs) and `src` (the sources themselves).
pub proof fn law_manifest_folder_ignores_target_and_src()
    ensures
        default_ignored_folders() == seq!["target"@, "src"@],
        default_ignored_folders().len() == 2,
        default_ignored_folders().contains("target"@),
        default_ignored_folders().contains("src"@),
{
    reveal_strlit("target");
    reveal_strlit("src");
    assert("target"@ =~= default_ignored_folders()[0]);
    assert("src"@ =~= default_ignored_folders()[1]);
    assert(default_ignored_folders() =~= seq!["target"@, "src"@]);
    assert(default_ignored_folders()[0] == "target"@);
    assert(default_ignored_folders()[1] == "src"@);
}

#[derive(Debug, Clone, PartialEq, Eq)]
pub struct Discovery {
    ignore: Vec<String>,
    has_toml: bool,
}

impl Default for Discovery {
    /// The discovery of a folder without a `Cargo.toml`.
    fn default() -> (discovery: Self)
        ensures
            discovery.ignored() == Seq::<Seq<char>>::empty(),
            !discovery.found_toml(),
    {
        Self::new(false)
    }
}

impl Discovery {
    /// The folder names that the discovery skips.
    pub closed spec fn ignored(self) -> Seq<Seq<char>> {
        self.ignore.deep_view()
    }

    /// Whether a `Cargo.toml` was found in the folder.
    pub closed spec fn found_toml(self) -> bool {
        self.has_toml
    }

    /// The discovery of a folder, given whether the folder holds a
    /// `Cargo.toml` (looking into the folder is the caller's part): where
    /// it does, `target` and `src` are ignored.
    pub fn new(toml_present: bool) -> (discovery: Self)
        ensures
            discovery.found_toml() == toml_present,
            discovery.ignored() == if toml_present {
                default_ignored_folders()
            } else {
                Seq::<Seq<char>>::empty()
            },
            toml_present ==> discovery.ignored() == seq!["target"@, "src"@],
            !toml_present ==> discovery.ignored().len() == 0,
    {
        proof {
            law_manifest_folder_ignores_target_and_src();
        }
        let mut discovery = Self { ignore: Vec::new(), has_toml: false };
        discovery.scan_for_toml(toml_present);
        discovery.ignore_by_default();
        assert(Seq::<Seq<char>>::empty() + default_ignored_folders() =~= default_ignored_folders());
        discovery
    }

    /// Records whether the folder holds a `Cargo.toml`.
    fn scan_for_toml(&mut self, toml_present: bool)
        ensures
            final(self).has_toml == toml_present,
            final(self).ignore == old(self).ignore,
    {
        self.has_toml = toml_present;
    }

    /// Ignores the folders that a Rust project holds besides its sources,
    /// where a `Cargo.toml` is present.
    fn list_ignore_by_default_folders(&mut self)
        ensures
            final(self).has_toml == old(self).has_toml,
            final(self).ignore.deep_view() == if old(self).has_toml {
                old(self).ignore.deep_view() + default_ignored_folders()
            } else {
                old(self).ignore.deep_view()
            },
            old(self).has_toml ==> final(self).ignore.deep_view() == old(
                self,
            ).ignore.deep_view().push("target"@).push("src"@),
    {
        proof {
            law_manifest_folder_ignores_target_and_src();
        }
        if self.has_toml {
            let ghost before = self.ignore.deep_view();
            let target = owned("target");
            let src = owned("src");
            proof {
                reveal_strlit("target");
                reveal_strlit("src");
                assert(target@ =~= default_ignored_folders()[0]);
                assert(src@ =~= default_ignored_folders()[1]);
            }
            self.ignore.push(target);
            assert(self.ignore.deep_view() =~= before.push(default_ignored_folders()[0]));
            self.ignore.push(src);
            assert(self.ignore.deep_view() =~= before + default_ignored_folders());
            assert(self.ignore.deep_view() =~= before.push("target"@).push("src"@));
        }
    }

    /// Reads the ignore files of the folder; reads none yet.
    fn parse_ignore_files(&mut self)
        ensures
            *final(self) == *old(self),
    {
    }

    fn ignore_by_default(&mut self)
        ensures
            final(self).has_toml == old(self).has_toml,
            final(self).ignore.deep_view() == if old(self).has_toml {
                old(self).ignore.deep_view() + default_ignored_folders()
            } else {
                old(self).ignore.deep_view()
            },
    {
        self.list_ignore_by_default_folders();
        self.parse_ignore_files();
    }
}

} // verus!
