//! SemVer versions of the configuration schema, parsed, compared and shown
//! by the `semver` crate.

use vstd::prelude::*;

verus! {

/// `semver::Version`, held opaque inside [`SemVersion`].
#[verifier::external_type_specification]
#[verifier::external_body]
pub struct ExSemverVersion(semver::Version);

/// The decimal digits of `n`, as Rust prints an integer.
pub open spec fn decimal(n: nat) -> Seq<char>
    decreases n,
{
    let digit = seq![char_of_digit(n % 10)];
    if n < 10 {
        digit
    } else {
        decimal(n / 10) + digit
    }
}

/// The character of a decimal digit.
pub open spec fn char_of_digit(d: nat) -> char {
    if d == 0 {
        '0'
    } else if d == 1 {
        '1'
    } else if d == 2 {
        '2'
    } else if d == 3 {
        '3'
    } else if d == 4 {
        '4'
    } else if d == 5 {
        '5'
    } else if d == 6 {
        '6'
    } else if d == 7 {
        '7'
    } else if d == 8 {
        '8'
    } else {
        '9'
    }
}

/// The mathematical value of a SemVer version.
pub struct SemVer {
    pub major: u64,
    pub minor: u64,
    pub patch: u64,
    pub pre: Seq<char>,
    pub build: Seq<char>,
}

/// The release `major.minor.patch`, without pre-release or build metadata.
pub open spec fn release(major: u64, minor: u64, patch: u64) -> SemVer {
    SemVer { major, minor, patch, pre: Seq::empty(), build: Seq::empty() }
}

/// `v` has neither pre-release nor build metadata.
pub open spec fn is_release(v: SemVer) -> bool {
    v.pre.len() == 0 && v.build.len() == 0
}

/// The text `major.minor.patch` of a release.
pub open spec fn release_text(major: u64, minor: u64, patch: u64) -> Seq<char> {
    decimal(major as nat) + seq!['.'] + decimal(minor as nat) + seq!['.'] + decimal(patch as nat)
}

/// How a version is written: `major.minor.patch`, then `-pre` where there
/// is a pre-release and `+build` where there is build metadata.
pub open spec fn version_text(v: SemVer) -> Seq<char> {
    release_text(v.major, v.minor, v.patch) + (if v.pre.len() > 0 {
        seq!['-'] + v.pre
    } else {
        Seq::empty()
    }) + (if v.build.len() > 0 {
        seq!['+'] + v.build
    } else {
        Seq::empty()
    })
}

/// The outcome of comparing two versions.
#[derive(Debug, Clone, Copy, PartialEq, Eq, Structural)]
pub enum VersionOrder {
    Less,
    Equal,
    Greater,
}

/// Orders two numbers.
pub open spec fn order_of(a: u64, b: u64) -> VersionOrder {
    if a < b {
        VersionOrder::Less
    } else if a > b {
        VersionOrder::Greater
    } else {
        VersionOrder::Equal
    }
}

/// How the numbers of two versions compare: major, then minor, then patch.
pub open spec fn numbers_order(a: SemVer, b: SemVer) -> VersionOrder {
    if a.major != b.major {
        order_of(a.major, b.major)
    } else if a.minor != b.minor {
        order_of(a.minor, b.minor)
    } else {
        order_of(a.patch, b.patch)
    }
}

/// How `a` compares with the release `b`: by major, minor and patch; on a
/// tie a pre-release comes before the release, and build metadata after it.
pub open spec fn order_against_release(a: SemVer, b: SemVer) -> VersionOrder {
    if a.major != b.major {
        order_of(a.major, b.major)
    } else if a.minor != b.minor {
        order_of(a.minor, b.minor)
    } else if a.patch != b.patch {
        order_of(a.patch, b.patch)
    } else if a.pre.len() > 0 {
        VersionOrder::Less
    } else if a.build.len() > 0 {
        VersionOrder::Greater
    } else {
        VersionOrder::Equal
    }
}

/// One comparator of a version requirement, such as `^1.2` or `>=0.4.1`:
/// its numbers (minor and patch may be left out) and its pre-release. Its
/// operator is not kept: what reads requirements here looks at the numbers
/// only.
#[derive(Debug, Clone, PartialEq, Eq)]
pub struct ReqComparator {
    pub major: u64,
    pub minor: Option<u64>,
    pub patch: Option<u64>,
    pub pre: String,
}

/// The mathematical value of a [`ReqComparator`].
pub struct ReqComparatorView {
    pub major: u64,
    pub minor: Option<u64>,
    pub patch: Option<u64>,
    pub pre: Seq<char>,
}

impl View for ReqComparator {
    type V = ReqComparatorView;

    open spec fn view(&self) -> ReqComparatorView {
        ReqComparatorView {
            major: self.major,
            minor: self.minor,
            patch: self.patch,
            pre: self.pre@,
        }
    }
}

/// The comparators of a parsed requirement, seen through their views.
pub open spec fn requirement_view(req: Option<Vec<ReqComparator>>) -> Option<Seq<ReqComparatorView>> {
    match req {
        Some(v) => Some(v@.map_values(|c: ReqComparator| c@)),
        None => None,
    }
}

/// What `semver::VersionReq::parse` makes of a text: its comparators.
pub uninterp spec fn semver_req_parse(text: Seq<char>) -> Option<Seq<ReqComparatorView>>;

/// What `semver::Version::parse` makes of a text.
pub uninterp spec fn semver_parse(text: Seq<char>) -> Option<SemVer>;

/// How `Ord::cmp` of `semver::Version` orders two versions.
pub uninterp spec fn semver_order(a: SemVer, b: SemVer) -> VersionOrder;

/// A SemVer version: its numbers, pre-release and build metadata, and the
/// `semver::Version` they were read from.
#[derive(Debug)]
pub struct SemVersion {
    major: u64,
    minor: u64,
    patch: u64,
    pre: String,
    build: String,
    version: semver::Version,
}

impl View for SemVersion {
    type V = SemVer;

    closed spec fn view(&self) -> SemVer {
        SemVer {
            major: self.major,
            minor: self.minor,
            patch: self.patch,
            pre: self.pre@,
            build: self.build@,
        }
    }
}

/// `semver::Version::parse`: reads a version from `text`, or `None` where
/// the text is no SemVer version. Claimed: the result is the one that
/// `semver_parse` names, and a text `major.minor.patch` of three decimal
/// numbers without leading zeros reads as that release.
#[verifier::external_body]
fn semver_parse_text(text: &str) -> (parsed: Option<SemVersion>)
    ensures
        match parsed {
            Some(v) => semver_parse(text@) == Some(v@),
            None => semver_parse(text@) is None,
        },
        forall|a: u64, b: u64, c: u64|
            text@ == #[trigger] release_text(a, b, c) ==> parsed is Some && parsed->0@ == release(
                a,
                b,
                c,
            ),
{
    match semver::Version::parse(text) {
        Ok(version) => Some(
            SemVersion {
                major: version.major,
                minor: version.minor,
                patch: version.patch,
                pre: version.pre.as_str().to_string(),
                build: version.build.as_str().to_string(),
                version,
            },
        ),
        Err(_) => None,
    }
}

/// `semver::VersionReq::parse`: reads a version requirement from `text`,
/// or `None` where the text is no requirement. Claimed: the comparators
/// are the ones that `semver_req_parse` names, each with its major, minor,
/// patch and pre-release carried over (the operator is left out).
#[verifier::external_body]
fn semver_req_parse_text(text: &str) -> (parsed: Option<Vec<ReqComparator>>)
    ensures
        requirement_view(parsed) == semver_req_parse(text@),
{
    match semver::VersionReq::parse(text) {
        Ok(req) => Some(req.comparators.iter().map(|c| ReqComparator {
            major: c.major,
            minor: c.minor,
            patch: c.patch,
            pre: c.pre.as_str().to_string(),
        }).collect()),
        Err(_) => None,
    }
}

/// Reads a version requirement, such as `1.2`, `^3.1` or `~0.4`.
pub fn parse_version_req(text: &str) -> (parsed: Option<Vec<ReqComparator>>)
    ensures
        requirement_view(parsed) == semver_req_parse(text@),
{
    semver_req_parse_text(text)
}

/// `semver::Version::new`: the release `major.minor.patch`, with empty
/// pre-release and build metadata.
#[verifier::external_body]
fn semver_release(major: u64, minor: u64, patch: u64) -> (v: SemVersion)
    ensures
        v@ == release(major, minor, patch),
{
    let version = semver::Version::new(major, minor, patch);
    SemVersion {
        major,
        minor,
        patch,
        pre: String::new(),
        build: String::new(),
        version,
    }
}

/// `Ord::cmp` of `semver::Version`. Claimed: the result is the one that
/// `semver_order` names; versions with different numbers are ordered by
/// their numbers (major, minor, patch), equal versions are `Equal`, and
/// where `b` is a release the result is `order_against_release(a, b)` (on
/// equal numbers a pre-release is less, and build metadata greater, than
/// the release). Not stated: the order of two different pre-releases, or
/// of two different build metadata, on equal numbers.
#[verifier::external_body]
fn semver_compare(a: &SemVersion, b: &SemVersion) -> (order: VersionOrder)
    ensures
        order == semver_order(a@, b@),
        numbers_order(a@, b@) != VersionOrder::Equal ==> order == numbers_order(a@, b@),
        a@ == b@ ==> order == VersionOrder::Equal,
        is_release(b@) ==> order == order_against_release(a@, b@),
{
    match a.version.cmp(&b.version) {
        std::cmp::Ordering::Less => VersionOrder::Less,
        std::cmp::Ordering::Equal => VersionOrder::Equal,
        std::cmp::Ordering::Greater => VersionOrder::Greater,
    }
}

/// `Display` of `semver::Version`: the text `version_text` of the version.
#[verifier::external_body]
fn semver_display(v: &SemVersion) -> (text: String)
    ensures
        text@ == version_text(v@),
{
    v.version.to_string()
}

impl SemVersion {
    /// Reads a SemVer version from `text`.
    pub fn parse(text: &str) -> (parsed: Option<SemVersion>)
        ensures
            match parsed {
                Some(v) => semver_parse(text@) == Some(v@),
                None => semver_parse(text@) is None,
            },
            forall|a: u64, b: u64, c: u64|
                text@ == #[trigger] release_text(a, b, c) ==> parsed is Some && parsed->0@
                    == release(a, b, c),
    {
        semver_parse_text(text)
    }

    /// The release `major.minor.patch`.
    pub fn new(major: u64, minor: u64, patch: u64) -> (v: SemVersion)
        ensures
            v@ == release(major, minor, patch),
    {
        semver_release(major, minor, patch)
    }

    /// Compares this version with `other`.
    pub fn compare(&self, other: &SemVersion) -> (order: VersionOrder)
        ensures
            order == semver_order(self@, other@),
            numbers_order(self@, other@) != VersionOrder::Equal ==> order == numbers_order(
                self@,
                other@,
            ),
            self@ == other@ ==> order == VersionOrder::Equal,
            is_release(other@) ==> order == order_against_release(self@, other@),
    {
        semver_compare(self, other)
    }

    /// The major number.
    pub fn major(&self) -> (major: u64)
        ensures
            major == self@.major,
    {
        self.major
    }

    /// The minor number.
    pub fn minor(&self) -> (minor: u64)
        ensures
            minor == self@.minor,
    {
        self.minor
    }

    /// The patch number.
    pub fn patch(&self) -> (patch: u64)
        ensures
            patch == self@.patch,
    {
        self.patch
    }

    /// The pre-release, empty where there is none.
    pub fn pre(&self) -> (pre: &str)
        ensures
            pre@ == self@.pre,
    {
        self.pre.as_str()
    }

    /// The text of this version, such as `1.2.3-rc.1+build.5`.
    pub fn to_string(&self) -> (text: String)
        ensures
            text@ == version_text(self@),
    {
        semver_display(self)
    }
}

} // verus!
