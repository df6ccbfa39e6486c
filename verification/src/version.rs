//! Application versions and their order.
//!
//! A version holds three numbers and, as texts, the pre-release and build
//! parts that may follow them. The numbers are compared here; the texts are
//! read and ordered by the `semver` crate.

use crate::outside::{rank_suffixes, read_version, semver_reading, semver_suffix_rank};
use vstd::prelude::*;

verus! {

/// How one version stands to another.
#[derive(Clone, Copy, Debug, PartialEq, Eq, Structural)]
pub enum Rank {
    /// It comes before the other.
    Older,
    /// It is the other.
    Same,
    /// It comes after the other.
    Newer,
}

/// A version `major.minor.patch`, with the pre-release part that may follow
/// after a hyphen and the build part that may follow after a plus sign. A part
/// that is absent is the empty text.
#[derive(Debug, PartialEq, Eq)]
pub struct Version {
    pub major: u64,
    pub minor: u64,
    pub patch: u64,
    /// The pre-release part, without its hyphen.
    pub pre: String,
    /// The build part, without its plus sign.
    pub build: String,
}

/// A version as a mathematical value.
pub struct VersionView {
    pub major: u64,
    pub minor: u64,
    pub patch: u64,
    /// The characters of the pre-release part.
    pub pre: Seq<char>,
    /// The characters of the build part.
    pub build: Seq<char>,
}

impl View for Version {
    type V = VersionView;

    open spec fn view(&self) -> VersionView {
        VersionView {
            major: self.major,
            minor: self.minor,
            patch: self.patch,
            pre: self.pre@,
            build: self.build@,
        }
    }
}

/// The view of a version that may be absent.
pub open spec fn view_of(version: Option<Version>) -> Option<VersionView> {
    match version {
        Some(version) => Some(version@),
        None => None,
    }
}

/// The two versions have the same three numbers.
pub open spec fn same_numbers(left: VersionView, right: VersionView) -> bool {
    left.major == right.major && left.minor == right.minor && left.patch == right.patch
}

/// How `left` stands to `right` by the numbers alone: `major` decides, then
/// `minor`, then `patch`.
pub open spec fn rank_of_numbers(left: VersionView, right: VersionView) -> Rank {
    if left.major != right.major {
        if left.major > right.major {
            Rank::Newer
        } else {
            Rank::Older
        }
    } else if left.minor != right.minor {
        if left.minor > right.minor {
            Rank::Newer
        } else {
            Rank::Older
        }
    } else if left.patch != right.patch {
        if left.patch > right.patch {
            Rank::Newer
        } else {
            Rank::Older
        }
    } else {
        Rank::Same
    }
}

/// How `left` stands to `right`. The numbers decide where they differ. Two
/// versions with the same numbers and no other part are the same. Where the
/// numbers agree and a pre-release or build part is there, `semver` orders the
/// two, and there is no rank if it refuses one of the parts.
pub open spec fn rank_of(left: VersionView, right: VersionView) -> Option<Rank> {
    if !same_numbers(left, right) {
        Some(rank_of_numbers(left, right))
    } else if left.plain() && right.plain() {
        Some(Rank::Same)
    } else {
        semver_suffix_rank(left.pre, left.build, right.pre, right.build)
    }
}

impl VersionView {
    /// The version has no pre-release part and no build part.
    pub open spec fn plain(self) -> bool {
        self.pre.len() == 0 && self.build.len() == 0
    }

    /// `self` comes strictly after `other` in the version order.
    pub open spec fn newer_than(self, other: VersionView) -> bool {
        rank_of(self, other) == Some(Rank::Newer)
    }

    /// `self` comes before `other` in the version order, or is `other`.
    pub open spec fn at_most(self, other: VersionView) -> bool {
        rank_of(self, other) == Some(Rank::Older) || rank_of(self, other) == Some(Rank::Same)
    }
}

impl Clone for Version {
    fn clone(&self) -> (copy: Version)
        ensures
            copy@ == self@,
    {
        Version {
            major: self.major,
            minor: self.minor,
            patch: self.patch,
            pre: self.pre.clone(),
            build: self.build.clone(),
        }
    }
}

impl Version {
    /// The version `major.minor.patch`, with no other part.
    pub fn new(major: u64, minor: u64, patch: u64) -> (version: Version)
        ensures
            version@.major == major,
            version@.minor == minor,
            version@.patch == patch,
            version@.plain(),
    {
        Version { major, minor, patch, pre: String::new(), build: String::new() }
    }

    /// Reads a version as `semver` reads it: `Some` with the parts that it
    /// finds in the text, `None` for a text that it refuses.
    pub fn parse(text: &str) -> (version: Option<Version>)
        ensures
            view_of(version) == semver_reading(text@),
    {
        match read_version(text) {
            Ok(version) => Some(version),
            Err(_) => None,
        }
    }

    /// Whether the version has neither a pre-release nor a build part.
    pub fn is_plain(&self) -> (plain: bool)
        ensures
            plain == self@.plain(),
    {
        self.pre.as_str().is_empty() && self.build.as_str().is_empty()
    }

    /// How `self` stands to `other`, if the two can be compared.
    pub fn rank(&self, other: &Version) -> (rank: Option<Rank>)
        ensures
            rank == rank_of(self@, other@),
    {
        if self.major != other.major {
            Some(newer_if(self.major > other.major))
        } else if self.minor != other.minor {
            Some(newer_if(self.minor > other.minor))
        } else if self.patch != other.patch {
            Some(newer_if(self.patch > other.patch))
        } else if self.is_plain() && other.is_plain() {
            Some(Rank::Same)
        } else {
            match rank_suffixes(
                self.pre.as_str(),
                self.build.as_str(),
                other.pre.as_str(),
                other.build.as_str(),
            ) {
                Ok(rank) => Some(rank),
                Err(_) => None,
            }
        }
    }

    /// Whether `self` is strictly newer than `other`.
    pub fn is_newer_than(&self, other: &Version) -> (newer: bool)
        ensures
            newer == self@.newer_than(other@),
    {
        match self.rank(other) {
            Some(Rank::Newer) => true,
            _ => false,
        }
    }
}

/// `Newer` for the larger number, `Older` for the smaller.
fn newer_if(larger: bool) -> (rank: Rank)
    ensures
        rank == if larger {
            Rank::Newer
        } else {
            Rank::Older
        },
{
    if larger {
        Rank::Newer
    } else {
        Rank::Older
    }
}

/// Where the numbers of two versions differ, they decide the order, whatever
/// the other parts are, and one of the two is newer.
pub proof fn numbers_decide(left: VersionView, right: VersionView)
    requires
        !same_numbers(left, right),
    ensures
        rank_of(left, right) == Some(rank_of_numbers(left, right)),
        left.newer_than(right) <==> right.at_most(left),
        left.newer_than(right) || right.newer_than(left),
        !(left.newer_than(right) && right.newer_than(left)),
{
}

/// No version without a pre-release or build part is newer than itself.
pub proof fn newer_than_is_irreflexive(a: VersionView)
    requires
        a.plain(),
    ensures
        !a.newer_than(a),
        a.at_most(a),
{
}

/// Among versions without a pre-release or build part: if `a` is newer than
/// `b` and `b` is newer than `c`, then `a` is newer than `c`.
pub proof fn newer_than_is_transitive(a: VersionView, b: VersionView, c: VersionView)
    requires
        a.plain(),
        b.plain(),
        c.plain(),
        a.newer_than(b),
        b.newer_than(c),
    ensures
        a.newer_than(c),
{
}

/// Of two versions without a pre-release or build part exactly one holds: the
/// first is newer, the second is newer, or they are the same version.
pub proof fn version_order_is_total(a: VersionView, b: VersionView)
    requires
        a.plain(),
        b.plain(),
    ensures
        a.newer_than(b) || b.newer_than(a) || a == b,
        !(a.newer_than(b) && b.newer_than(a)),
        a == b ==> !a.newer_than(b),
        a.at_most(b) <==> !a.newer_than(b),
{
    if same_numbers(a, b) {
        assert(a.pre =~= b.pre);
        assert(a.build =~= b.build);
    }
}

} // verus!
