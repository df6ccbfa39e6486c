//! What the `semver` crate does for the library: it reads version texts, and
//! it orders pre-release and build parts. Nothing here is proved; each
//! contract says what the crate's source shows.

use crate::version::{Rank, Version, VersionView};
use std::cmp::Ordering;
use vstd::prelude::*;

verus! {

/// The error of `semver` for a text that it cannot read.
#[verifier::external_type_specification]
#[verifier::external_body]
pub struct ExSemverError(semver::Error);

/// What `semver::Version::parse` makes of a text: the parts of the version
/// that it reads, or nothing where it refuses the text.
pub uninterp spec fn semver_reading(text: Seq<char>) -> Option<VersionView>;

/// How `semver` orders two versions with the same numbers, the first with
/// the parts `left_pre` and `left_build`, the second with `right_pre` and
/// `right_build`: the result of `Ord::cmp` on them, or nothing where
/// `semver::Prerelease::new` or `semver::BuildMetadata::new` refuses a part.
pub uninterp spec fn semver_suffix_rank(
    left_pre: Seq<char>,
    left_build: Seq<char>,
    right_pre: Seq<char>,
    right_build: Seq<char>,
) -> Option<Rank>;

/// Calls `semver::Version::parse`. The version returned holds the numbers
/// that `semver` read, and its pre-release and build parts as `semver` writes
/// them; the error is the one of `semver`.
#[verifier::external_body]
pub(crate) fn read_version(text: &str) -> (read: Result<Version, semver::Error>)
    ensures
        match read {
            Ok(version) => semver_reading(text@) == Some(version@),
            Err(_) => semver_reading(text@) is None,
        },
{
    let read = semver::Version::parse(text)?;
    Ok(
        Version {
            major: read.major,
            minor: read.minor,
            patch: read.patch,
            pre: read.pre.as_str().to_string(),
            build: read.build.as_str().to_string(),
        },
    )
}

/// Calls `Ord::cmp` of `semver::Version` on two versions whose numbers are
/// all zero and whose other parts are made of the four texts, by
/// `semver::Prerelease::new` and `semver::BuildMetadata::new`. The rank says
/// how the first version stands to the second; an error is the one of
/// `semver` for a part that it refuses.
#[verifier::external_body]
pub(crate) fn rank_suffixes(
    left_pre: &str,
    left_build: &str,
    right_pre: &str,
    right_build: &str,
) -> (ranked: Result<Rank, semver::Error>)
    ensures
        match ranked {
            Ok(rank) => semver_suffix_rank(left_pre@, left_build@, right_pre@, right_build@)
                == Some(rank),
            Err(_) => semver_suffix_rank(left_pre@, left_build@, right_pre@, right_build@) is None,
        },
{
    let mut left = semver::Version::new(0, 0, 0);
    left.pre = semver::Prerelease::new(left_pre)?;
    left.build = semver::BuildMetadata::new(left_build)?;
    let mut right = semver::Version::new(0, 0, 0);
    right.pre = semver::Prerelease::new(right_pre)?;
    right.build = semver::BuildMetadata::new(right_build)?;
    Ok(
        match left.cmp(&right) {
            Ordering::Less => Rank::Older,
            Ordering::Equal => Rank::Same,
            Ordering::Greater => Rank::Newer,
        },
    )
}

} // verus!
