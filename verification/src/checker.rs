//! The update checker: from what the manifest endpoint answered to an update
//! descriptor, to "no update", or to an error.

use crate::outside::semver_reading;
use crate::version::{rank_of, Rank, Version, VersionView};
use vstd::prelude::*;
use vstd::string::*;

verus! {

/// Why a check did not come to a result.
#[derive(Clone, Copy, Debug, PartialEq, Eq, Structural)]
pub enum CheckError {
    /// The manifest endpoint could not be reached.
    NetworkUnreachable,
    /// The endpoint answered, but not with a manifest that names a version, a
    /// download location and an integrity token.
    MalformedManifest,
    /// The manifest's version is not the text of a version, or it cannot be
    /// compared with the running one.
    UnparsableVersion,
}

/// The fields that the host found in a manifest document.
#[derive(Clone, Debug, PartialEq, Eq)]
pub struct RemoteManifest {
    /// The advertised version, as written in the document.
    pub version: Option<String>,
    /// Where the artifact can be fetched.
    pub location: Option<String>,
    /// The artifact's length in bytes, where the manifest gives it.
    pub content_length: Option<u64>,
    /// The artifact's checksum or signature.
    pub integrity: Option<String>,
}

/// A manifest's fields as mathematical values.
pub struct ManifestView {
    /// The characters of the advertised version.
    pub version: Option<Seq<char>>,
    /// The characters of the download location.
    pub location: Option<Seq<char>>,
    /// The artifact's length in bytes.
    pub content_length: Option<u64>,
    /// The characters of the integrity token.
    pub integrity: Option<Seq<char>>,
}

/// The characters of a text that may be absent.
pub open spec fn text_of(field: Option<String>) -> Option<Seq<char>> {
    match field {
        Some(text) => Some(text@),
        None => None,
    }
}

impl View for RemoteManifest {
    type V = ManifestView;

    open spec fn view(&self) -> ManifestView {
        ManifestView {
            version: text_of(self.version),
            location: text_of(self.location),
            content_length: self.content_length,
            integrity: text_of(self.integrity),
        }
    }
}

/// What came of the one request to the manifest endpoint.
#[derive(Clone, Debug, PartialEq, Eq)]
pub enum Fetched {
    /// No answer came.
    Unreachable,
    /// An answer came that is no manifest document.
    Unreadable,
    /// A manifest document came, with these fields.
    Document(RemoteManifest),
}

/// The outcome of a fetch as a mathematical value.
pub enum FetchedView {
    /// No answer came.
    Unreachable,
    /// An answer came that is no manifest document.
    Unreadable,
    /// A manifest document came, with these fields.
    Document(ManifestView),
}

impl View for Fetched {
    type V = FetchedView;

    open spec fn view(&self) -> FetchedView {
        match self {
            Fetched::Unreachable => FetchedView::Unreachable,
            Fetched::Unreadable => FetchedView::Unreadable,
            Fetched::Document(manifest) => FetchedView::Document(manifest@),
        }
    }
}

/// An available update. Only a check makes one, and only for a version that is
/// newer than the running one. It cannot be changed or copied: whoever asked
/// for the check owns it, and hands it to the installer.
#[derive(Debug, PartialEq, Eq)]
pub struct UpdateDescriptor {
    version: Version,
    replaces: Version,
    location: String,
    content_length: Option<u64>,
    integrity: String,
}

/// An update descriptor as a mathematical value.
pub struct DescriptorView {
    /// The version that the update installs.
    pub version: VersionView,
    /// The running version that the update was found for.
    pub replaces: VersionView,
    /// Where the artifact is fetched from.
    pub location: Seq<char>,
    /// The artifact's length in bytes, if known.
    pub content_length: Option<u64>,
    /// The token that the staged artifact must have.
    pub integrity: Seq<char>,
}

impl DescriptorView {
    /// The update is newer than what it replaces.
    pub open spec fn well_formed(self) -> bool {
        self.version.newer_than(self.replaces)
    }
}

impl View for UpdateDescriptor {
    type V = DescriptorView;

    closed spec fn view(&self) -> DescriptorView {
        DescriptorView {
            version: self.version@,
            replaces: self.replaces@,
            location: self.location@,
            content_length: self.content_length,
            integrity: self.integrity@,
        }
    }
}

impl UpdateDescriptor {
    #[verifier::type_invariant]
    spec fn newer_than_replaced(&self) -> bool {
        self.version@.newer_than(self.replaces@)
    }

    /// The version that the update installs. It is newer than the version
    /// that it replaces.
    pub fn version(&self) -> (r: &Version)
        ensures
            r@ == self@.version,
            self@.well_formed(),
    {
        proof {
            use_type_invariant(self);
        }
        &self.version
    }

    /// The running version that the update was found for.
    pub fn replaces(&self) -> (r: &Version)
        ensures
            r@ == self@.replaces,
            self@.well_formed(),
    {
        proof {
            use_type_invariant(self);
        }
        &self.replaces
    }

    /// Where the artifact is fetched from.
    pub fn location(&self) -> (r: &str)
        ensures
            r@ == self@.location,
    {
        self.location.as_str()
    }

    /// The artifact's length in bytes, if the manifest gave it.
    pub fn content_length(&self) -> (r: Option<u64>)
        ensures
            r == self@.content_length,
    {
        self.content_length
    }

    /// The token that the staged artifact must have.
    pub fn integrity(&self) -> (r: &str)
        ensures
            r@ == self@.integrity,
    {
        self.integrity.as_str()
    }

    /// Whether `token` is the token that the staged artifact must have.
    pub fn token_matches(&self, token: &String) -> (r: bool)
        ensures
            r == (token@ == self@.integrity),
    {
        *token == self.integrity
    }
}

/// The result of a check as a mathematical value.
pub open spec fn result_view(result: Result<Option<UpdateDescriptor>, CheckError>) -> Result<
    Option<DescriptorView>,
    CheckError,
> {
    match result {
        Ok(Some(descriptor)) => Ok(Some(descriptor@)),
        Ok(None) => Ok(None),
        Err(error) => Err(error),
    }
}

/// A text without the letters `v` that it begins with.
pub open spec fn without_leading_v(text: Seq<char>) -> Seq<char>
    decreases text.len(),
{
    if text.len() > 0 && text[0] == 'v' {
        without_leading_v(text.drop_first())
    } else {
        text
    }
}

/// What follows for the running version `current` from an advertised version
/// `remote` that was read: a descriptor if `remote` is newer, nothing if it is
/// the same or older, and an error if the two cannot be compared.
pub open spec fn judge_spec(
    current: VersionView,
    remote: VersionView,
    location: Seq<char>,
    content_length: Option<u64>,
    integrity: Seq<char>,
) -> Result<Option<DescriptorView>, CheckError> {
    match rank_of(remote, current) {
        None => Err(CheckError::UnparsableVersion),
        Some(Rank::Newer) => Ok(
            Some(
                DescriptorView {
                    version: remote,
                    replaces: current,
                    location,
                    content_length,
                    integrity,
                },
            ),
        ),
        Some(_) => Ok(None),
    }
}

/// What a check finds for the running version `current` in what was fetched.
///
/// An unreachable endpoint and an unreadable answer are errors. So is a
/// document that lacks the version, the location or the token, and after that
/// a version that cannot be read. The version is read without the letters `v`
/// that it may begin with. What follows from a version that was read is
/// `judge_spec`.
pub open spec fn check_spec(current: VersionView, fetched: FetchedView) -> Result<
    Option<DescriptorView>,
    CheckError,
> {
    match fetched {
        FetchedView::Unreachable => Err(CheckError::NetworkUnreachable),
        FetchedView::Unreadable => Err(CheckError::MalformedManifest),
        FetchedView::Document(manifest) => match (
            manifest.version,
            manifest.location,
            manifest.integrity,
        ) {
            (Some(version), Some(location), Some(integrity)) => match semver_reading(
                without_leading_v(version),
            ) {
                None => Err(CheckError::UnparsableVersion),
                Some(remote) => judge_spec(
                    current,
                    remote,
                    location,
                    manifest.content_length,
                    integrity,
                ),
            },
            _ => Err(CheckError::MalformedManifest),
        },
    }
}

/// Takes away the letters `v` that a version text may begin with.
pub fn strip_leading_v(text: &str) -> (rest: &str)
    ensures
        rest@ == without_leading_v(text@),
{
    let len: usize = text.unicode_len();
    let mut skipped: usize = 0;
    assert(text@.skip(0) =~= text@);
    while skipped < len
        invariant
            len == text@.len(),
            skipped <= len,
            without_leading_v(text@) == without_leading_v(text@.skip(skipped as int)),
        ensures
            skipped <= len,
            without_leading_v(text@) == text@.skip(skipped as int),
        decreases len - skipped,
    {
        let ghost rest = text@.skip(skipped as int);
        assert(rest[0] == text@[skipped as int]);
        if text.get_char(skipped) != 'v' {
            break ;
        }
        assert(rest.drop_first() =~= text@.skip(skipped + 1));
        skipped = skipped + 1;
    }
    assert(text@.subrange(skipped as int, len as int) =~= text@.skip(skipped as int));
    text.substring_char(skipped, len)
}

/// The checker's configuration: where the manifest is, and which version runs.
#[derive(Clone, Debug, PartialEq, Eq)]
pub struct UpdateChecker {
    /// The manifest endpoint.
    pub endpoint: String,
    /// The version of the running application.
    pub current: Version,
}

impl UpdateChecker {
    /// A checker for the application that runs `current` and asks `endpoint`.
    pub fn new(endpoint: String, current: Version) -> (checker: UpdateChecker)
        ensures
            checker.endpoint@ == endpoint@,
            checker.current@ == current@,
    {
        UpdateChecker { endpoint, current }
    }

    /// Decides what an advertised version that was read means for the running
    /// one.
    pub fn judge(
        &self,
        remote: Version,
        location: String,
        content_length: Option<u64>,
        integrity: String,
    ) -> (result: Result<Option<UpdateDescriptor>, CheckError>)
        ensures
            result_view(result) == judge_spec(
                self.current@,
                remote@,
                location@,
                content_length,
                integrity@,
            ),
    {
        match remote.rank(&self.current) {
            None => Err(CheckError::UnparsableVersion),
            Some(Rank::Newer) => Ok(
                Some(
                    UpdateDescriptor {
                        version: remote,
                        replaces: self.current.clone(),
                        location,
                        content_length,
                        integrity,
                    },
                ),
            ),
            Some(_) => Ok(None),
        }
    }

    /// Decides what the fetched manifest means for the running version.
    pub fn check(&self, fetched: Fetched) -> (result: Result<Option<UpdateDescriptor>, CheckError>)
        ensures
            result_view(result) == check_spec(self.current@, fetched@),
    {
        match fetched {
            Fetched::Unreachable => Err(CheckError::NetworkUnreachable),
            Fetched::Unreadable => Err(CheckError::MalformedManifest),
            Fetched::Document(manifest) => {
                let RemoteManifest { version, location, content_length, integrity } = manifest;
                match (version, location, integrity) {
                    (Some(version), Some(location), Some(integrity)) => {
                        match Version::parse(strip_leading_v(version.as_str())) {
                            None => Err(CheckError::UnparsableVersion),
                            Some(remote) => self.judge(
                                remote,
                                location,
                                content_length,
                                integrity,
                            ),
                        }
                    },
                    _ => Err(CheckError::MalformedManifest),
                }
            },
        }
    }
}

/// An advertised version that was read gives a descriptor exactly when it is
/// newer than the running one, and nothing exactly when it is the running
/// version or an older one. The descriptor is for the advertised version.
pub proof fn update_iff_newer(
    current: VersionView,
    remote: VersionView,
    location: Seq<char>,
    content_length: Option<u64>,
    integrity: Seq<char>,
)
    ensures
        judge_spec(current, remote, location, content_length, integrity) matches Ok(Some(_))
            <==> remote.newer_than(current),
        judge_spec(current, remote, location, content_length, integrity) == Ok::<
            Option<DescriptorView>,
            CheckError,
        >(None) <==> remote.at_most(current),
        judge_spec(current, remote, location, content_length, integrity) matches Ok(
            Some(descriptor),
        ) ==> descriptor.version == remote && descriptor.replaces == current
            && descriptor.well_formed(),
{
}

/// Between versions without a pre-release or build part the numbers decide
/// all: there is a descriptor exactly when the advertised numbers are the
/// larger ones, and nothing otherwise.
pub proof fn plain_update_iff_larger(
    current: VersionView,
    remote: VersionView,
    location: Seq<char>,
    content_length: Option<u64>,
    integrity: Seq<char>,
)
    requires
        current.plain(),
        remote.plain(),
    ensures
        judge_spec(current, remote, location, content_length, integrity) is Ok,
        judge_spec(current, remote, location, content_length, integrity)->Ok_0 is Some
            <==> crate::version::rank_of_numbers(remote, current) == Rank::Newer,
{
}

/// The manifest's version is read as `semver` reads it, and what is read is
/// judged: for a manifest that names its version, location and token, a check
/// is a judgement of the version read from the text without its leading `v`s.
pub proof fn check_judges_what_is_read(current: VersionView, manifest: ManifestView)
    requires
        manifest.version is Some,
        manifest.location is Some,
        manifest.integrity is Some,
    ensures
        check_spec(current, FetchedView::Document(manifest)) == match semver_reading(
            without_leading_v(manifest.version->0),
        ) {
            Some(remote) => judge_spec(
                current,
                remote,
                manifest.location->0,
                manifest.content_length,
                manifest.integrity->0,
            ),
            None => Err(CheckError::UnparsableVersion),
        },
{
}

/// Whatever was fetched, a descriptor is made only for a version that is
/// newer than the running one, and it names the running one as replaced.
pub proof fn found_update_is_newer(current: VersionView, fetched: FetchedView)
    ensures
        check_spec(current, fetched) matches Ok(Some(descriptor)) ==> descriptor.well_formed()
            && descriptor.replaces == current,
{
}

/// Two checks of the same manifest for the same running version end alike:
/// both with the same error, both with nothing, or both with descriptors that
/// agree in every field.
pub proof fn check_is_repeatable(
    current: VersionView,
    first: Fetched,
    second: Fetched,
    first_result: Result<Option<UpdateDescriptor>, CheckError>,
    second_result: Result<Option<UpdateDescriptor>, CheckError>,
)
    requires
        first@ == second@,
        result_view(first_result) == check_spec(current, first@),
        result_view(second_result) == check_spec(current, second@),
    ensures
        result_view(first_result) == result_view(second_result),
{
}

} // verus!
