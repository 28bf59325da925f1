use vstd::prelude::*;
use crate::types::ConfigError;

verus! {

/// A semantic version: `major.minor.patch`, with the pre-release and build
/// metadata identifiers as written (empty when absent).
#[derive(Debug, PartialEq, Eq, Clone)]
pub struct SemVersion {
    pub major: u64,
    pub minor: u64,
    pub patch: u64,
    pub pre: String,
    pub build: String,
}

impl View for SemVersion {
    type V = (u64, u64, u64, Seq<char>, Seq<char>);

    open spec fn view(&self) -> Self::V {
        (self.major, self.minor, self.patch, self.pre@, self.build@)
    }
}

impl SemVersion {
    /// The version `major.minor.patch`, with no pre-release or build metadata.
    pub fn new(major: u64, minor: u64, patch: u64) -> (r: SemVersion)
        ensures
            r@ == (major, minor, patch, Seq::<char>::empty(), Seq::<char>::empty()),
    {
        SemVersion { major, minor, patch, pre: String::new(), build: String::new() }
    }
}

/// What semver's parser makes of a text: its components, or `None` where the
/// text is not a semantic version.
pub uninterp spec fn semver_of(s: Seq<char>) -> Option<(u64, u64, u64, Seq<char>, Seq<char>)>;

/// `semver::Error`, the parser's rejection, carried opaquely until it is
/// mapped to [`ConfigError::VersionParse`].
#[verifier::external_type_specification]
#[verifier::external_body]
pub struct ExSemverError(semver::Error);

/// Relies on `semver::Version::parse`: it accepts exactly the semantic
/// versions, rejects the empty text, and otherwise depends on the text alone.
/// The components of the parsed version are copied out one for one.
#[verifier::external_body]
fn semver_parse(s: &str) -> (r: Result<SemVersion, semver::Error>)
    ensures
        s@.len() == 0 ==> r is Err,
        match r {
            Ok(v) => semver_of(s@) == Some(v@),
            Err(_) => semver_of(s@) is None,
        },
{
    match semver::Version::parse(s) {
        Ok(v) => Ok(SemVersion {
            major: v.major,
            minor: v.minor,
            patch: v.patch,
            pre: v.pre.as_str().to_string(),
            build: v.build.as_str().to_string(),
        }),
        Err(e) => Err(e),
    }
}

/// Parses `text` as a semantic version. A text that is not one is rejected
/// with [`ConfigError::VersionParse`] carrying the text.
pub fn parse_version(text: String) -> (r: Result<SemVersion, ConfigError>)
    ensures
        text@.len() == 0 ==> r is Err,
        match semver_of(text@) {
            Some(m) => r matches Ok(v) && v@ == m,
            None => r == Err::<SemVersion, ConfigError>(ConfigError::VersionParse { value: text }),
        },
{
    match semver_parse(text.as_str()) {
        Ok(v) => Ok(v),
        Err(_) => Err(ConfigError::VersionParse { value: text }),
    }
}

} // verus!
