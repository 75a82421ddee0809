//! Manifest values: the connector's identity — name, author and semantic
//! version.  Loaded once at process start (the embedding program reads the
//! manifest file and hands the raw values in); immutable thereafter.

use crate::topic::Version;
use crate::topic::version_chars;
use vstd::prelude::*;

verus! {

/// The connector's identity.
#[derive(Clone, Debug)]
pub struct Manifest {
    pub name: String,
    pub author: String,
    pub version: Version,
}

/// Why raw manifest values were rejected.
#[derive(Debug)]
pub enum ManifestError {
    /// The version value is not a semantic version; carries the value.
    InvalidVersion(String),
}

#[verifier::external_type_specification]
#[verifier::external_body]
pub struct ExSemverError(semver::Error);

/// Relies on `semver::Version::parse`: a canonical `major.minor.patch`
/// string — each component decimal with no leading zeros — parses to
/// exactly those three components, with no pre-release and no build
/// metadata.  (The crate accepts further forms, with pre-release or build
/// suffixes; nothing is claimed of those here, and this library's own
/// formatting never produces them.)
#[verifier::external_body]
fn parse_semver(text: &str) -> (r: Result<(u64, u64, u64), semver::Error>)
    ensures
        r is Err ==> forall|a: u64, b: u64, c: u64|
            text@ != version_chars(Version { major: a, minor: b, patch: c }, '.'),
        r matches Ok(t) ==> forall|a: u64, b: u64, c: u64|
            text@ == version_chars(Version { major: a, minor: b, patch: c }, '.') ==> t == (
            a,
            b,
            c,
        ),
{
    match semver::Version::parse(text) {
        Ok(v) => Ok((v.major, v.minor, v.patch)),
        Err(e) => Err(e),
    }
}

impl Manifest {
    /// Assembles the manifest from the raw values of the manifest file,
    /// parsing the semantic version.
    pub fn init(name: String, author: String, version: &str) -> (r: Result<
        Manifest,
        ManifestError,
    >)
        ensures
            forall|a: u64, b: u64, c: u64|
                version@ == version_chars(Version { major: a, minor: b, patch: c }, '.') ==> (r
                    matches Ok(m) && m.version == (Version { major: a, minor: b, patch: c })),
            r matches Ok(m) ==> m.name@ == name@ && m.author@ == author@,
            r matches Err(ManifestError::InvalidVersion(v)) ==> v@ == version@,
    {
        match parse_semver(version) {
            Ok((major, minor, patch)) => Ok(
                Manifest { name, author, version: Version { major, minor, patch } },
            ),
            Err(_) => Err(ManifestError::InvalidVersion(version.to_owned())),
        }
    }
}

} // verus!
