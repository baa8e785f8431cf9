//! Semantic-version parsing, shared by every entity that carries a version.
use vstd::prelude::*;

verus! {

#[verifier::external_type_specification]
#[verifier::external_body]
pub struct ExVersion(semver::Version);

#[verifier::external_type_specification]
#[verifier::external_body]
pub struct ExSemverError(semver::Error);

/// Whether the text is a well-formed semantic version.
pub uninterp spec fn is_semver(s: Seq<char>) -> bool;

/// A version text that could not be parsed.
#[derive(Debug, Clone, PartialEq, Eq)]
pub struct VersionParseError {
    pub text: String,
}

/// Relies on `semver::Version::parse`: success exactly on well-formed
/// versions, and an error on empty text.
#[verifier::external_body]
fn parse_semver(text: &str) -> (r: Result<semver::Version, semver::Error>)
    ensures
        r is Ok <==> is_semver(text@),
        text@.len() == 0 ==> r is Err,
{
    semver::Version::parse(text)
}

/// Parses a semantic version; the error keeps the text that was refused.
pub fn parse_version_text(text: &str) -> (r: Result<semver::Version, VersionParseError>)
    ensures
        r is Ok <==> is_semver(text@),
        text@.len() == 0 ==> r is Err,
        r is Err ==> r->Err_0.text@ == text@,
{
    match parse_semver(text) {
        Ok(v) => Ok(v),
        Err(_) => Err(VersionParseError { text: text.to_owned() }),
    }
}

} // verus!
