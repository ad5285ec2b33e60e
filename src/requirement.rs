//! Resolved dependencies: a name and a parsed version requirement.

use vstd::prelude::*;
use crate::error::ManifestError;

verus! {

#[verifier::external_type_specification]
#[verifier::external_body]
pub struct ExVersionReq(semver::VersionReq);

#[verifier::external_type_specification]
#[verifier::external_body]
pub struct ExSemverError(semver::Error);

/// Whether a requirement string is accepted by the version-requirement parser.
pub uninterp spec fn parses_as_requirement(s: Seq<char>) -> bool;

/// Relies on `semver::VersionReq::parse`: whether it accepts a string depends
/// on the string alone.
#[verifier::external_body]
fn parse_requirement(text: &str) -> (r: Result<semver::VersionReq, semver::Error>)
    ensures
        r is Ok <==> parses_as_requirement(text@),
{
    semver::VersionReq::parse(text)
}

/// A dependency ready for graph resolution: its name, its requirement as
/// written, and the parsed requirement.
#[derive(Debug)]
pub struct Dependency {
    pub name: String,
    pub requirement: String,
    pub req: semver::VersionReq,
}

impl Dependency {
    /// Builds the dependency `name` from its requirement string and what the
    /// parser made of it; a parse failure is reported under the name.
    pub fn from_parsed(
        name: &str,
        requirement: &str,
        parsed: Result<semver::VersionReq, semver::Error>,
    ) -> (r: Result<Dependency, ManifestError>)
        ensures
            r is Ok <==> parsed is Ok,
            r matches Ok(d) ==> d.name@ == name@ && d.requirement@ == requirement@,
            r matches Err(e) ==> e matches ManifestError::InvalidVersionRequirement(n) && n@ == name@,
    {
        match parsed {
            Ok(req) => Ok(Dependency { name: name.to_owned(), requirement: requirement.to_owned(), req }),
            Err(_) => Err(ManifestError::InvalidVersionRequirement(name.to_owned())),
        }
    }

    /// Parses the requirement string of the dependency `name`.
    pub fn parse(name: &str, requirement: &str) -> (r: Result<Dependency, ManifestError>)
        ensures
            r is Ok <==> parses_as_requirement(requirement@),
            r matches Ok(d) ==> d.name@ == name@ && d.requirement@ == requirement@,
            r matches Err(e) ==> e matches ManifestError::InvalidVersionRequirement(n) && n@ == name@,
    {
        let parsed = parse_requirement(requirement);
        Dependency::from_parsed(name, requirement, parsed)
    }
}

} // verus!
