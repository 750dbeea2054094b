//! Whether the book's host is of a version that this expansion was built
//! for.

use semver::{Version, VersionReq};
use vstd::prelude::*;
use vstd::string::StringExecFns;

verus! {

/// Why the host's version could not be judged.
#[derive(Clone, Copy, Debug, PartialEq, Eq)]
pub enum HostError {
    /// One of the two versions is not written as a version is.
    UnreadableVersion,
}

/// Whether the version `version` meets the requirement `required`, as the
/// `semver` crate reads and compares the two; nothing where the crate
/// cannot read one of them.
pub uninterp spec fn semver_matches(required: Seq<char>, version: Seq<char>) -> Option<bool>;

/// Reads a requirement and a version and says whether the version meets
/// the requirement.
///
/// Reads `required` with `semver::VersionReq::parse` and `version` with
/// `semver::Version::parse`, and compares them with `VersionReq::matches`.
/// The contract names the outcome [`semver_matches`] and claims nothing
/// more of it.
#[verifier::external_body]
pub(crate) fn version_matches(required: &str, version: &str) -> (r: Option<bool>)
    ensures
        r == semver_matches(required@, version@),
{
    match (VersionReq::parse(required), Version::parse(version)) {
        (Ok(required), Ok(version)) => Some(required.matches(&version)),
        _ => None,
    }
}

/// The warning that a host of another version is given.
pub open spec fn mismatch_warning(name: Seq<char>, built_against: Seq<char>, host: Seq<char>) -> Seq<
    char,
> {
    "Warning: The "@ + name + " plugin was built against version "@ + built_against
        + " of mdbook, but we're being called from version "@ + host
}

/// What follows from the comparison of the two versions: no warning where
/// the host's version meets the requirement, a warning where it does not,
/// and a failure where the versions could not be read.
pub open spec fn host_verdict(
    outcome: Option<bool>,
    name: Seq<char>,
    built_against: Seq<char>,
    host: Seq<char>,
) -> Result<Option<Seq<char>>, HostError> {
    match outcome {
        Some(true) => Ok(None),
        Some(false) => Ok(Some(mismatch_warning(name, built_against, host))),
        None => Err(HostError::UnreadableVersion),
    }
}

/// Says what follows from `outcome`, the comparison of the version that
/// the expansion was built against with the version that the host reports.
/// A mismatch is no failure: the expansion goes on, with a warning.
pub fn judge_host(outcome: Option<bool>, name: &str, built_against: &str, host: &str) -> (r: Result<
    Option<String>,
    HostError,
>)
    ensures
        match r {
            Ok(warning) => host_verdict(outcome, name@, built_against@, host@) == Ok::<
                Option<Seq<char>>,
                HostError,
            >(warning.deep_view()),
            Err(e) => host_verdict(outcome, name@, built_against@, host@) == Err::<
                Option<Seq<char>>,
                HostError,
            >(e),
        },
{
    match outcome {
        Some(true) => Ok(None),
        Some(false) => {
            let mut s = String::new();
            s.append("Warning: The ");
            s.append(name);
            s.append(" plugin was built against version ");
            s.append(built_against);
            s.append(" of mdbook, but we're being called from version ");
            s.append(host);
            assert(s@ =~= mismatch_warning(name@, built_against@, host@));
            Ok(Some(s))
        },
        None => Err(HostError::UnreadableVersion),
    }
}

/// Compares the version that the host reports with the version that the
/// expansion was built against, read as a requirement.
pub fn check_host_version(name: &str, built_against: &str, host: &str) -> (r: Result<
    Option<String>,
    HostError,
>)
    ensures
        match r {
            Ok(warning) => host_verdict(
                semver_matches(built_against@, host@),
                name@,
                built_against@,
                host@,
            ) == Ok::<Option<Seq<char>>, HostError>(warning.deep_view()),
            Err(e) => host_verdict(
                semver_matches(built_against@, host@),
                name@,
                built_against@,
                host@,
            ) == Err::<Option<Seq<char>>, HostError>(e),
        },
{
    judge_host(version_matches(built_against, host), name, built_against, host)
}

} // verus!
