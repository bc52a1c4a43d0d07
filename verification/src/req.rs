//! Version requirements, as the `semver` crate reads and prints them.

use vstd::prelude::*;

verus! {

/// What the parser makes of a requirement: the text it prints for it, and
/// whether it is the requirement that constrains nothing.
pub struct ReqView {
    pub text: Seq<char>,
    pub wildcard: bool,
}

/// The parser's reading of a requirement string: `None` where it rejects the
/// string, else the text it prints for the requirement and whether that
/// requirement equals the unconstrained one.
pub uninterp spec fn parsed_req(text: Seq<char>) -> Option<ReqView>;

/// The parser's own account of why it rejected a string. Nothing is read from it.
#[verifier::external_type_specification]
#[verifier::external_body]
pub struct ExSemverError(semver::Error);

/// A version requirement that the parser has accepted.
#[derive(Clone, Debug, PartialEq, Eq)]
pub struct VersionReq {
    text: String,
    wildcard: bool,
}

impl View for VersionReq {
    type V = ReqView;

    closed spec fn view(&self) -> ReqView {
        ReqView { text: self.text@, wildcard: self.wildcard }
    }
}

/// The view of what a reading of a requirement string gave.
pub open spec fn reading_view(reading: Option<VersionReq>) -> Option<ReqView> {
    match reading {
        Some(req) => Some(req@),
        None => None,
    }
}

/// Calls `semver::VersionReq::parse`, and on success reads the requirement out
/// with `semver::VersionReq::to_string` and with `==` against
/// `semver::VersionReq::STAR`. The contract only names the outcome: the same
/// string always gives the same reading, and an error comes exactly where
/// there is no reading.
#[verifier::external_body]
fn semver_parse(text: &str) -> (r: Result<VersionReq, semver::Error>)
    ensures
        r matches Ok(req) ==> parsed_req(text@) == Some(req@),
        r is Err ==> parsed_req(text@) is None,
{
    let req = semver::VersionReq::parse(text)?;
    Ok(VersionReq { wildcard: req == semver::VersionReq::STAR, text: req.to_string() })
}

impl VersionReq {
    /// Holds of a value that stands for some requirement string's reading.
    pub open spec fn wf(&self) -> bool {
        exists|source: Seq<char>| #[trigger] parsed_req(source) == Some(self@)
    }

    /// Reads a requirement string. `None` exactly where the parser rejects it.
    pub fn parse(text: &str) -> (r: Option<VersionReq>)
        ensures
            reading_view(r) == parsed_req(text@),
            r matches Some(req) ==> req.wf(),
    {
        match semver_parse(text) {
            Ok(req) => Some(req),
            Err(_) => None,
        }
    }

    /// The text the parser prints for this requirement.
    pub fn to_string(&self) -> (s: String)
        ensures
            s@ == self@.text,
    {
        self.text.clone()
    }

    /// Whether this is the requirement that constrains nothing.
    pub fn is_wildcard(&self) -> (b: bool)
        ensures
            b == self@.wildcard,
    {
        self.wildcard
    }
}

} // verus!
