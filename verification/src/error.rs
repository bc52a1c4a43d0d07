//! What can be wrong with a submission, and what can be wrong with a stored row.

use vstd::prelude::*;

verus! {

/// Why a batch of declarations was turned down. The first declaration at
/// fault decides, and nothing of the batch is kept.
#[derive(Clone, Debug, PartialEq, Eq)]
pub enum ValidationError {
    /// No package is stored under the declared name, which is carried here.
    UnknownPackage(String),
    /// The requirement constrains nothing, which the registry does not take.
    DisallowedConstraint,
    /// The parser rejects the requirement string, which is carried here.
    MalformedConstraint(String),
}

/// A reason for turning a batch down, as contracts speak of it.
pub enum ValidationErrorView {
    UnknownPackage(Seq<char>),
    DisallowedConstraint,
    MalformedConstraint(Seq<char>),
}

impl View for ValidationError {
    type V = ValidationErrorView;

    open spec fn view(&self) -> ValidationErrorView {
        match self {
            ValidationError::UnknownPackage(name) => ValidationErrorView::UnknownPackage(name@),
            ValidationError::DisallowedConstraint => ValidationErrorView::DisallowedConstraint,
            ValidationError::MalformedConstraint(req) => ValidationErrorView::MalformedConstraint(
                req@,
            ),
        }
    }
}

impl ValidationErrorView {
    /// The sentence shown to the submitter.
    pub open spec fn message(self) -> Seq<char> {
        match self {
            ValidationErrorView::UnknownPackage(name) => "no known crate named `"@ + name + "`"@,
            ValidationErrorView::DisallowedConstraint =>
                "wildcard (`*`) dependency constraints are not allowed on crates.io. See http://doc.crates.io/faq.html#can-libraries-use--as-a-version-for-their-dependencies for more information"@,
            ValidationErrorView::MalformedConstraint(req) => "invalid version requirement `"@ + req
                + "`"@,
        }
    }
}

impl ValidationError {
    /// The sentence shown to the submitter.
    pub fn message(&self) -> (text: String)
        ensures
            text@ == self@.message(),
    {
        match self {
            ValidationError::UnknownPackage(name) => {
                let mut text = "no known crate named `".to_owned();
                text.append(name.as_str());
                text.append("`");
                text
            },
            ValidationError::DisallowedConstraint => {
                "wildcard (`*`) dependency constraints are not allowed on crates.io. See http://doc.crates.io/faq.html#can-libraries-use--as-a-version-for-their-dependencies for more information".to_owned()
            },
            ValidationError::MalformedConstraint(req) => {
                let mut text = "invalid version requirement `".to_owned();
                text.append(req.as_str());
                text.append("`");
                text
            },
        }
    }
}

/// Why a stored row cannot be read as a record. Rows are written by the
/// registry itself, so either fault means the store was damaged.
#[derive(Clone, Debug, PartialEq, Eq)]
pub enum DataCorruption {
    /// The kind code, carried here, stands for no kind.
    UnknownKind(i32),
    /// The parser rejects the stored requirement string, which is carried here.
    MalformedRequirement(String),
}

/// A fault in a stored row, as contracts speak of it.
pub enum DataCorruptionView {
    UnknownKind(i32),
    MalformedRequirement(Seq<char>),
}

impl View for DataCorruption {
    type V = DataCorruptionView;

    open spec fn view(&self) -> DataCorruptionView {
        match self {
            DataCorruption::UnknownKind(code) => DataCorruptionView::UnknownKind(*code),
            DataCorruption::MalformedRequirement(req) => DataCorruptionView::MalformedRequirement(
                req@,
            ),
        }
    }
}

/// The view of a fault that may be absent.
pub open spec fn fault_view(fault: Option<DataCorruption>) -> Option<DataCorruptionView> {
    match fault {
        Some(f) => Some(f@),
        None => None,
    }
}

} // verus!
