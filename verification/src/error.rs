//! Why a record is rejected.

use vstd::prelude::*;
use vstd::string::StringExecFns;

verus! {

/// A record that the generators reject. Each carries the offending identifier.
#[derive(Debug, PartialEq, Eq)]
pub enum GenError {
    /// The record is not a struct with named fields, or a field's type is not a
    /// path with a name.
    UnsupportedShape { ident: String },
    /// A container type lacks the type arguments that it is read by.
    InferenceFailure { ident: String },
    /// A clustering key is declared and no partition key is.
    AttributeMisuse { ident: String },
}

/// A [`GenError`] with its identifier as a sequence of characters.
pub enum GenErrorView {
    UnsupportedShape { ident: Seq<char> },
    InferenceFailure { ident: Seq<char> },
    AttributeMisuse { ident: Seq<char> },
}

impl View for GenError {
    type V = GenErrorView;

    open spec fn view(&self) -> GenErrorView {
        match self {
            GenError::UnsupportedShape { ident } => GenErrorView::UnsupportedShape {
                ident: ident@,
            },
            GenError::InferenceFailure { ident } => GenErrorView::InferenceFailure {
                ident: ident@,
            },
            GenError::AttributeMisuse { ident } => GenErrorView::AttributeMisuse { ident: ident@ },
        }
    }
}

impl GenErrorView {
    /// The message of the error.
    pub open spec fn message(self) -> Seq<char> {
        match self {
            GenErrorView::UnsupportedShape { ident } => "unsupported shape: "@ + ident,
            GenErrorView::InferenceFailure { ident } => "cannot infer field type: "@ + ident,
            GenErrorView::AttributeMisuse { ident } => "clustering key without partition key: "@
                + ident,
        }
    }
}

impl GenError {
    /// The message of the error: what is wrong, then the offending identifier.
    pub fn message(&self) -> (text: String)
        ensures
            text@ == self@.message(),
    {
        match self {
            GenError::UnsupportedShape { ident } => String::from_str("unsupported shape: ").concat(
                ident.as_str(),
            ),
            GenError::InferenceFailure { ident } => String::from_str(
                "cannot infer field type: ",
            ).concat(ident.as_str()),
            GenError::AttributeMisuse { ident } => String::from_str(
                "clustering key without partition key: ",
            ).concat(ident.as_str()),
        }
    }
}

/// The view of a generated text, or of the error in its place.
pub open spec fn text_result(r: Result<String, GenError>) -> Result<Seq<char>, GenErrorView> {
    match r {
        Ok(text) => Ok(text@),
        Err(e) => Err(e@),
    }
}

} // verus!
