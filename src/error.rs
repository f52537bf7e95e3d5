//! Value-level failures: reading a record back, finishing a builder, and
//! statements that need an identity.
use vstd::prelude::*;

verus! {

#[derive(Clone, Debug, PartialEq, Eq)]
pub enum Error {
    /// The record did not hold the named field, and the field is not optional.
    MissingField(String),
    /// The record held the named field, but not as a value the field's kind takes.
    TypeMismatch(String),
    /// Wraps one of the record errors.
    FromMapInner(String),
    /// A required field (second) of an entity type (first) was never set.
    BuilderError(String, String),
    /// A statement meant for one relationship was asked of a relationship type
    /// without identity fields.
    EmptyIdentity(String),
}

/// The mathematical content of an [`Error`].
pub enum ErrorView {
    MissingField(Seq<char>),
    TypeMismatch(Seq<char>),
    FromMapInner(Seq<char>),
    BuilderError(Seq<char>, Seq<char>),
    EmptyIdentity(Seq<char>),
}

impl View for Error {
    type V = ErrorView;

    open spec fn view(&self) -> ErrorView {
        match self {
            Error::MissingField(n) => ErrorView::MissingField(n@),
            Error::TypeMismatch(n) => ErrorView::TypeMismatch(n@),
            Error::FromMapInner(n) => ErrorView::FromMapInner(n@),
            Error::BuilderError(t, n) => ErrorView::BuilderError(t@, n@),
            Error::EmptyIdentity(t) => ErrorView::EmptyIdentity(t@),
        }
    }
}

} // verus!
