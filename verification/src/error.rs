//! The errors raised by semantic analysis.

use crate::domain::ConstraintDomain;
use vstd::prelude::*;

verus! {

/// An error found while a program is analysed. The first error ends the
/// analysis; none is recovered from locally.
#[derive(Debug, PartialEq, Eq)]
pub enum SemanticError {
    /// A declaration collides with an existing one; holds the name.
    DuplicateIdentifier(String),
    /// An identifier is not in the symbol table; holds the name.
    Undeclared(String),
    /// An identifier is used in a role that its declared type forbids; holds
    /// the name.
    InvalidUsage(String),
    /// A vector, matrix or trace column index exceeds the declared extent;
    /// holds the name, which is empty for an access by position.
    IndexOutOfRange(String),
    /// Two constraint domains that cannot hold of one expression were merged.
    IncompatibleConstraintDomains(ConstraintDomain, ConstraintDomain),
    /// A boundary constraint on the main segment refers to auxiliary
    /// material; holds the name of the constrained columns.
    CrossSegmentReference(String),
    /// A construct that is recognised but not supported; holds the name of
    /// the construct.
    Unsupported(String),
}

/// The mathematical value of a [`SemanticError`]: names are sequences of
/// characters.
pub enum SemanticErrorView {
    DuplicateIdentifier(Seq<char>),
    Undeclared(Seq<char>),
    InvalidUsage(Seq<char>),
    IndexOutOfRange(Seq<char>),
    IncompatibleConstraintDomains(ConstraintDomain, ConstraintDomain),
    CrossSegmentReference(Seq<char>),
    Unsupported(Seq<char>),
}

impl View for SemanticError {
    type V = SemanticErrorView;

    open spec fn view(&self) -> SemanticErrorView {
        match *self {
            SemanticError::DuplicateIdentifier(s) => SemanticErrorView::DuplicateIdentifier(s@),
            SemanticError::Undeclared(s) => SemanticErrorView::Undeclared(s@),
            SemanticError::InvalidUsage(s) => SemanticErrorView::InvalidUsage(s@),
            SemanticError::IndexOutOfRange(s) => SemanticErrorView::IndexOutOfRange(s@),
            SemanticError::IncompatibleConstraintDomains(a, b) =>
                SemanticErrorView::IncompatibleConstraintDomains(a, b),
            SemanticError::CrossSegmentReference(s) => SemanticErrorView::CrossSegmentReference(s@),
            SemanticError::Unsupported(s) => SemanticErrorView::Unsupported(s@),
        }
    }
}

impl Clone for SemanticError {
    fn clone(&self) -> (r: Self)
        ensures
            r == *self,
    {
        match self {
            SemanticError::DuplicateIdentifier(s) => SemanticError::DuplicateIdentifier(s.clone()),
            SemanticError::Undeclared(s) => SemanticError::Undeclared(s.clone()),
            SemanticError::InvalidUsage(s) => SemanticError::InvalidUsage(s.clone()),
            SemanticError::IndexOutOfRange(s) => SemanticError::IndexOutOfRange(s.clone()),
            SemanticError::IncompatibleConstraintDomains(a, b) => {
                SemanticError::IncompatibleConstraintDomains(*a, *b)
            },
            SemanticError::CrossSegmentReference(s) => SemanticError::CrossSegmentReference(
                s.clone(),
            ),
            SemanticError::Unsupported(s) => SemanticError::Unsupported(s.clone()),
        }
    }
}

} // verus!
