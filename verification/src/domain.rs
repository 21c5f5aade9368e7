//! The rows on which a constraint must hold, and how the domains of two
//! subexpressions combine.

use crate::error::SemanticError;
use vstd::prelude::*;

verus! {

/// The set of rows at which a constraint must hold.
#[derive(Debug, Clone, Copy, PartialEq, Eq, Structural)]
pub enum ConstraintDomain {
    /// The first row of the trace: a boundary domain.
    FirstRow,
    /// The last row of the trace: a boundary domain.
    LastRow,
    /// Every row, with its successor: an integrity domain.
    EveryRow,
    /// Every block of the given number of consecutive rows: an integrity
    /// domain.
    EveryFrame(usize),
}

impl ConstraintDomain {
    /// Whether this is `FirstRow` or `LastRow`.
    pub open spec fn boundary(self) -> bool {
        self is FirstRow || self is LastRow
    }

    /// The domain of an expression whose two operands have the domains `self`
    /// and `other`, or `None` where the two cannot hold of one expression.
    ///
    /// `EveryRow` is neutral; every domain merges with itself; a boundary
    /// domain merges with nothing else, and neither does a frame.
    pub open spec fn merged(self, other: ConstraintDomain) -> Option<ConstraintDomain> {
        if self == other {
            Some(self)
        } else if self is EveryRow {
            Some(other)
        } else if other is EveryRow {
            Some(self)
        } else {
            None
        }
    }

    /// Returns true for the domains of boundary constraints.
    pub fn is_boundary(&self) -> (r: bool)
        ensures
            r == self.boundary(),
    {
        match self {
            ConstraintDomain::FirstRow => true,
            ConstraintDomain::LastRow => true,
            _ => false,
        }
    }

    /// Returns true for the domains of integrity constraints.
    pub fn is_integrity(&self) -> (r: bool)
        ensures
            r == !self.boundary(),
    {
        !self.is_boundary()
    }

    /// Combines the domains of two subexpressions. Fails with
    /// `IncompatibleConstraintDomains`, holding both domains in the order
    /// given, exactly where [`Self::merged`] is `None`.
    pub fn merge(&self, other: &ConstraintDomain) -> (r: Result<ConstraintDomain, SemanticError>)
        ensures
            match self.merged(*other) {
                Some(d) => r == Ok::<ConstraintDomain, SemanticError>(d),
                None => r == Err::<ConstraintDomain, SemanticError>(
                    SemanticError::IncompatibleConstraintDomains(*self, *other),
                ),
            },
    {
        if *self == *other {
            Ok(*self)
        } else {
            match (*self, *other) {
                (ConstraintDomain::EveryRow, d) => Ok(d),
                (d, ConstraintDomain::EveryRow) => Ok(d),
                _ => Err(SemanticError::IncompatibleConstraintDomains(*self, *other)),
            }
        }
    }
}

/// [`ConstraintDomain::merged`] lifted to operands that may already have
/// failed: a failure on either side is a failure of the whole.
pub open spec fn merged_opt(
    a: Option<ConstraintDomain>,
    b: Option<ConstraintDomain>,
) -> Option<ConstraintDomain> {
    match (a, b) {
        (Some(x), Some(y)) => x.merged(y),
        _ => None,
    }
}

/// Merging does not depend on the order of the two operands.
pub proof fn lemma_merge_commutative(a: ConstraintDomain, b: ConstraintDomain)
    ensures
        a.merged(b) == b.merged(a),
{
}

/// Merging three domains gives the same result however they are grouped,
/// failures included.
pub proof fn lemma_merge_associative(a: ConstraintDomain, b: ConstraintDomain, c: ConstraintDomain)
    ensures
        merged_opt(a.merged(b), Some(c)) == merged_opt(Some(a), b.merged(c)),
{
}

/// A failed merge stays failed whatever it is merged with.
pub proof fn lemma_merge_failure_absorbs(a: Option<ConstraintDomain>)
    ensures
        merged_opt(None, a) is None,
        merged_opt(a, None) is None,
{
}

/// `EveryRow` is neutral, and every domain merges with itself.
pub proof fn lemma_merge_neutral_idempotent(a: ConstraintDomain)
    ensures
        a.merged(ConstraintDomain::EveryRow) == Some(a),
        ConstraintDomain::EveryRow.merged(a) == Some(a),
        a.merged(a) == Some(a),
{
}

} // verus!
