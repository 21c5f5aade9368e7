//! The statements of the boundary constraints section of a program.

use crate::ast::{
    ComprehensionContext, Expression, Identifier, Iterable, Range, VariableBinding,
};
use crate::domain::ConstraintDomain;
use vstd::prelude::*;

verus! {

/// How a symbol is accessed: as a whole, or by the indices of one of its
/// elements, or by a range of them.
#[derive(Debug, Clone, Copy, PartialEq, Eq)]
pub enum AccessType {
    Default,
    Vector(usize),
    Slice(Range),
    Matrix(usize, usize),
}

/// An access to a declared symbol: its name, what of it is accessed, and the
/// row as an offset from the current one.
#[derive(Debug, PartialEq, Eq)]
pub struct SymbolAccess {
    pub name: Identifier,
    pub access_type: AccessType,
    pub offset: usize,
}

impl Clone for SymbolAccess {
    fn clone(&self) -> (r: Self)
        ensures
            r == *self,
    {
        SymbolAccess {
            name: self.name.clone(),
            access_type: self.access_type,
            offset: self.offset,
        }
    }
}

impl SymbolAccess {
    /// Creates an access to the named symbol.
    pub fn new(name: Identifier, access_type: AccessType, offset: usize) -> (r: Self)
        ensures
            r == (SymbolAccess { name, access_type, offset }),
    {
        SymbolAccess { name, access_type, offset }
    }

    /// Returns the name of the symbol.
    pub fn name(&self) -> (r: &str)
        ensures
            r@ == self.name@,
    {
        self.name.name()
    }

    /// Returns what of the symbol is accessed.
    pub fn access_type(&self) -> (r: AccessType)
        ensures
            r == self.access_type,
    {
        self.access_type
    }

    /// Returns the offset from the current row.
    pub fn offset(&self) -> (r: usize)
        ensures
            r == self.offset,
    {
        self.offset
    }
}

/// A statement of the boundary constraints section.
#[derive(Debug, PartialEq, Eq)]
pub enum BoundaryStmt {
    Constraint(BoundaryConstraint),
    VariableBinding(VariableBinding),
}

/// The row of the trace that a boundary constraint holds on.
#[derive(Debug, Clone, Copy, PartialEq, Eq, Structural)]
pub enum Boundary {
    First,
    Last,
}

impl Boundary {
    /// The words that name the boundary.
    pub open spec fn text(self) -> Seq<char> {
        match self {
            Boundary::First => "first boundary"@,
            Boundary::Last => "last boundary"@,
        }
    }

    /// The domain of the constraints on this boundary.
    pub open spec fn spec_domain(self) -> ConstraintDomain {
        match self {
            Boundary::First => ConstraintDomain::FirstRow,
            Boundary::Last => ConstraintDomain::LastRow,
        }
    }

    /// Returns the words that name the boundary: "first boundary" or "last
    /// boundary".
    #[allow(clippy::inherent_to_string)]
    pub fn to_string(&self) -> (r: String)
        ensures
            r@ == self.text(),
    {
        match self {
            Boundary::First => "first boundary".to_owned(),
            Boundary::Last => "last boundary".to_owned(),
        }
    }

    /// Returns the domain of the constraints on this boundary: the first
    /// row or the last row.
    pub fn domain(&self) -> (r: ConstraintDomain)
        ensures
            r == self.spec_domain(),
    {
        match self {
            Boundary::First => ConstraintDomain::FirstRow,
            Boundary::Last => ConstraintDomain::LastRow,
        }
    }
}

/// A boundary constraint: the cell of the trace that is constrained, the
/// boundary on which it is, and the expression whose value it must have
/// there. A constraint that stands for one constraint per element of a list
/// has the members of the comprehension with it.
#[derive(Debug, PartialEq, Eq)]
pub struct BoundaryConstraint {
    access: SymbolAccess,
    boundary: Boundary,
    value: Expression,
    comprehension_context: Option<ComprehensionContext>,
}

impl BoundaryConstraint {
    /// The access to the constrained cell.
    pub closed spec fn spec_access(&self) -> SymbolAccess {
        self.access
    }

    /// The boundary on which the constraint holds.
    pub closed spec fn spec_boundary(&self) -> Boundary {
        self.boundary
    }

    /// The expression that gives the value of the cell.
    pub closed spec fn spec_value(&self) -> Expression {
        self.value
    }

    /// The members of the comprehension, where there is one.
    pub closed spec fn spec_comprehension_context(&self) -> Option<ComprehensionContext> {
        self.comprehension_context
    }

    /// Creates a boundary constraint from its parts.
    pub fn new(
        access: SymbolAccess,
        boundary: Boundary,
        value: Expression,
        comprehension_context: Option<ComprehensionContext>,
    ) -> (r: Self)
        ensures
            r.spec_access() == access,
            r.spec_boundary() == boundary,
            r.spec_value() == value,
            r.spec_comprehension_context() == comprehension_context,
    {
        BoundaryConstraint { access, boundary, value, comprehension_context }
    }

    /// Returns the access to the constrained cell.
    pub fn access(&self) -> (r: &SymbolAccess)
        ensures
            *r == self.spec_access(),
    {
        &self.access
    }

    /// Returns the boundary on which the constraint holds.
    pub fn boundary(&self) -> (r: Boundary)
        ensures
            r == self.spec_boundary(),
    {
        self.boundary
    }

    /// Returns the expression that gives the value of the cell.
    pub fn value(&self) -> (r: &Expression)
        ensures
            *r == self.spec_value(),
    {
        &self.value
    }

    /// Returns the members of the comprehension, where there is one.
    pub fn comprehension_context(&self) -> (r: Option<&ComprehensionContext>)
        ensures
            match r {
                Some(context) => self.spec_comprehension_context() == Some(*context),
                None => self.spec_comprehension_context() is None,
            },
    {
        match &self.comprehension_context {
            Some(context) => Some(context),
            None => None,
        }
    }

    /// Takes the constraint apart: the boundary, the access, the expression
    /// and the members of the comprehension.
    pub fn into_parts(self) -> (r: (
        Boundary,
        SymbolAccess,
        Expression,
        Option<ComprehensionContext>,
    ))
        ensures
            r == (
                self.spec_boundary(),
                self.spec_access(),
                self.spec_value(),
                self.spec_comprehension_context(),
            ),
    {
        (self.boundary, self.access, self.value, self.comprehension_context)
    }
}

/// A boundary constraint on every element of a list: the access, the
/// boundary, the expression that is evaluated for each element, and the
/// members of the comprehension with what they range over.
#[derive(Debug, PartialEq, Eq)]
pub struct BoundaryConstraintComprehension {
    access: SymbolAccess,
    boundary: Boundary,
    expr: Expression,
    context: ComprehensionContext,
}

impl BoundaryConstraintComprehension {
    /// The access to the constrained cells.
    pub closed spec fn spec_access(&self) -> SymbolAccess {
        self.access
    }

    /// The boundary on which the constraints hold.
    pub closed spec fn spec_boundary(&self) -> Boundary {
        self.boundary
    }

    /// The expression that is evaluated for each element.
    pub closed spec fn spec_expression(&self) -> Expression {
        self.expr
    }

    /// The members of the comprehension.
    pub closed spec fn spec_context(&self) -> ComprehensionContext {
        self.context
    }

    /// Creates a boundary constraint comprehension from its parts.
    pub fn new(
        access: SymbolAccess,
        boundary: Boundary,
        expr: Expression,
        context: ComprehensionContext,
    ) -> (r: Self)
        ensures
            r.spec_access() == access,
            r.spec_boundary() == boundary,
            r.spec_expression() == expr,
            r.spec_context() == context,
    {
        BoundaryConstraintComprehension { access, boundary, expr, context }
    }

    /// Returns the access to the constrained cells.
    pub fn access(&self) -> (r: &SymbolAccess)
        ensures
            *r == self.spec_access(),
    {
        &self.access
    }

    /// Returns the boundary on which the constraints hold.
    pub fn boundary(&self) -> (r: Boundary)
        ensures
            r == self.spec_boundary(),
    {
        self.boundary
    }

    /// Returns the expression that is evaluated for each element of the
    /// list.
    pub fn expression(&self) -> (r: &Expression)
        ensures
            *r == self.spec_expression(),
    {
        &self.expr
    }

    /// Returns the members of the comprehension with what they range over.
    pub fn context(&self) -> (r: &[(Identifier, Iterable)])
        ensures
            r@ == self.spec_context()@,
    {
        self.context.as_slice()
    }
}

} // verus!
