//! Evaluator functions: named groups of integrity constraints on the trace
//! columns that they are called with.

use crate::ast::{
    Expression, ExpressionView, Identifier, TraceCols, VariableBinding, VariableTypeView,
};
use vstd::prelude::*;

verus! {

/// An integrity constraint: the two sides of an equation between current
/// and next row.
#[derive(Debug, PartialEq, Eq)]
pub struct IntegrityConstraint {
    pub lhs: Expression,
    pub rhs: Expression,
}

impl View for IntegrityConstraint {
    type V = (ExpressionView, ExpressionView);

    open spec fn view(&self) -> (ExpressionView, ExpressionView) {
        (self.lhs@, self.rhs@)
    }
}

impl Clone for IntegrityConstraint {
    fn clone(&self) -> (r: Self)
        ensures
            r@ == self@,
    {
        IntegrityConstraint { lhs: self.lhs.clone(), rhs: self.rhs.clone() }
    }
}

impl IntegrityConstraint {
    /// Creates the constraint `lhs = rhs`.
    pub fn new(lhs: Expression, rhs: Expression) -> (r: Self)
        ensures
            r == (IntegrityConstraint { lhs, rhs }),
    {
        IntegrityConstraint { lhs, rhs }
    }

    /// Returns the left side of the equation.
    pub fn lhs(&self) -> (r: &Expression)
        ensures
            *r == self.lhs,
    {
        &self.lhs
    }

    /// Returns the right side of the equation.
    pub fn rhs(&self) -> (r: &Expression)
        ensures
            *r == self.rhs,
    {
        &self.rhs
    }
}

/// A statement of the integrity constraints section or of an evaluator
/// function.
#[derive(Debug, PartialEq, Eq)]
pub enum IntegrityStmt {
    Constraint(IntegrityConstraint),
    VariableBinding(VariableBinding),
}

/// The mathematical value of an [`IntegrityStmt`].
pub enum IntegrityStmtView {
    Constraint(ExpressionView, ExpressionView),
    VariableBinding(Seq<char>, VariableTypeView),
}

impl View for IntegrityStmt {
    type V = IntegrityStmtView;

    open spec fn view(&self) -> IntegrityStmtView {
        match *self {
            IntegrityStmt::Constraint(c) => IntegrityStmtView::Constraint(c.lhs@, c.rhs@),
            IntegrityStmt::VariableBinding(b) => IntegrityStmtView::VariableBinding(
                b.name@,
                b.value@,
            ),
        }
    }
}

impl Clone for IntegrityStmt {
    fn clone(&self) -> (r: Self)
        ensures
            r@ == self@,
    {
        match self {
            IntegrityStmt::Constraint(c) => IntegrityStmt::Constraint(c.clone()),
            IntegrityStmt::VariableBinding(b) => IntegrityStmt::VariableBinding(b.clone()),
        }
    }
}

/// An evaluator function: it takes descriptions of the main and of the
/// auxiliary trace, and holds integrity constraints on their columns.
#[derive(Debug, PartialEq, Eq)]
pub struct EvaluatorFunction {
    name: Identifier,
    main_trace: Vec<TraceCols>,
    aux_trace: Vec<TraceCols>,
    integrity_stmts: Vec<IntegrityStmt>,
}

impl EvaluatorFunction {
    /// The name of the function.
    pub closed spec fn spec_name(&self) -> Identifier {
        self.name
    }

    /// The groups of columns of the main trace.
    pub closed spec fn spec_main_trace(&self) -> Vec<TraceCols> {
        self.main_trace
    }

    /// The groups of columns of the auxiliary trace.
    pub closed spec fn spec_aux_trace(&self) -> Vec<TraceCols> {
        self.aux_trace
    }

    /// The statements of the function.
    pub closed spec fn spec_integrity_stmts(&self) -> Vec<IntegrityStmt> {
        self.integrity_stmts
    }

    /// Creates an evaluator function from its parts.
    pub fn new(
        name: Identifier,
        main_trace: Vec<TraceCols>,
        aux_trace: Vec<TraceCols>,
        integrity_stmts: Vec<IntegrityStmt>,
    ) -> (r: Self)
        ensures
            r.spec_name() == name,
            r.spec_main_trace() == main_trace,
            r.spec_aux_trace() == aux_trace,
            r.spec_integrity_stmts() == integrity_stmts,
    {
        EvaluatorFunction { name, main_trace, aux_trace, integrity_stmts }
    }

    /// Returns the name of the function.
    pub fn name(&self) -> (r: &str)
        ensures
            r@ == self.spec_name()@,
    {
        self.name.name()
    }

    /// Returns the groups of columns of the main trace.
    pub fn main_trace(&self) -> (r: &Vec<TraceCols>)
        ensures
            *r == self.spec_main_trace(),
    {
        &self.main_trace
    }

    /// Returns the groups of columns of the auxiliary trace.
    pub fn aux_trace(&self) -> (r: &Vec<TraceCols>)
        ensures
            *r == self.spec_aux_trace(),
    {
        &self.aux_trace
    }

    /// Returns the statements of the function.
    pub fn integrity_stmts(&self) -> (r: &[IntegrityStmt])
        ensures
            r@ == self.spec_integrity_stmts()@,
    {
        self.integrity_stmts.as_slice()
    }

    /// Takes the function apart: the name, the main trace, the auxiliary
    /// trace and the statements.
    pub fn into_parts(self) -> (r: (String, Vec<TraceCols>, Vec<TraceCols>, Vec<IntegrityStmt>))
        ensures
            r.0@ == self.spec_name()@,
            r.1 == self.spec_main_trace(),
            r.2 == self.spec_aux_trace(),
            r.3 == self.spec_integrity_stmts(),
    {
        (self.name.into_name(), self.main_trace, self.aux_trace, self.integrity_stmts)
    }
}

/// A call of an evaluator function: the name of the function, and for each
/// trace segment the groups of columns that it is called with.
#[derive(Debug, PartialEq, Eq)]
pub struct EvaluatorFunctionCall {
    name: Identifier,
    args: Vec<Vec<TraceCols>>,
}

impl EvaluatorFunctionCall {
    /// The name of the function that is called.
    pub closed spec fn spec_name(&self) -> Identifier {
        self.name
    }

    /// The arguments of the call.
    pub closed spec fn spec_args(&self) -> Vec<Vec<TraceCols>> {
        self.args
    }

    /// Creates a call of the named evaluator function.
    pub fn new(name: Identifier, args: Vec<Vec<TraceCols>>) -> (r: Self)
        ensures
            r.spec_name() == name,
            r.spec_args() == args,
    {
        EvaluatorFunctionCall { name, args }
    }

    /// Returns the name of the function that is called.
    pub fn name(&self) -> (r: &str)
        ensures
            r@ == self.spec_name()@,
    {
        self.name.name()
    }

    /// Returns the arguments of the call.
    pub fn args(&self) -> (r: &Vec<Vec<TraceCols>>)
        ensures
            *r == self.spec_args(),
    {
        &self.args
    }

    /// Takes the call apart: the name and the arguments.
    pub fn into_parts(self) -> (r: (String, Vec<Vec<TraceCols>>))
        ensures
            r.0@ == self.spec_name()@,
            r.1 == self.spec_args(),
    {
        (self.name.into_name(), self.args)
    }
}

} // verus!
