//! What is known of an expression once it is part of the graph, and the
//! bookkeeping of the lowering: the roots of the variables lowered so far,
//! and the context in which an expression stands.

use crate::ast::{MatrixAccess, TraceSegment, VectorAccess};
use crate::domain::ConstraintDomain;
use crate::graph::NodeIndex;
use vstd::prelude::*;

verus! {

/// An expression in the graph: its root node, the highest trace segment
/// that it refers to, the domain on which it is constrained, and its value
/// where it is a literal.
#[derive(Debug, Clone, Copy, PartialEq, Eq)]
pub struct ExprDetails {
    pub root_idx: NodeIndex,
    pub trace_segment: TraceSegment,
    pub domain: ConstraintDomain,
    pub constant: Option<u64>,
}

impl ExprDetails {
    /// Creates the details of an expression.
    pub fn new(
        root_idx: NodeIndex,
        trace_segment: TraceSegment,
        domain: ConstraintDomain,
        constant: Option<u64>,
    ) -> (r: Self)
        ensures
            r == (ExprDetails { root_idx, trace_segment, domain, constant }),
    {
        ExprDetails { root_idx, trace_segment, domain, constant }
    }

    /// Returns the root node of the expression.
    pub fn root_idx(&self) -> (r: NodeIndex)
        ensures
            r == self.root_idx,
    {
        self.root_idx
    }

    /// Returns the highest trace segment that the expression refers to.
    pub fn trace_segment(&self) -> (r: TraceSegment)
        ensures
            r == self.trace_segment,
    {
        self.trace_segment
    }

    /// Returns the domain on which the expression is constrained.
    pub fn domain(&self) -> (r: ConstraintDomain)
        ensures
            r == self.domain,
    {
        self.domain
    }

    /// Returns the value of the expression where it is a literal.
    pub fn constant(&self) -> (r: Option<u64>)
        ensures
            r == self.constant,
    {
        self.constant
    }
}

/// The form in which a variable is referred to: by its name, or by the name
/// and the indices of one of its elements. Two references of the same form
/// share one root in the graph.
#[derive(Debug, PartialEq, Eq, PartialOrd, Ord)]
pub enum VariableValue {
    Scalar(String),
    Vector(VectorAccess),
    ListComprehension(VectorAccess),
    Matrix(MatrixAccess),
}

/// The mathematical value of a [`VariableValue`].
pub enum VariableValueView {
    Scalar(Seq<char>),
    Vector(Seq<char>, usize),
    ListComprehension(Seq<char>, usize),
    Matrix(Seq<char>, usize, usize),
}

impl View for VariableValue {
    type V = VariableValueView;

    open spec fn view(&self) -> VariableValueView {
        match *self {
            VariableValue::Scalar(name) => VariableValueView::Scalar(name@),
            VariableValue::Vector(a) => VariableValueView::Vector(a.name@, a.idx),
            VariableValue::ListComprehension(a) => VariableValueView::ListComprehension(
                a.name@,
                a.idx,
            ),
            VariableValue::Matrix(a) => VariableValueView::Matrix(a.name@, a.row_idx, a.col_idx),
        }
    }
}

impl VariableValueView {
    /// The name of the variable that is referred to.
    pub open spec fn name(self) -> Seq<char> {
        match self {
            VariableValueView::Scalar(name) => name,
            VariableValueView::Vector(name, _) => name,
            VariableValueView::ListComprehension(name, _) => name,
            VariableValueView::Matrix(name, _, _) => name,
        }
    }
}

impl Clone for VariableValue {
    fn clone(&self) -> (r: Self)
        ensures
            r == *self,
    {
        match self {
            VariableValue::Scalar(name) => VariableValue::Scalar(name.clone()),
            VariableValue::Vector(a) => VariableValue::Vector(a.clone()),
            VariableValue::ListComprehension(a) => VariableValue::ListComprehension(a.clone()),
            VariableValue::Matrix(a) => VariableValue::Matrix(a.clone()),
        }
    }
}

impl VariableValue {
    /// Returns the name of the variable that is referred to.
    pub fn name(&self) -> (r: &str)
        ensures
            r@ == self@.name(),
    {
        match self {
            VariableValue::Scalar(name) => name.as_str(),
            VariableValue::Vector(a) => a.name(),
            VariableValue::ListComprehension(a) => a.name(),
            VariableValue::Matrix(a) => a.name(),
        }
    }

    /// Whether two references have the same form: the same kind, name and
    /// indices.
    pub fn same(&self, other: &VariableValue) -> (r: bool)
        ensures
            r == (self@ == other@),
    {
        match (self, other) {
            (VariableValue::Scalar(a), VariableValue::Scalar(b)) => *a == *b,
            (VariableValue::Vector(a), VariableValue::Vector(b)) => {
                a.name.0 == b.name.0 && a.idx == b.idx
            },
            (VariableValue::ListComprehension(a), VariableValue::ListComprehension(b)) => {
                a.name.0 == b.name.0 && a.idx == b.idx
            },
            (VariableValue::Matrix(a), VariableValue::Matrix(b)) => {
                a.name.0 == b.name.0 && a.row_idx == b.row_idx && a.col_idx == b.col_idx
            },
            _ => false,
        }
    }
}

/// The map that a sequence of entries stands for: a later entry replaces an
/// earlier one of the same key.
pub open spec fn roots_of(entries: Seq<(VariableValue, ExprDetails)>) -> Map<
    VariableValueView,
    ExprDetails,
>
    decreases entries.len(),
{
    if entries.len() == 0 {
        Map::empty()
    } else {
        roots_of(entries.drop_last()).insert(entries.last().0@, entries.last().1)
    }
}

/// The roots of the variables that were lowered in the present constraint
/// section, by the form of the reference. A variable that is referred to
/// again in the same form is not lowered again.
#[derive(Debug)]
pub struct VariableRoots {
    entries: Vec<(VariableValue, ExprDetails)>,
}

impl View for VariableRoots {
    type V = Map<VariableValueView, ExprDetails>;

    closed spec fn view(&self) -> Map<VariableValueView, ExprDetails> {
        roots_of(self.entries@)
    }
}

impl Default for VariableRoots {
    fn default() -> (r: Self)
        ensures
            r@ == Map::<VariableValueView, ExprDetails>::empty(),
    {
        VariableRoots { entries: Vec::new() }
    }
}

impl VariableRoots {
    /// Creates an empty map.
    pub fn new() -> (r: Self)
        ensures
            r@ == Map::<VariableValueView, ExprDetails>::empty(),
    {
        VariableRoots { entries: Vec::new() }
    }

    /// Returns the details stored for a reference of the given form.
    pub fn get(&self, key: &VariableValue) -> (r: Option<ExprDetails>)
        ensures
            r == (if self@.contains_key(key@) {
                Some(self@[key@])
            } else {
                None
            }),
    {
        let mut i: usize = self.entries.len();
        proof {
            assert(self.entries@.take(i as int) == self.entries@);
        }
        while i > 0
            invariant
                i <= self.entries.len(),
                self@.contains_key(key@) == roots_of(self.entries@.take(i as int)).contains_key(
                    key@,
                ),
                self@.contains_key(key@) ==> self@[key@] == roots_of(
                    self.entries@.take(i as int),
                )[key@],
            decreases i,
        {
            proof {
                assert(self.entries@.take(i as int).drop_last() == self.entries@.take(i - 1));
            }
            if self.entries[i - 1].0.same(key) {
                return Some(self.entries[i - 1].1);
            }
            i = i - 1;
        }
        None
    }

    /// Stores the details for a reference of the given form, in place of
    /// what was stored for that form before.
    pub fn insert(&mut self, key: VariableValue, details: ExprDetails)
        ensures
            final(self)@ == old(self)@.insert(key@, details),
    {
        self.entries.push((key, details));
        proof {
            assert(self.entries@.drop_last() == old(self).entries@);
        }
    }

    /// Forgets all roots, as at the end of a constraint section.
    pub fn clear(&mut self)
        ensures
            final(self)@ == Map::<VariableValueView, ExprDetails>::empty(),
    {
        self.entries.clear();
    }
}

/// The list comprehension that is being expanded: the position of its
/// declaration in the symbol table, and the position in the list of the
/// element that is being lowered.
#[derive(Debug, Clone, Copy, PartialEq, Eq)]
pub struct ListComprehensionContext {
    pub variable: usize,
    pub index: usize,
}

/// Where an expression stands: how many declarations of the symbol table
/// it can see, counted from the first, and the list comprehension, if any,
/// of which it is the body.
#[derive(Debug, Clone, Copy, PartialEq, Eq)]
pub struct ExprContext {
    pub horizon: usize,
    pub list_comprehension_context: Option<ListComprehensionContext>,
}

impl Default for ExprContext {
    fn default() -> (r: Self)
        ensures
            r == (ExprContext { horizon: usize::MAX, list_comprehension_context: None }),
    {
        ExprContext { horizon: usize::MAX, list_comprehension_context: None }
    }
}

impl ExprContext {
    /// Creates the context of an expression of a constraint: it sees every
    /// declaration and is the body of no list comprehension.
    pub fn new() -> (r: Self)
        ensures
            r == (ExprContext { horizon: usize::MAX, list_comprehension_context: None }),
    {
        ExprContext { horizon: usize::MAX, list_comprehension_context: None }
    }
}

} // verus!
