//! The constraints of a program: the graph of their expressions, and for
//! each trace segment the roots of its boundary constraints and of its
//! integrity constraints, in the order of the source.

use crate::ast::{Expression, NamedTraceAccess, TraceSegment};
use crate::boundary_constraints::{AccessType, BoundaryConstraint, SymbolAccess};
use crate::degree::{base_degree, capped, cycles_of, IntegrityConstraintDegree};
use crate::details::{ExprContext, ExprDetails, VariableRoots, VariableValueView};
use crate::domain::ConstraintDomain;
use crate::error::{SemanticError, SemanticErrorView};
use crate::evaluator_function::IntegrityConstraint;
use crate::graph::{extends, graph_wf, AlgebraicGraph, NodeIndex, OperationView};
use crate::lowering::{
    combined, failed, lemma_details_extend, lemma_roots_extend, lower_expr,
    lower_named_trace_access, lower_operands, roots_valid, with_roots, Lowered,
};
use crate::symbol_table::{Symbol, SymbolTable};
use vstd::prelude::*;

verus! {

/// The root of a constraint in the graph, with the domain on which the
/// constraint holds.
#[derive(Debug, Clone, Copy, PartialEq, Eq)]
pub struct ConstraintRoot {
    pub node_index: NodeIndex,
    pub domain: ConstraintDomain,
}

impl ConstraintRoot {
    /// Creates the root of a constraint.
    pub fn new(node_index: NodeIndex, domain: ConstraintDomain) -> (r: Self)
        ensures
            r == (ConstraintRoot { node_index, domain }),
    {
        ConstraintRoot { node_index, domain }
    }

    /// Returns the node that is the root of the constraint.
    pub fn node_index(&self) -> (r: &NodeIndex)
        ensures
            *r == self.node_index,
    {
        &self.node_index
    }

    /// Returns the domain on which the constraint holds.
    pub fn domain(&self) -> (r: ConstraintDomain)
        ensures
            r == self.domain,
    {
        self.domain
    }
}

/// The roots of the constraints of segment `segment`, which are none where
/// the segment has no list yet.
pub open spec fn bin(bins: Seq<Seq<ConstraintRoot>>, segment: int) -> Seq<ConstraintRoot> {
    if 0 <= segment < bins.len() {
        bins[segment]
    } else {
        Seq::empty()
    }
}

/// The lists of roots after `root` is added at the end of the list of
/// `segment`: the segments up to that one that had no list get an empty one.
pub open spec fn bin_pushed(
    bins: Seq<Seq<ConstraintRoot>>,
    segment: TraceSegment,
    root: ConstraintRoot,
) -> Seq<Seq<ConstraintRoot>> {
    Seq::new(
        if segment < bins.len() {
            bins.len()
        } else {
            (segment + 1) as nat
        },
        |i: int|
            if i == segment {
                bin(bins, i).push(root)
            } else {
                bin(bins, i)
            },
    )
}

/// Whether every root in the lists is a node of `g`.
pub open spec fn bins_valid(g: Seq<OperationView>, bins: Seq<Seq<ConstraintRoot>>) -> bool {
    forall|s: int, i: int|
        0 <= s < bins.len() && 0 <= i < bins[s].len() ==> (#[trigger] bins[s][i]).node_index.0
            < g.len()
}

/// The context of the expressions of a constraint: they see every
/// declaration and are the body of no list comprehension.
pub open spec fn top_context() -> ExprContext {
    ExprContext { horizon: usize::MAX, list_comprehension_context: None }
}

/// What the lowering of the equation `lhs = rhs` yields: the difference of
/// the two sides, the left one lowered first, both on the domain given.
pub open spec fn lower_equation(
    symbols: Seq<Symbol>,
    widths: Seq<u16>,
    nodes: Seq<OperationView>,
    roots: Map<VariableValueView, ExprDetails>,
    lhs: Expression,
    rhs: Expression,
    domain: ConstraintDomain,
) -> Lowered {
    let l = lower_expr(symbols, widths, nodes, roots, lhs, domain, top_context());
    let r = lower_expr(symbols, widths, l.nodes, l.roots, rhs, domain, top_context());
    lower_operands(l, r, |a: NodeIndex, b: NodeIndex| OperationView::Sub(a, b))
}

/// The cell that a boundary constraint is on, or the error that its access
/// is rejected with: the access must be to a group of columns as a whole,
/// which stands for its first column, or to one column of a group;
/// anything else is an `InvalidUsage`.
pub open spec fn constrained_cell(access: SymbolAccess) -> Result<
    NamedTraceAccess,
    SemanticErrorView,
> {
    match access.access_type {
        AccessType::Default => Ok(
            NamedTraceAccess { name: access.name, idx: 0, row_offset: access.offset },
        ),
        AccessType::Vector(idx) => Ok(
            NamedTraceAccess { name: access.name, idx, row_offset: access.offset },
        ),
        _ => Err(SemanticErrorView::InvalidUsage(access.name@)),
    }
}

/// What the lowering of a boundary constraint yields: the difference of the
/// constrained cell and of the expression that gives its value, both on the
/// domain of the boundary, the cell lowered first.
///
/// Fails with `Unsupported` for a constraint with a comprehension, with the
/// error of [`constrained_cell`] or of the lowering of either side, and with
/// `CrossSegmentReference` where the expression refers to a later trace
/// segment than that of the cell, as a random value does on the main
/// segment.
pub open spec fn lower_boundary_constraint(
    symbols: Seq<Symbol>,
    widths: Seq<u16>,
    nodes: Seq<OperationView>,
    roots: Map<VariableValueView, ExprDetails>,
    constraint: BoundaryConstraint,
) -> Lowered {
    let access = constraint.spec_access();
    let domain = constraint.spec_boundary().spec_domain();
    if constraint.spec_comprehension_context() is Some {
        with_roots(failed(nodes, SemanticErrorView::Unsupported(access.name@)), roots)
    } else {
        match constrained_cell(access) {
            Err(e) => with_roots(failed(nodes, e), roots),
            Ok(cell) => {
                let l = with_roots(lower_named_trace_access(symbols, nodes, cell, domain), roots);
                match l.result {
                    Err(_) => l,
                    Ok(a) => {
                        let r = lower_expr(
                            symbols,
                            widths,
                            l.nodes,
                            l.roots,
                            constraint.spec_value(),
                            domain,
                            top_context(),
                        );
                        match r.result {
                            Err(_) => r,
                            Ok(b) => if b.trace_segment > a.trace_segment {
                                with_roots(
                                    failed(
                                        r.nodes,
                                        SemanticErrorView::CrossSegmentReference(access.name@),
                                    ),
                                    r.roots,
                                )
                            } else {
                                with_roots(
                                    combined(
                                        r.nodes,
                                        a,
                                        b,
                                        OperationView::Sub(a.root_idx, b.root_idx),
                                    ),
                                    r.roots,
                                )
                            },
                        }
                    },
                }
            },
        }
    }
}

/// The roots of the boundary constraints after a constraint with the
/// details `d` is recorded.
pub open spec fn boundary_recorded(
    bins: Seq<Seq<ConstraintRoot>>,
    d: ExprDetails,
) -> Seq<Seq<ConstraintRoot>> {
    if d.domain.boundary() {
        bin_pushed(
            bins,
            d.trace_segment,
            ConstraintRoot { node_index: d.root_idx, domain: d.domain },
        )
    } else {
        bins
    }
}

/// The roots of the integrity constraints after a constraint with the
/// details `d` is recorded.
pub open spec fn integrity_recorded(
    bins: Seq<Seq<ConstraintRoot>>,
    d: ExprDetails,
) -> Seq<Seq<ConstraintRoot>> {
    if d.domain.boundary() {
        bins
    } else {
        bin_pushed(
            bins,
            d.trace_segment,
            ConstraintRoot { node_index: d.root_idx, domain: d.domain },
        )
    }
}

/// Roots that are nodes of a graph are nodes of it after nodes are added.
pub proof fn lemma_bins_extend(
    old: Seq<OperationView>,
    new: Seq<OperationView>,
    bins: Seq<Seq<ConstraintRoot>>,
)
    requires
        extends(new, old),
        bins_valid(old, bins),
    ensures
        bins_valid(new, bins),
{
}

/// The constraints of a program.
#[derive(Debug)]
pub struct Constraints {
    graph: AlgebraicGraph,
    boundary_constraints: Vec<Vec<ConstraintRoot>>,
    integrity_constraints: Vec<Vec<ConstraintRoot>>,
    none: Vec<ConstraintRoot>,
}

impl Constraints {
    /// The operations of the graph, in the order of insertion.
    pub closed spec fn nodes(&self) -> Seq<OperationView> {
        self.graph@
    }

    /// The roots of the boundary constraints, by trace segment.
    pub closed spec fn boundary_roots(&self) -> Seq<Seq<ConstraintRoot>> {
        Seq::new(self.boundary_constraints@.len(), |i: int| self.boundary_constraints@[i]@)
    }

    /// The roots of the integrity constraints, by trace segment.
    pub closed spec fn integrity_roots(&self) -> Seq<Seq<ConstraintRoot>> {
        Seq::new(self.integrity_constraints@.len(), |i: int| self.integrity_constraints@[i]@)
    }

    /// Whether the graph is acyclic and without duplicates, every root is a
    /// node of it, and a boundary constraint is a root of the boundary
    /// constraints, an integrity constraint one of the integrity
    /// constraints.
    pub closed spec fn wf(&self) -> bool {
        &&& self.graph.wf()
        &&& bins_valid(self.nodes(), self.boundary_roots())
        &&& bins_valid(self.nodes(), self.integrity_roots())
        &&& self.none@.len() == 0
    }

    /// Every root is a node of the graph, which is acyclic and without
    /// duplicates.
    pub proof fn lemma_wf(&self)
        requires
            self.wf(),
        ensures
            graph_wf(self.nodes()),
            bins_valid(self.nodes(), self.boundary_roots()),
            bins_valid(self.nodes(), self.integrity_roots()),
    {
    }

    /// Creates the constraints of a program without constraints.
    pub fn new() -> (r: Self)
        ensures
            r.wf(),
            r.nodes() == Seq::<OperationView>::empty(),
            r.boundary_roots() == Seq::<Seq<ConstraintRoot>>::empty(),
            r.integrity_roots() == Seq::<Seq<ConstraintRoot>>::empty(),
    {
        let r = Constraints {
            graph: AlgebraicGraph::new(),
            boundary_constraints: Vec::new(),
            integrity_constraints: Vec::new(),
            none: Vec::new(),
        };
        assert(r.boundary_roots() =~= Seq::<Seq<ConstraintRoot>>::empty());
        assert(r.integrity_roots() =~= Seq::<Seq<ConstraintRoot>>::empty());
        r
    }

    /// Returns the graph of the expressions of all constraints.
    pub fn graph(&self) -> (r: &AlgebraicGraph)
        ensures
            r@ == self.nodes(),
            self.wf() ==> r.wf(),
    {
        &self.graph
    }

    /// Returns the roots of the boundary constraints of the given trace
    /// segment, in the order of the source.
    pub fn boundary_constraints(&self, trace_segment: TraceSegment) -> (r: &[ConstraintRoot])
        requires
            self.wf(),
        ensures
            r@ == bin(self.boundary_roots(), trace_segment as int),
    {
        let segment = trace_segment as usize;
        if segment < self.boundary_constraints.len() {
            self.boundary_constraints[segment].as_slice()
        } else {
            self.none.as_slice()
        }
    }

    /// Returns the roots of the integrity constraints of the given trace
    /// segment, in the order of the source.
    pub fn integrity_constraints(&self, trace_segment: TraceSegment) -> (r: &[ConstraintRoot])
        requires
            self.wf(),
        ensures
            r@ == bin(self.integrity_roots(), trace_segment as int),
    {
        let segment = trace_segment as usize;
        if segment < self.integrity_constraints.len() {
            self.integrity_constraints[segment].as_slice()
        } else {
            self.none.as_slice()
        }
    }

    /// Returns the degree of each integrity constraint of the given trace
    /// segment, in the order of the source.
    pub fn integrity_constraint_degrees(&self, trace_segment: TraceSegment) -> (r: Vec<
        IntegrityConstraintDegree,
    >)
        requires
            self.wf(),
        ensures
            r@.len() == bin(self.integrity_roots(), trace_segment as int).len(),
            forall|i: int|
                0 <= i < r@.len() ==> {
                    let root = bin(self.integrity_roots(), trace_segment as int)[i].node_index;
                    &&& (#[trigger] r@[i]).spec_base() == capped(
                        base_degree(self.nodes(), root.0 as int),
                    )
                    &&& r@[i].spec_cycles() == cycles_of(self.nodes(), root.0 as int)
                },
    {
        let mut degrees: Vec<IntegrityConstraintDegree> = Vec::new();
        let segment = trace_segment as usize;
        if segment < self.integrity_constraints.len() {
            let roots = &self.integrity_constraints[segment];
            let mut i: usize = 0;
            while i < roots.len()
                invariant
                    self.wf(),
                    segment == trace_segment,
                    segment < self.integrity_constraints@.len(),
                    *roots == self.integrity_constraints@[segment as int],
                    i <= roots@.len(),
                    degrees@.len() == i,
                    forall|k: int|
                        0 <= k < i ==> {
                            &&& (#[trigger] degrees@[k]).spec_base() == capped(
                                base_degree(self.nodes(), roots@[k].node_index.0 as int),
                            )
                            &&& degrees@[k].spec_cycles() == cycles_of(
                                self.nodes(),
                                roots@[k].node_index.0 as int,
                            )
                        },
                decreases roots@.len() - i,
            {
                assert(self.integrity_roots()[segment as int][i as int] == roots@[i as int]);
                let degree = self.graph.degree(&roots[i].node_index);
                degrees.push(degree);
                i = i + 1;
            }
        }
        degrees
    }

    /// Records the node as the root of a constraint of the given trace
    /// segment: of a boundary constraint where the domain is the first or
    /// the last row, of an integrity constraint else.
    pub fn insert_constraint(
        &mut self,
        node_index: NodeIndex,
        trace_segment: TraceSegment,
        domain: ConstraintDomain,
    )
        requires
            old(self).wf(),
            node_index.0 < old(self).nodes().len(),
        ensures
            final(self).wf(),
            final(self).nodes() == old(self).nodes(),
            final(self).boundary_roots() == (if domain.boundary() {
                bin_pushed(
                    old(self).boundary_roots(),
                    trace_segment,
                    ConstraintRoot { node_index, domain },
                )
            } else {
                old(self).boundary_roots()
            }),
            final(self).integrity_roots() == (if domain.boundary() {
                old(self).integrity_roots()
            } else {
                bin_pushed(
                    old(self).integrity_roots(),
                    trace_segment,
                    ConstraintRoot { node_index, domain },
                )
            }),
    {
        let root = ConstraintRoot::new(node_index, domain);
        let ghost nodes = self.nodes();
        if domain.is_boundary() {
            let ghost before = self.boundary_roots();
            push_root(&mut self.boundary_constraints, trace_segment, root, Ghost(nodes));
            assert(self.boundary_roots() =~= bin_pushed(before, trace_segment, root));
        } else {
            let ghost before = self.integrity_roots();
            push_root(&mut self.integrity_constraints, trace_segment, root, Ghost(nodes));
            assert(self.integrity_roots() =~= bin_pushed(before, trace_segment, root));
        }
    }
}

impl Constraints {
    /// Whether the constraints are as `m` says: the graph is that of `m`,
    /// and where `m` is the details of a constraint, that constraint is
    /// recorded after those of `old`, else the roots are those of `old` and
    /// `r` is the error of `m`.
    pub open spec fn recorded(
        &self,
        old: &Constraints,
        r: Result<(), SemanticError>,
        m: Lowered,
    ) -> bool {
        &&& self.nodes() == m.nodes
        &&& match m.result {
            Ok(d) => {
                &&& r is Ok
                &&& self.boundary_roots() == boundary_recorded(old.boundary_roots(), d)
                &&& self.integrity_roots() == integrity_recorded(old.integrity_roots(), d)
            },
            Err(e) => {
                &&& r matches Err(err) && err@ == e
                &&& self.boundary_roots() == old.boundary_roots()
                &&& self.integrity_roots() == old.integrity_roots()
            },
        }
    }

    /// Adds an integrity constraint: lowers the difference of its two
    /// sides into the graph, as [`lower_equation`] says for the domain of
    /// every row, and records the root of the difference under the trace
    /// segment and the domain of the difference.
    pub fn insert_integrity_constraint(
        &mut self,
        symbol_table: &SymbolTable,
        constraint: &IntegrityConstraint,
        variable_roots: &mut VariableRoots,
    ) -> (r: Result<(), SemanticError>)
        requires
            old(self).wf(),
            symbol_table.wf(),
            roots_valid(old(self).nodes(), old(variable_roots)@),
        ensures
            final(self).wf(),
            extends(final(self).nodes(), old(self).nodes()),
            roots_valid(final(self).nodes(), final(variable_roots)@),
            final(self).recorded(
                old(self),
                r,
                lower_equation(
                    symbol_table.symbols(),
                    symbol_table.widths(),
                    old(self).nodes(),
                    old(variable_roots)@,
                    constraint.lhs,
                    constraint.rhs,
                    ConstraintDomain::EveryRow,
                ),
            ),
            final(variable_roots)@ == lower_equation(
                symbol_table.symbols(),
                symbol_table.widths(),
                old(self).nodes(),
                old(variable_roots)@,
                constraint.lhs,
                constraint.rhs,
                ConstraintDomain::EveryRow,
            ).roots,
    {
        let mut context = ExprContext::new();
        let lhs = match self.graph.insert_expr(
            symbol_table,
            constraint.lhs(),
            variable_roots,
            ConstraintDomain::EveryRow,
            &mut context,
        ) {
            Ok(d) => d,
            Err(e) => {
                proof {
                    lemma_bins_extend(old(self).nodes(), self.nodes(), self.boundary_roots());
                    lemma_bins_extend(old(self).nodes(), self.nodes(), self.integrity_roots());
                }
                return Err(e);
            },
        };
        let ghost left = self.nodes();
        let rhs = match self.graph.insert_expr(
            symbol_table,
            constraint.rhs(),
            variable_roots,
            ConstraintDomain::EveryRow,
            &mut context,
        ) {
            Ok(d) => d,
            Err(e) => {
                proof {
                    lemma_bins_extend(old(self).nodes(), self.nodes(), self.boundary_roots());
                    lemma_bins_extend(old(self).nodes(), self.nodes(), self.integrity_roots());
                }
                return Err(e);
            },
        };
        let ghost right = self.nodes();
        proof {
            lemma_details_extend(left, right, lhs);
        }
        let merged = self.graph.merge_equal_exprs(&lhs, &rhs);
        proof {
            lemma_roots_extend(right, self.nodes(), variable_roots@);
            lemma_bins_extend(old(self).nodes(), self.nodes(), self.boundary_roots());
            lemma_bins_extend(old(self).nodes(), self.nodes(), self.integrity_roots());
        }
        match merged {
            Ok(d) => {
                self.insert_constraint(d.root_idx(), d.trace_segment(), d.domain());
                Ok(())
            },
            Err(e) => Err(e),
        }
    }

    /// Adds a boundary constraint: lowers the difference of the constrained
    /// cell and of its value into the graph, as
    /// [`lower_boundary_constraint`] says, and records the root of the
    /// difference under the trace segment of the cell and the domain of the
    /// difference.
    pub fn insert_boundary_constraint(
        &mut self,
        symbol_table: &SymbolTable,
        constraint: &BoundaryConstraint,
        variable_roots: &mut VariableRoots,
    ) -> (r: Result<(), SemanticError>)
        requires
            old(self).wf(),
            symbol_table.wf(),
            roots_valid(old(self).nodes(), old(variable_roots)@),
        ensures
            final(self).wf(),
            extends(final(self).nodes(), old(self).nodes()),
            roots_valid(final(self).nodes(), final(variable_roots)@),
            final(self).recorded(
                old(self),
                r,
                lower_boundary_constraint(
                    symbol_table.symbols(),
                    symbol_table.widths(),
                    old(self).nodes(),
                    old(variable_roots)@,
                    *constraint,
                ),
            ),
            final(variable_roots)@ == lower_boundary_constraint(
                symbol_table.symbols(),
                symbol_table.widths(),
                old(self).nodes(),
                old(variable_roots)@,
                *constraint,
            ).roots,
    {
        let access = constraint.access();
        if constraint.comprehension_context().is_some() {
            return Err(SemanticError::Unsupported(access.name.0.clone()));
        }
        let idx = match access.access_type() {
            AccessType::Default => 0,
            AccessType::Vector(idx) => idx,
            _ => {
                return Err(SemanticError::InvalidUsage(access.name.0.clone()));
            },
        };
        let cell = NamedTraceAccess::new(access.name.clone(), idx, access.offset());
        let domain = constraint.boundary().domain();
        let lhs = match self.graph.insert_named_trace_access(symbol_table, &cell, domain) {
            Ok(d) => d,
            Err(e) => {
                return Err(e);
            },
        };
        let ghost left = self.nodes();
        proof {
            lemma_roots_extend(old(self).nodes(), left, variable_roots@);
        }
        let mut context = ExprContext::new();
        let rhs = match self.graph.insert_expr(
            symbol_table,
            constraint.value(),
            variable_roots,
            domain,
            &mut context,
        ) {
            Ok(d) => d,
            Err(e) => {
                proof {
                    lemma_bins_extend(old(self).nodes(), self.nodes(), self.boundary_roots());
                    lemma_bins_extend(old(self).nodes(), self.nodes(), self.integrity_roots());
                }
                return Err(e);
            },
        };
        let ghost right = self.nodes();
        proof {
            lemma_details_extend(left, right, lhs);
            lemma_bins_extend(old(self).nodes(), self.nodes(), self.boundary_roots());
            lemma_bins_extend(old(self).nodes(), self.nodes(), self.integrity_roots());
        }
        if rhs.trace_segment() > lhs.trace_segment() {
            return Err(SemanticError::CrossSegmentReference(access.name.0.clone()));
        }
        let merged = self.graph.merge_equal_exprs(&lhs, &rhs);
        proof {
            lemma_roots_extend(right, self.nodes(), variable_roots@);
            lemma_bins_extend(old(self).nodes(), self.nodes(), self.boundary_roots());
            lemma_bins_extend(old(self).nodes(), self.nodes(), self.integrity_roots());
        }
        match merged {
            Ok(d) => {
                self.insert_constraint(d.root_idx(), d.trace_segment(), d.domain());
                Ok(())
            },
            Err(e) => Err(e),
        }
    }
}

/// The lists of roots as values.
pub open spec fn bins_of(bins: Seq<Vec<ConstraintRoot>>) -> Seq<Seq<ConstraintRoot>> {
    Seq::new(bins.len(), |i: int| bins[i]@)
}

/// Adds a root at the end of the list of a segment, after giving every
/// segment up to that one a list.
fn push_root(
    bins: &mut Vec<Vec<ConstraintRoot>>,
    trace_segment: TraceSegment,
    root: ConstraintRoot,
    Ghost(nodes): Ghost<Seq<OperationView>>,
)
    requires
        bins_valid(nodes, bins_of(old(bins)@)),
        root.node_index.0 < nodes.len(),
    ensures
        bins_of(final(bins)@) == bin_pushed(bins_of(old(bins)@), trace_segment, root),
        bins_valid(nodes, bins_of(final(bins)@)),
{
    let segment = trace_segment as usize;
    while bins.len() <= segment
        invariant
            segment == trace_segment,
            old(bins)@.len() <= bins@.len(),
            bins@.len() <= segment + 1 || bins@.len() == old(bins)@.len(),
            forall|i: int| 0 <= i < old(bins)@.len() ==> bins@[i] == old(bins)@[i],
            forall|i: int| old(bins)@.len() <= i < bins@.len() ==> bins@[i]@.len() == 0,
        decreases segment + 1 - bins.len(),
    {
        bins.push(Vec::new());
    }
    let ghost grown = bins@;
    let mut list: Vec<ConstraintRoot> = Vec::new();
    std::mem::swap(&mut list, &mut bins[segment]);
    list.push(root);
    std::mem::swap(&mut list, &mut bins[segment]);
    proof {
        let new = bins_of(bins@);
        let want = bin_pushed(bins_of(old(bins)@), trace_segment, root);
        assert(new.len() == want.len());
        assert forall|i: int| 0 <= i < new.len() implies new[i] == want[i] by {
            if i == segment {
                assert(bins@[i]@ =~= grown[i]@.push(root));
                if i < old(bins)@.len() {
                    assert(grown[i] == old(bins)@[i]);
                } else {
                    assert(grown[i]@ =~= Seq::<ConstraintRoot>::empty());
                }
            } else {
                assert(bins@[i] == grown[i]);
                if i >= old(bins)@.len() {
                    assert(grown[i]@ =~= Seq::<ConstraintRoot>::empty());
                }
            }
        }
        assert(new =~= want);
        assert forall|s: int, i: int| 0 <= s < new.len() && 0 <= i < new[s].len() implies (
        #[trigger] new[s][i]).node_index.0 < nodes.len() by {
            if s < old(bins)@.len() && i < old(bins)@[s]@.len() {
                assert(bins_of(old(bins)@)[s][i].node_index.0 < nodes.len());
            }
        }
    }
}

} // verus!
