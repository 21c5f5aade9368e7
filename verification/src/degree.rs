//! The degree of a constraint: the degree of its polynomial in the cells of
//! the trace, and the periodic columns that it depends on.

use crate::graph::{
    graph_wf, operands_below, AlgebraicGraph, NodeIndex, Operation, OperationView,
};
use std::collections::BTreeMap;
use vstd::prelude::*;

verus! {

/// The degree of an integrity constraint: the degree of the expression in
/// the trace cells, and for each periodic column that the expression refers
/// to, by the column's index, the length of its cycle. The two are kept
/// apart because the periodic columns enter the degree of the constraint in
/// another way than the trace columns do.
#[derive(Debug, PartialEq, Eq)]
pub struct IntegrityConstraintDegree {
    base: usize,
    cycles: BTreeMap<usize, usize>,
}

impl Clone for IntegrityConstraintDegree {
    fn clone(&self) -> (r: Self)
        ensures
            r.spec_base() == self.spec_base(),
            r.spec_cycles() == self.spec_cycles(),
    {
        IntegrityConstraintDegree { base: self.base, cycles: self.cycles.clone() }
    }
}

impl IntegrityConstraintDegree {
    /// The degree in the trace cells.
    pub closed spec fn spec_base(&self) -> usize {
        self.base
    }

    /// The length of the cycle of each periodic column referred to.
    pub closed spec fn spec_cycles(&self) -> Map<usize, usize> {
        self.cycles@
    }

    /// Creates the degree of a constraint without periodic columns.
    pub fn new(base: usize) -> (r: Self)
        ensures
            r.spec_base() == base,
            r.spec_cycles() == Map::<usize, usize>::empty(),
    {
        IntegrityConstraintDegree { base, cycles: BTreeMap::new() }
    }

    /// Creates the degree of a constraint with periodic columns.
    pub fn with_cycles(base: usize, cycles: BTreeMap<usize, usize>) -> (r: Self)
        ensures
            r.spec_base() == base,
            r.spec_cycles() == cycles@,
    {
        IntegrityConstraintDegree { base, cycles }
    }

    /// Returns the degree in the trace cells.
    pub fn base(&self) -> (r: usize)
        ensures
            r == self.spec_base(),
    {
        self.base
    }

    /// Returns the length of the cycle of each periodic column referred to,
    /// by the column's index.
    pub fn cycles(&self) -> (r: &BTreeMap<usize, usize>)
        ensures
            r@ == self.spec_cycles(),
    {
        &self.cycles
    }
}

/// The degree in the trace cells of an operation whose operands are nodes
/// of `g` before position `bound`: a trace cell has degree 1, a constant, a
/// random value and a periodic column have degree 0, a sum and a difference
/// have the higher degree of their operands, a product has the sum of the
/// degrees of its operands, and a power has the degree of its base times
/// the exponent.
pub open spec fn op_base_degree(g: Seq<OperationView>, op: OperationView, bound: int) -> nat
    decreases bound, 0nat,
{
    match op {
        OperationView::Constant(_) => 0,
        OperationView::RandomValue(_) => 0,
        OperationView::TraceElement(_) => 1,
        OperationView::PeriodicColumn(_, _) => 0,
        OperationView::Neg(a) => if a.0 < bound {
            base_degree(g, a.0 as int)
        } else {
            0
        },
        OperationView::Add(a, b) | OperationView::Sub(a, b) => {
            let da = if a.0 < bound {
                base_degree(g, a.0 as int)
            } else {
                0
            };
            let db = if b.0 < bound {
                base_degree(g, b.0 as int)
            } else {
                0
            };
            if da >= db {
                da
            } else {
                db
            }
        },
        OperationView::Mul(a, b) => {
            let da = if a.0 < bound {
                base_degree(g, a.0 as int)
            } else {
                0
            };
            let db = if b.0 < bound {
                base_degree(g, b.0 as int)
            } else {
                0
            };
            da + db
        },
        OperationView::Exp(a, k) => if a.0 < bound {
            base_degree(g, a.0 as int) * k as nat
        } else {
            0
        },
    }
}

/// The degree in the trace cells of the subgraph below node `i` of `g`.
pub open spec fn base_degree(g: Seq<OperationView>, i: int) -> nat
    decreases i, 1nat,
{
    if i < 0 || i >= g.len() {
        0
    } else {
        op_base_degree(g, g[i], i)
    }
}

/// The periodic columns that an operation depends on, with the lengths of
/// their cycles: a periodic column depends on itself, an operation on what
/// its operands depend on. A column counts once however often it occurs;
/// should one index occur with two lengths, the one met last, operands
/// taken from left to right, stays.
pub open spec fn op_cycles(g: Seq<OperationView>, op: OperationView, bound: int) -> Map<
    usize,
    usize,
>
    decreases bound, 0nat,
{
    match op {
        OperationView::PeriodicColumn(index, cycle_len) => Map::empty().insert(index, cycle_len),
        OperationView::Neg(a) | OperationView::Exp(a, _) => if a.0 < bound {
            cycles_of(g, a.0 as int)
        } else {
            Map::empty()
        },
        OperationView::Add(a, b) | OperationView::Sub(a, b) | OperationView::Mul(a, b) => {
            let ca = if a.0 < bound {
                cycles_of(g, a.0 as int)
            } else {
                Map::empty()
            };
            let cb = if b.0 < bound {
                cycles_of(g, b.0 as int)
            } else {
                Map::empty()
            };
            ca.union_prefer_right(cb)
        },
        _ => Map::empty(),
    }
}

/// The periodic columns that the subgraph below node `i` of `g` depends
/// on, with the lengths of their cycles.
pub open spec fn cycles_of(g: Seq<OperationView>, i: int) -> Map<usize, usize>
    decreases i, 1nat,
{
    if i < 0 || i >= g.len() {
        Map::empty()
    } else {
        op_cycles(g, g[i], i)
    }
}

/// The degree of a node of a graph follows from its operation and from the
/// degrees of its operands, as the recurrences of [`op_base_degree`] and
/// [`op_cycles`] say, for every node.
pub proof fn lemma_degree_rules(g: Seq<OperationView>, i: int)
    requires
        graph_wf(g),
        0 <= i < g.len(),
    ensures
        match g[i] {
            OperationView::Constant(_) | OperationView::RandomValue(_) => {
                &&& base_degree(g, i) == 0
                &&& cycles_of(g, i) == Map::<usize, usize>::empty()
            },
            OperationView::TraceElement(_) => {
                &&& base_degree(g, i) == 1
                &&& cycles_of(g, i) == Map::<usize, usize>::empty()
            },
            OperationView::PeriodicColumn(index, cycle_len) => {
                &&& base_degree(g, i) == 0
                &&& cycles_of(g, i) == Map::<usize, usize>::empty().insert(index, cycle_len)
            },
            OperationView::Neg(a) => {
                &&& base_degree(g, i) == base_degree(g, a.0 as int)
                &&& cycles_of(g, i) == cycles_of(g, a.0 as int)
            },
            OperationView::Add(a, b) | OperationView::Sub(a, b) => {
                &&& base_degree(g, i) == (if base_degree(g, a.0 as int) >= base_degree(
                    g,
                    b.0 as int,
                ) {
                    base_degree(g, a.0 as int)
                } else {
                    base_degree(g, b.0 as int)
                })
                &&& cycles_of(g, i) == cycles_of(g, a.0 as int).union_prefer_right(
                    cycles_of(g, b.0 as int),
                )
            },
            OperationView::Mul(a, b) => {
                &&& base_degree(g, i) == base_degree(g, a.0 as int) + base_degree(g, b.0 as int)
                &&& cycles_of(g, i) == cycles_of(g, a.0 as int).union_prefer_right(
                    cycles_of(g, b.0 as int),
                )
            },
            OperationView::Exp(a, k) => {
                &&& base_degree(g, i) == base_degree(g, a.0 as int) * k as nat
                &&& cycles_of(g, i) == cycles_of(g, a.0 as int)
            },
        },
{
    assert(operands_below(g[i], i));
}

/// A degree as the machine can hold it: a degree beyond `usize::MAX` is
/// held as `usize::MAX`.
pub open spec fn capped(degree: nat) -> usize {
    if degree <= usize::MAX {
        degree as usize
    } else {
        usize::MAX
    }
}

/// The sum of two degrees, capped.
fn capped_sum(a: usize, b: usize, Ghost(x): Ghost<nat>, Ghost(y): Ghost<nat>) -> (r: usize)
    requires
        a == capped(x),
        b == capped(y),
    ensures
        r == capped(x + y),
{
    match a.checked_add(b) {
        Some(sum) => sum,
        None => usize::MAX,
    }
}

/// The product of a degree and an exponent, capped.
fn capped_product(a: usize, k: usize, Ghost(x): Ghost<nat>) -> (r: usize)
    requires
        a == capped(x),
    ensures
        r == capped(x * k as nat),
{
    proof {
        if k >= 1 {
            assert(x * k as nat >= x) by (nonlinear_arith)
                requires
                    k >= 1,
            ;
        } else {
            assert(x * k as nat == 0) by (nonlinear_arith)
                requires
                    k == 0,
            ;
        }
        if x > usize::MAX && k >= 1 {
            assert(a * k >= a) by (nonlinear_arith)
                requires
                    k >= 1,
            ;
        }
    }
    match a.checked_mul(k) {
        Some(product) => product,
        None => usize::MAX,
    }
}

/// Records the length of the cycle of a periodic column, in place of what
/// was recorded for the column before.
fn record_cycle(cycles: &mut BTreeMap<usize, usize>, column: usize, cycle_len: usize)
    ensures
        final(cycles)@ == old(cycles)@.insert(column, cycle_len),
{
    broadcast use vstd::laws_cmp::group_laws_cmp;

    cycles.insert(column, cycle_len);
}

impl AlgebraicGraph {
    /// Returns the degree of the subgraph below the given node: the degree
    /// in the trace cells, capped at `usize::MAX`, and the periodic columns
    /// that the subgraph depends on.
    pub fn degree(&self, index: &NodeIndex) -> (r: IntegrityConstraintDegree)
        requires
            self.wf(),
            index.0 < self@.len(),
        ensures
            r.spec_base() == capped(base_degree(self@, index.0 as int)),
            r.spec_cycles() == cycles_of(self@, index.0 as int),
    {
        let mut cycles: BTreeMap<usize, usize> = BTreeMap::new();
        let base = self.accumulate_degree(&mut cycles, index);
        assert(cycles@ =~= cycles_of(self@, index.0 as int));
        if cycles.is_empty() {
            IntegrityConstraintDegree::new(base)
        } else {
            IntegrityConstraintDegree::with_cycles(base, cycles)
        }
    }

    /// Walks the subgraph below the given node: returns its degree in the
    /// trace cells, capped at `usize::MAX`, and adds to `cycles` the periodic
    /// columns that it depends on.
    pub fn accumulate_degree(&self, cycles: &mut BTreeMap<usize, usize>, index: &NodeIndex) -> (r:
        usize)
        requires
            self.wf(),
            index.0 < self@.len(),
        ensures
            r == capped(base_degree(self@, index.0 as int)),
            final(cycles)@ == old(cycles)@.union_prefer_right(cycles_of(self@, index.0 as int)),
        decreases index.0,
    {
        let ghost before = cycles@;
        match self.node(index).op() {
            Operation::Constant(_) | Operation::RandomValue(_) => {
                assert(cycles@ =~= before.union_prefer_right(cycles_of(self@, index.0 as int)));
                0
            },
            Operation::TraceElement(_) => {
                assert(cycles@ =~= before.union_prefer_right(cycles_of(self@, index.0 as int)));
                1
            },
            Operation::PeriodicColumn(column, cycle_len) => {
                record_cycle(cycles, *column, *cycle_len);
                assert(cycles@ =~= before.union_prefer_right(cycles_of(self@, index.0 as int)));
                0
            },
            Operation::Neg(operand) => {
                let base = self.accumulate_degree(cycles, operand);
                base
            },
            Operation::Add(lhs, rhs) => {
                let lhs_base = self.accumulate_degree(cycles, lhs);
                let rhs_base = self.accumulate_degree(cycles, rhs);
                assert(cycles@ =~= before.union_prefer_right(cycles_of(self@, index.0 as int)));
                if lhs_base >= rhs_base {
                    lhs_base
                } else {
                    rhs_base
                }
            },
            Operation::Sub(lhs, rhs) => {
                let lhs_base = self.accumulate_degree(cycles, lhs);
                let rhs_base = self.accumulate_degree(cycles, rhs);
                assert(cycles@ =~= before.union_prefer_right(cycles_of(self@, index.0 as int)));
                if lhs_base >= rhs_base {
                    lhs_base
                } else {
                    rhs_base
                }
            },
            Operation::Mul(lhs, rhs) => {
                let lhs_base = self.accumulate_degree(cycles, lhs);
                let rhs_base = self.accumulate_degree(cycles, rhs);
                assert(cycles@ =~= before.union_prefer_right(cycles_of(self@, index.0 as int)));
                capped_sum(
                    lhs_base,
                    rhs_base,
                    Ghost(base_degree(self@, lhs.0 as int)),
                    Ghost(base_degree(self@, rhs.0 as int)),
                )
            },
            Operation::Exp(lhs, rhs) => {
                let lhs_base = self.accumulate_degree(cycles, lhs);
                capped_product(lhs_base, *rhs, Ghost(base_degree(self@, lhs.0 as int)))
            },
        }
    }
}

} // verus!
