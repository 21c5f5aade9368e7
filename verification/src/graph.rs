//! The algebraic graph: a directed acyclic graph of arithmetic operations in
//! which no operation is stored twice.

use crate::ast::{IndexedTraceAccess, MatrixAccess, VectorAccess};
use crate::hashing::{hash, op_hash};
use vstd::prelude::*;

verus! {

/// A reference to a node of a graph: its position in the order in which the
/// graph's nodes were inserted.
#[derive(Debug, Clone, Copy, PartialEq, Eq, Structural)]
pub struct NodeIndex(pub usize);

impl Default for NodeIndex {
    fn default() -> (r: Self)
        ensures
            r == NodeIndex(0),
    {
        NodeIndex(0)
    }
}

/// A constant operand: a literal, or a reference to a named constant or to
/// an element of one.
#[derive(Debug, PartialEq, Eq)]
pub enum ConstantValue {
    Inline(u64),
    Scalar(String),
    Vector(VectorAccess),
    Matrix(MatrixAccess),
}

/// The mathematical value of a [`ConstantValue`].
pub enum ConstantValueView {
    Inline(u64),
    Scalar(Seq<char>),
    Vector(Seq<char>, usize),
    Matrix(Seq<char>, usize, usize),
}

impl View for ConstantValue {
    type V = ConstantValueView;

    open spec fn view(&self) -> ConstantValueView {
        match *self {
            ConstantValue::Inline(v) => ConstantValueView::Inline(v),
            ConstantValue::Scalar(name) => ConstantValueView::Scalar(name@),
            ConstantValue::Vector(a) => ConstantValueView::Vector(a.name@, a.idx),
            ConstantValue::Matrix(a) => ConstantValueView::Matrix(a.name@, a.row_idx, a.col_idx),
        }
    }
}

impl ConstantValue {
    /// Whether two constants are the same literal or refer to the same named
    /// value.
    pub fn same(&self, other: &ConstantValue) -> (r: bool)
        ensures
            r == (self@ == other@),
    {
        match (self, other) {
            (ConstantValue::Inline(a), ConstantValue::Inline(b)) => *a == *b,
            (ConstantValue::Scalar(a), ConstantValue::Scalar(b)) => *a == *b,
            (ConstantValue::Vector(a), ConstantValue::Vector(b)) => {
                a.name.0 == b.name.0 && a.idx == b.idx
            },
            (ConstantValue::Matrix(a), ConstantValue::Matrix(b)) => {
                a.name.0 == b.name.0 && a.row_idx == b.row_idx && a.col_idx == b.col_idx
            },
            _ => false,
        }
    }
}

/// An operation of a constraint, or a value that one refers to. Operands
/// are nodes of the same graph.
#[derive(Debug, PartialEq, Eq)]
pub enum Operation {
    /// A literal or a named constant.
    Constant(ConstantValue),
    /// A cell of the trace.
    TraceElement(IndexedTraceAccess),
    /// The value of a periodic column at the current row: the column's index
    /// among the declared periodic columns, and the length of its cycle.
    PeriodicColumn(usize, usize),
    /// A random value supplied by the verifier, by its index.
    RandomValue(usize),
    /// The negation of a node.
    Neg(NodeIndex),
    /// The sum of two nodes.
    Add(NodeIndex, NodeIndex),
    /// The difference of two nodes.
    Sub(NodeIndex, NodeIndex),
    /// The product of two nodes.
    Mul(NodeIndex, NodeIndex),
    /// A node raised to a constant power.
    Exp(NodeIndex, usize),
}

/// The mathematical value of an [`Operation`].
pub enum OperationView {
    Constant(ConstantValueView),
    TraceElement(IndexedTraceAccess),
    PeriodicColumn(usize, usize),
    RandomValue(usize),
    Neg(NodeIndex),
    Add(NodeIndex, NodeIndex),
    Sub(NodeIndex, NodeIndex),
    Mul(NodeIndex, NodeIndex),
    Exp(NodeIndex, usize),
}

impl View for Operation {
    type V = OperationView;

    open spec fn view(&self) -> OperationView {
        match *self {
            Operation::Constant(c) => OperationView::Constant(c@),
            Operation::TraceElement(a) => OperationView::TraceElement(a),
            Operation::PeriodicColumn(i, n) => OperationView::PeriodicColumn(i, n),
            Operation::RandomValue(i) => OperationView::RandomValue(i),
            Operation::Neg(a) => OperationView::Neg(a),
            Operation::Add(a, b) => OperationView::Add(a, b),
            Operation::Sub(a, b) => OperationView::Sub(a, b),
            Operation::Mul(a, b) => OperationView::Mul(a, b),
            Operation::Exp(a, k) => OperationView::Exp(a, k),
        }
    }
}

impl Operation {
    /// Whether two operations are structurally equal: the same variant with
    /// the same operands and the same payload.
    pub fn same(&self, other: &Operation) -> (r: bool)
        ensures
            r == (self@ == other@),
    {
        match (self, other) {
            (Operation::Constant(a), Operation::Constant(b)) => a.same(b),
            (Operation::TraceElement(a), Operation::TraceElement(b)) => *a == *b,
            (Operation::PeriodicColumn(i, n), Operation::PeriodicColumn(j, m)) => {
                *i == *j && *n == *m
            },
            (Operation::RandomValue(i), Operation::RandomValue(j)) => *i == *j,
            (Operation::Neg(a), Operation::Neg(b)) => *a == *b,
            (Operation::Add(a, b), Operation::Add(c, d)) => *a == *c && *b == *d,
            (Operation::Sub(a, b), Operation::Sub(c, d)) => *a == *c && *b == *d,
            (Operation::Mul(a, b), Operation::Mul(c, d)) => *a == *c && *b == *d,
            (Operation::Exp(a, k), Operation::Exp(b, m)) => *a == *b && *k == *m,
            _ => false,
        }
    }
}

/// Whether every operand of `op` is a node before position `n`.
pub open spec fn operands_below(op: OperationView, n: int) -> bool {
    match op {
        OperationView::Neg(a) => a.0 < n,
        OperationView::Add(a, b) => a.0 < n && b.0 < n,
        OperationView::Sub(a, b) => a.0 < n && b.0 < n,
        OperationView::Mul(a, b) => a.0 < n && b.0 < n,
        OperationView::Exp(a, _) => a.0 < n,
        _ => true,
    }
}

/// The two invariants of a graph, over the sequence of its operations in
/// insertion order: the operands of each node come before the node, and no
/// two nodes hold equal operations.
pub open spec fn graph_wf(g: Seq<OperationView>) -> bool {
    &&& forall|i: int| 0 <= i < g.len() ==> operands_below(#[trigger] g[i], i)
    &&& forall|i: int, j: int| 0 <= i < j < g.len() ==> g[i] != g[j]
}

/// The position of `op` in `g`, where `g` holds it.
pub open spec fn position(g: Seq<OperationView>, op: OperationView) -> Option<int> {
    if exists|i: int| 0 <= i < g.len() && g[i] == op {
        Some(
            choose|i: int|
                0 <= i < g.len() && g[i] == op && (forall|j: int| 0 <= j < i ==> g[j] != op),
        )
    } else {
        None
    }
}

/// The graph after `op` is inserted into `g`, and the node that then holds
/// `op`: the node that held it already, or else a new last node. A proof
/// that computes with it reveals it.
#[verifier::opaque]
pub open spec fn inserted(g: Seq<OperationView>, op: OperationView) -> (
    Seq<OperationView>,
    NodeIndex,
) {
    match position(g, op) {
        Some(i) => (g, NodeIndex(i as usize)),
        None => (g.push(op), NodeIndex(g.len() as usize)),
    }
}

/// Whether `new` is `old` with nodes added at its end.
pub open spec fn extends(new: Seq<OperationView>, old: Seq<OperationView>) -> bool {
    old.len() <= new.len() && forall|i: int| 0 <= i < old.len() ==> new[i] == old[i]
}

/// An inserted operation is held by the node returned, and the graph keeps
/// its two invariants and all the nodes that it had.
pub proof fn lemma_inserted_wf(g: Seq<OperationView>, op: OperationView)
    requires
        graph_wf(g),
        operands_below(op, g.len() as int),
        g.len() <= usize::MAX,
    ensures
        graph_wf(inserted(g, op).0),
        extends(inserted(g, op).0, g),
        inserted(g, op).1.0 < inserted(g, op).0.len(),
        inserted(g, op).0[inserted(g, op).1.0 as int] == op,
{
    reveal(inserted);
}

/// Hash-consing: an operation that is inserted a second time, or one equal
/// to it, gets the node of the first time, and the graph does not grow.
pub proof fn lemma_insert_twice(g: Seq<OperationView>, op1: OperationView, op2: OperationView)
    requires
        graph_wf(g),
        op1 == op2,
    ensures
        inserted(inserted(g, op1).0, op2) == inserted(g, op1),
        inserted(inserted(g, op1).0, op2).0.len() == inserted(g, op1).0.len(),
{
    reveal(inserted);
    let g1 = inserted(g, op1).0;
    if position(g, op1) is None {
        assert(g1[g.len() as int] == op1);
        assert(forall|j: int| 0 <= j < g.len() ==> g1[j] == g[j]);
    }
}

/// Two nodes of a graph that hold equal operations are one node.
pub proof fn lemma_equal_operations_one_node(g: Seq<OperationView>, i: int, j: int)
    requires
        graph_wf(g),
        0 <= i < g.len(),
        0 <= j < g.len(),
        g[i] == g[j],
    ensures
        i == j,
{
}

/// Acyclicity: every operand of a node comes before the node in the order
/// of insertion.
pub proof fn lemma_operands_precede(g: Seq<OperationView>, i: int)
    requires
        graph_wf(g),
        0 <= i < g.len(),
    ensures
        operands_below(g[i], i),
{
}

/// A node of the graph.
#[derive(Debug, PartialEq, Eq)]
pub struct Node {
    /// The operation that the node stands for.
    pub op: Operation,
}

impl Node {
    /// Returns the operation of the node.
    pub fn op(&self) -> (r: &Operation)
        ensures
            *r == self.op,
    {
        &self.op
    }
}

/// The list of the side table in which an operation is looked up when the
/// table has `buckets` lists.
pub open spec fn bucket_of(op: OperationView, buckets: int) -> int {
    op_hash(op) as int % buckets
}

/// Whether node `i` is in the list in which its operation is looked up.
pub open spec fn listed(nodes: Seq<Node>, index: Seq<Vec<usize>>, i: int) -> bool {
    index[bucket_of(nodes[i].op@, index.len() as int)]@.contains(i as usize)
}

/// Whether `index` is a side table of the first `n` of the nodes: every
/// position in one of its lists is that of one of these nodes, whose
/// operation is looked up in that list, and each of these nodes is in the
/// list in which its operation is looked up.
pub open spec fn indexes_first(nodes: Seq<Node>, index: Seq<Vec<usize>>, n: int) -> bool {
    &&& forall|b: int, k: int|
        0 <= b < index.len() && 0 <= k < index[b]@.len() ==> {
            let j = #[trigger] index[b]@[k];
            j < n && bucket_of(nodes[j as int].op@, index.len() as int) == b
        }
    &&& forall|i: int| 0 <= i < n ==> #[trigger] listed(nodes, index, i)
}

/// Whether `index` is a side table of `nodes`: it has a list, and it is a
/// side table of all the nodes.
pub open spec fn indexes(nodes: Seq<Node>, index: Seq<Vec<usize>>) -> bool {
    index.len() > 0 && indexes_first(nodes, index, nodes.len() as int)
}

/// Adds the position of a node at the end of the list in which the
/// operation of the node is looked up.
fn list_position(
    index: &mut Vec<Vec<usize>>,
    bucket: usize,
    position: usize,
    Ghost(nodes): Ghost<Seq<Node>>,
)
    requires
        position < nodes.len(),
        bucket < old(index)@.len(),
        bucket == bucket_of(nodes[position as int].op@, old(index)@.len() as int),
        indexes_first(nodes, old(index)@, position as int),
    ensures
        final(index)@.len() == old(index)@.len(),
        final(index)@[bucket as int]@ == old(index)@[bucket as int]@.push(position),
        forall|b: int|
            0 <= b < final(index)@.len() && b != bucket ==> final(index)@[b] == old(index)@[b],
        indexes_first(nodes, final(index)@, position + 1),
{
    let ghost before = index@;
    let mut list: Vec<usize> = Vec::new();
    std::mem::swap(&mut list, &mut index[bucket]);
    list.push(position);
    std::mem::swap(&mut list, &mut index[bucket]);
    proof {
        assert(index@[bucket as int]@ == before[bucket as int]@.push(position));
        assert forall|b: int, k: int| 0 <= b < index@.len() && 0 <= k < index@[b]@.len() implies {
            let j = #[trigger] index@[b]@[k];
            j < position + 1 && bucket_of(nodes[j as int].op@, index@.len() as int) == b
        } by {
            if b == bucket && k == before[b]@.len() {
            } else {
                assert(index@[b]@[k] == before[b]@[k]);
            }
        }
        assert forall|i: int| 0 <= i < position + 1 implies #[trigger] listed(
            nodes,
            index@,
            i,
        ) by {
            if i < position {
                assert(listed(nodes, before, i));
                let b = bucket_of(nodes[i].op@, index@.len() as int);
                let k = choose|k: int| 0 <= k < before[b]@.len() && before[b]@[k] == i as usize;
                assert(index@[b]@[k] == i as usize);
            } else {
                assert(index@[bucket as int]@[before[bucket as int]@.len() as int] == i as usize);
            }
        }
    }
}

/// Adds a node at the end of the nodes, and its position at the end of
/// the list in which its operation is looked up.
fn append(nodes: &mut Vec<Node>, index: &mut Vec<Vec<usize>>, node: Node, bucket: usize)
    requires
        indexes(old(nodes)@, old(index)@),
        bucket == bucket_of(node.op@, old(index)@.len() as int),
    ensures
        final(nodes)@ == old(nodes)@.push(node),
        final(index)@.len() == old(index)@.len(),
        indexes(final(nodes)@, final(index)@),
{
    let position = nodes.len();
    nodes.push(node);
    proof {
        assert forall|i: int| 0 <= i < position implies #[trigger] listed(nodes@, index@, i) by {
            assert(listed(old(nodes)@, index@, i));
        }
    }
    list_position(index, bucket, position, Ghost(nodes@));
}

/// Replaces the side table by one with twice as many lists, each of
/// which holds, in increasing order, the positions of the nodes whose
/// operations are looked up in it.
fn rebuild(nodes: &Vec<Node>, index: &mut Vec<Vec<usize>>)
    requires
        indexes(nodes@, old(index)@),
        old(index)@.len() <= usize::MAX / 2,
    ensures
        final(index)@.len() == 2 * old(index)@.len(),
        forall|b: int|
            0 <= b < final(index)@.len() ==> (#[trigger] final(index)@[b])@ == positions_in(
                nodes@,
                final(index)@.len() as int,
                b,
                nodes@.len() as int,
            ),
        indexes(nodes@, final(index)@),
{
    let buckets = index.len() * 2;
    let mut table: Vec<Vec<usize>> = Vec::new();
    while table.len() < buckets
        invariant
            table@.len() <= buckets,
            forall|b: int| 0 <= b < table@.len() ==> (#[trigger] table@[b])@.len() == 0,
        decreases buckets - table@.len(),
    {
        table.push(Vec::new());
    }
    let mut i: usize = 0;
    while i < nodes.len()
        invariant
            i <= nodes@.len(),
            table@.len() == buckets,
            buckets > 0,
            indexes_first(nodes@, table@, i as int),
            forall|b: int|
                0 <= b < table@.len() ==> (#[trigger] table@[b])@ == positions_in(
                    nodes@,
                    buckets as int,
                    b,
                    i as int,
                ),
        decreases nodes@.len() - i,
    {
        let bucket = (hash(&nodes[i].op) % (buckets as u64)) as usize;
        list_position(&mut table, bucket, i, Ghost(nodes@));
        i = i + 1;
    }
    *index = table;
}

/// The positions, in increasing order, of those of the first `n` nodes
/// whose operations are looked up in list `b` of a side table of `buckets`
/// lists.
pub open spec fn positions_in(nodes: Seq<Node>, buckets: int, b: int, n: int) -> Seq<usize>
    decreases n,
{
    if n <= 0 {
        Seq::empty()
    } else if bucket_of(nodes[n - 1].op@, buckets) == b {
        positions_in(nodes, buckets, b, n - 1).push((n - 1) as usize)
    } else {
        positions_in(nodes, buckets, b, n - 1)
    }
}

/// A directed acyclic graph of the operations of all constraints, stored as
/// the sequence of its nodes, each of which refers to its operands by their
/// positions. Expressions share the nodes of equal subexpressions: a side
/// table lists the positions of the nodes by the hash of their operations,
/// so that an equal operation is found without a look at every node.
#[derive(Debug)]
pub struct AlgebraicGraph {
    nodes: Vec<Node>,
    index: Vec<Vec<usize>>,
}

impl View for AlgebraicGraph {
    type V = Seq<OperationView>;

    closed spec fn view(&self) -> Seq<OperationView> {
        Seq::new(self.nodes@.len(), |i: int| self.nodes@[i].op@)
    }
}

impl Default for AlgebraicGraph {
    fn default() -> (r: Self)
        ensures
            r@ == Seq::<OperationView>::empty(),
            r.wf(),
    {
        AlgebraicGraph::new()
    }
}

impl AlgebraicGraph {
    /// Whether the side table lists every node where its operation is
    /// looked up.
    pub closed spec fn indexed(&self) -> bool {
        indexes(self.nodes@, self.index@)
    }

    /// Whether the graph is acyclic and holds no operation twice, and its
    /// side table is in order.
    pub open spec fn wf(&self) -> bool {
        graph_wf(self@) && self.indexed()
    }

    /// Creates an empty graph.
    pub fn new() -> (r: Self)
        ensures
            r@ == Seq::<OperationView>::empty(),
            r.wf(),
    {
        let mut index: Vec<Vec<usize>> = Vec::new();
        index.push(Vec::new());
        AlgebraicGraph { nodes: Vec::new(), index }
    }

    /// A graph has no more nodes than the machine can count.
    pub proof fn lemma_len_bounded(&self)
        ensures
            self@.len() <= usize::MAX,
    {
        assert(self.nodes.len() == self.nodes@.len());
    }

    /// Returns the number of nodes.
    pub fn num_nodes(&self) -> (r: usize)
        ensures
            r == self@.len(),
    {
        self.nodes.len()
    }

    /// Returns the node with the given index.
    pub fn node(&self, index: &NodeIndex) -> (r: &Node)
        requires
            index.0 < self@.len(),
        ensures
            r.op@ == self@[index.0 as int],
            self.wf() ==> operands_below(r.op@, index.0 as int),
    {
        &self.nodes[index.0]
    }

    /// Returns the position of the node that holds an operation equal to
    /// `op`, where there is one.
    fn find(&self, op: &Operation, bucket: usize) -> (r: Option<usize>)
        requires
            self.indexed(),
            bucket == bucket_of(op@, self.index@.len() as int),
        ensures
            match r {
                Some(i) => i < self@.len() && self@[i as int] == op@,
                None => forall|i: int| 0 <= i < self@.len() ==> self@[i] != op@,
            },
    {
        let list = &self.index[bucket];
        let mut k: usize = 0;
        while k < list.len()
            invariant
                k <= list@.len(),
                indexes(self.nodes@, self.index@),
                bucket < self.index@.len(),
                *list == self.index@[bucket as int],
                forall|m: int| 0 <= m < k ==> self@[(#[trigger] list@[m]) as int] != op@,
            decreases list@.len() - k,
        {
            let i = list[k];
            assert(self.index@[bucket as int]@[k as int] == i);
            if self.nodes[i].op.same(op) {
                return Some(i);
            }
            k = k + 1;
        }
        assert(self.nodes.len() == self.nodes@.len());
        assert forall|i: int| 0 <= i < self@.len() implies self@[i] != op@ by {
            if self@[i] == op@ {
                assert(listed(self.nodes@, self.index@, i));
                let m = choose|m: int| 0 <= m < list@.len() && list@[m] == i as usize;
                assert(self@[list@[m] as int] != op@);
            }
        }
        None
    }

    /// Inserts the operation and returns the index of its node. Where a node
    /// with an equal operation exists, the graph is left as it is and that
    /// node's index is returned.
    pub fn insert_op(&mut self, op: Operation) -> (r: NodeIndex)
        requires
            old(self).wf(),
            operands_below(op@, old(self)@.len() as int),
        ensures
            final(self).wf(),
            extends(final(self)@, old(self)@),
            (final(self)@, r) == inserted(old(self)@, op@),
            r.0 < final(self)@.len(),
            final(self)@[r.0 as int] == op@,
    {
        reveal(inserted);
        if self.nodes.len() > self.index.len() && self.index.len() <= usize::MAX / 2 {
            rebuild(&self.nodes, &mut self.index);
        }
        let bucket = (hash(&op) % (self.index.len() as u64)) as usize;
        match self.find(&op, bucket) {
            Some(i) => NodeIndex(i),
            None => {
                let position = self.nodes.len();
                append(&mut self.nodes, &mut self.index, Node { op }, bucket);
                assert(self@ =~= old(self)@.push(op@));
                NodeIndex(position)
            },
        }
    }
}

} // verus!
