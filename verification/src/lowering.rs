//! Lowering: how the expressions of the parsed program become nodes of the
//! algebraic graph.
//!
//! The first half of this file says what lowering yields, as functions on
//! the mathematical values of the graph, of the symbol table and of the
//! variable roots. The second half holds the code, each function of which
//! is proved to compute the function of the first half that it is named
//! after.
//!
//! The functions of the first half call each other as the expressions
//! nest. A proof that computes with them on a given expression unfolds
//! them as often as the expression is deep, and [`lookup`] as often as the
//! table is long (`reveal_with_fuel`).

use crate::ast::{
    ConstantType, Expression, Identifier, IndexedTraceAccess, Iterable, MatrixAccess,
    NamedTraceAccess, VariableType, VectorAccess,
};
use crate::details::{
    ExprContext, ExprDetails, ListComprehensionContext, VariableRoots, VariableValue,
    VariableValueView,
};
use crate::domain::ConstraintDomain;
use crate::error::{SemanticError, SemanticErrorView};
use crate::graph::{
    extends, graph_wf, inserted, operands_below, position, AlgebraicGraph, ConstantValue,
    ConstantValueView, NodeIndex, Operation, OperationView,
};
use crate::symbol_table::{
    lookup, resolve_matrix, resolve_vector, IdentifierType, Symbol, SymbolTable,
};
use vstd::prelude::*;

verus! {

/// The main trace segment, which an expression belongs to unless something
/// in it belongs to a later one.
pub const DEFAULT_SEGMENT: u8 = 0;

/// The auxiliary trace segment, which every random value belongs to.
pub const AUX_SEGMENT: u8 = 1;

/// The offset of the current row.
pub const CURRENT_ROW: usize = 0;

/// The trace segment of an operation whose operands are nodes of `g`
/// before position `bound`: that of a trace cell is the cell's own, that of
/// a random value is the auxiliary segment, that of an operation is the
/// highest among its operands, and everything else belongs to the main
/// segment.
pub open spec fn op_segment(g: Seq<OperationView>, op: OperationView, bound: int) -> int
    decreases bound, 0nat,
{
    match op {
        OperationView::Constant(_) => 0,
        OperationView::TraceElement(a) => a.trace_segment as int,
        OperationView::PeriodicColumn(_, _) => 0,
        OperationView::RandomValue(_) => 1,
        OperationView::Neg(a) => if a.0 < bound {
            segment_of(g, a.0 as int)
        } else {
            0
        },
        OperationView::Add(a, b) | OperationView::Sub(a, b) | OperationView::Mul(a, b) => {
            let sa = if a.0 < bound {
                segment_of(g, a.0 as int)
            } else {
                0
            };
            let sb = if b.0 < bound {
                segment_of(g, b.0 as int)
            } else {
                0
            };
            if sa >= sb {
                sa
            } else {
                sb
            }
        },
        OperationView::Exp(a, _) => if a.0 < bound {
            segment_of(g, a.0 as int)
        } else {
            0
        },
    }
}

/// The trace segment of the subgraph below node `i` of `g`: the segment of
/// the node's operation.
pub open spec fn segment_of(g: Seq<OperationView>, i: int) -> int
    decreases i, 1nat,
{
    if i < 0 || i >= g.len() {
        0
    } else {
        op_segment(g, g[i], i)
    }
}

/// Whether `d` describes a node of `g`, with the trace segment that the
/// subgraph below that node has.
pub open spec fn details_valid(g: Seq<OperationView>, d: ExprDetails) -> bool {
    d.root_idx.0 < g.len() && d.trace_segment == segment_of(g, d.root_idx.0 as int)
}

/// Whether every variable root describes a node of `g`.
pub open spec fn roots_valid(
    g: Seq<OperationView>,
    roots: Map<VariableValueView, ExprDetails>,
) -> bool {
    forall|k: VariableValueView| roots.contains_key(k) ==> details_valid(g, #[trigger] roots[k])
}

/// What lowering yields: the graph and the variable roots after it, and the
/// details of the lowered expression or the error that ended the lowering.
pub struct Lowered {
    pub nodes: Seq<OperationView>,
    pub roots: Map<VariableValueView, ExprDetails>,
    pub result: Result<ExprDetails, SemanticErrorView>,
}

/// The mathematical value of the result of a lowering function.
pub open spec fn result_view(r: Result<ExprDetails, SemanticError>) -> Result<
    ExprDetails,
    SemanticErrorView,
> {
    match r {
        Ok(d) => Ok(d),
        Err(e) => Err(e@),
    }
}

/// What the lowering of an expression without variables yields: the graph
/// after it, and the details of the expression or the error.
pub type Inserted = (Seq<OperationView>, Result<ExprDetails, SemanticErrorView>);

/// What `p` yields, with the variable roots left as they are.
pub open spec fn with_roots(p: Inserted, roots: Map<VariableValueView, ExprDetails>) -> Lowered {
    Lowered { nodes: p.0, roots, result: p.1 }
}

/// Lowering that fails with `e` and changes nothing.
pub open spec fn failed(nodes: Seq<OperationView>, e: SemanticErrorView) -> Inserted {
    (nodes, Err(e))
}

/// Lowering of an expression that is one node: the node is inserted, and
/// the details are as given.
pub open spec fn leaf(
    nodes: Seq<OperationView>,
    op: OperationView,
    trace_segment: u8,
    domain: ConstraintDomain,
    constant: Option<u64>,
) -> Inserted {
    let (g, i) = inserted(nodes, op);
    (g, Ok(ExprDetails { root_idx: i, trace_segment, domain, constant }))
}

/// The graph after the operation `op` on the two lowered operands `lhs` and
/// `rhs` is inserted, and the details of the result: its segment is the
/// higher of the two, its domain is the two domains merged. Where they do not
/// merge, the node is inserted all the same.
pub open spec fn combined(
    nodes: Seq<OperationView>,
    lhs: ExprDetails,
    rhs: ExprDetails,
    op: OperationView,
) -> Inserted {
    let (g, i) = inserted(nodes, op);
    let trace_segment = if lhs.trace_segment >= rhs.trace_segment {
        lhs.trace_segment
    } else {
        rhs.trace_segment
    };
    match lhs.domain.merged(rhs.domain) {
        Some(domain) => (
            g,
            Ok(ExprDetails { root_idx: i, trace_segment, domain, constant: None }),
        ),
        None => (
            g,
            Err(SemanticErrorView::IncompatibleConstraintDomains(lhs.domain, rhs.domain)),
        ),
    }
}

/// Lowering of a trace cell given by position. The cell must exist: a
/// segment that is not declared, a column beyond the width of the segment,
/// and a row other than the current and the next one are rejected with
/// `IndexOutOfRange`. The expression is constrained on every row.
pub open spec fn lower_indexed_trace_access(
    widths: Seq<u16>,
    nodes: Seq<OperationView>,
    access: IndexedTraceAccess,
) -> Inserted {
    if access.trace_segment >= widths.len() {
        failed(nodes, SemanticErrorView::IndexOutOfRange("trace segment"@))
    } else if access.col_idx >= widths[access.trace_segment as int] {
        failed(nodes, SemanticErrorView::IndexOutOfRange("trace column"@))
    } else if access.row_offset > 1 {
        failed(nodes, SemanticErrorView::IndexOutOfRange("row offset"@))
    } else {
        leaf(
            nodes,
            OperationView::TraceElement(access),
            access.trace_segment,
            ConstraintDomain::EveryRow,
            None,
        )
    }
}

/// Lowering of a trace cell given by the name of its group of columns: the
/// cell of the group's segment whose column is the group's first column
/// plus the index. Fails with `Undeclared` where the name is not declared,
/// with `InvalidUsage` where it is not declared as trace columns, and with
/// `IndexOutOfRange` where the index is beyond the group or the row is not
/// the current or the next one.
pub open spec fn lower_named_trace_access(
    symbols: Seq<Symbol>,
    nodes: Seq<OperationView>,
    access: NamedTraceAccess,
    domain: ConstraintDomain,
) -> Inserted {
    match lookup(symbols, access.name@, symbols.len() as int) {
        None => failed(nodes, SemanticErrorView::Undeclared(access.name@)),
        Some(j) => match symbols[j].ty {
            IdentifierType::TraceColumns(c) => {
                if access.idx >= c.size {
                    failed(nodes, SemanticErrorView::IndexOutOfRange(access.name@))
                } else if access.row_offset > 1 {
                    failed(nodes, SemanticErrorView::IndexOutOfRange("row offset"@))
                } else {
                    leaf(
                        nodes,
                        OperationView::TraceElement(
                            IndexedTraceAccess {
                                trace_segment: c.trace_segment,
                                col_idx: (c.offset + access.idx) as usize,
                                row_offset: access.row_offset,
                            },
                        ),
                        c.trace_segment,
                        domain,
                        None,
                    )
                }
            },
            _ => failed(nodes, SemanticErrorView::InvalidUsage(access.name@)),
        },
    }
}

/// The position of the first member named `name` among the members
/// `context[from..]` of a list comprehension.
pub open spec fn binding(
    context: Seq<(Identifier, Iterable)>,
    name: Seq<char>,
    from: int,
) -> Option<int>
    decreases context.len() - from,
{
    if from < 0 || from >= context.len() {
        None
    } else if context[from].0@ == name {
        Some(from)
    } else {
        binding(context, name, from + 1)
    }
}

/// What the member `name` of the list comprehension declared at position
/// `variable` ranges over, where that declaration is a list comprehension
/// of the integrity constraints with such a member.
pub open spec fn member_iterable(symbols: Seq<Symbol>, variable: usize, name: Seq<char>) -> Option<
    Iterable,
> {
    if variable < symbols.len() {
        match symbols[variable as int].ty {
            IdentifierType::IntegrityVariable(VariableType::ListComprehension(lc)) => {
                match binding(lc.context@, name, 0) {
                    Some(k) => Some(lc.context@[k].1),
                    None => None,
                }
            },
            _ => None,
        }
    } else {
        None
    }
}

/// Lowering of a name that no declaration gives a value to, in the body of
/// a list comprehension: where the name is a member that ranges over a
/// group of trace columns, it is the column of the group at the position of
/// the element being lowered, in the current row. The group is looked up
/// among the declarations before the comprehension.
///
/// Fails with `Unsupported` where the member ranges over anything else, with
/// `Undeclared` where the name of the group is not declared, and with
/// `IndexOutOfRange` where the group has no such column. Where the name is no
/// member, it fails with `InvalidUsage` if the name is declared, and with
/// `Undeclared` if it is not.
pub open spec fn lower_member(
    symbols: Seq<Symbol>,
    nodes: Seq<OperationView>,
    name: Seq<char>,
    domain: ConstraintDomain,
    context: ExprContext,
    declared: bool,
) -> Inserted {
    let fallback = if declared {
        failed(nodes, SemanticErrorView::InvalidUsage(name))
    } else {
        failed(nodes, SemanticErrorView::Undeclared(name))
    };
    match context.list_comprehension_context {
        None => fallback,
        Some(frame) => match member_iterable(symbols, frame.variable, name) {
            None => fallback,
            Some(Iterable::Identifier(group)) => {
                match lookup(symbols, group@, frame.variable as int) {
                    None => failed(nodes, SemanticErrorView::Undeclared(group@)),
                    Some(m) => match symbols[m].ty {
                        IdentifierType::TraceColumns(c) => {
                            if frame.index >= c.size {
                                failed(nodes, SemanticErrorView::IndexOutOfRange(group@))
                            } else {
                                leaf(
                                    nodes,
                                    OperationView::TraceElement(
                                        IndexedTraceAccess {
                                            trace_segment: c.trace_segment,
                                            col_idx: (c.offset + frame.index) as usize,
                                            row_offset: CURRENT_ROW,
                                        },
                                    ),
                                    c.trace_segment,
                                    domain,
                                    None,
                                )
                            }
                        },
                        _ => failed(nodes, SemanticErrorView::Unsupported(group@)),
                    },
                }
            },
            Some(_) => failed(nodes, SemanticErrorView::Unsupported(name)),
        },
    }
}

/// Lowering of the operation on two operands: the left operand is
/// lowered, then the right one, then the operation that `op` makes of their
/// roots is inserted as [`combined`] says. The first error ends the
/// lowering.
pub open spec fn lower_operands(
    l: Lowered,
    r: Lowered,
    op: spec_fn(NodeIndex, NodeIndex) -> OperationView,
) -> Lowered {
    match l.result {
        Err(_) => l,
        Ok(a) => match r.result {
            Err(_) => r,
            Ok(b) => with_roots(combined(r.nodes, a, b, op(a.root_idx, b.root_idx)), r.roots),
        },
    }
}

/// Lowering of a power whose base has been lowered as `l`: the exponent
/// must be a literal that fits the machine word, else the lowering fails
/// with `Unsupported`. The power has the segment and the domain of its base.
pub open spec fn lower_power(l: Lowered, exponent: Expression) -> Lowered {
    match l.result {
        Err(_) => l,
        Ok(a) => match exponent {
            Expression::Const(k) if k <= usize::MAX => with_roots(
                leaf(
                    l.nodes,
                    OperationView::Exp(a.root_idx, k as usize),
                    a.trace_segment,
                    a.domain,
                    None,
                ),
                l.roots,
            ),
            _ => with_roots(
                failed(l.nodes, SemanticErrorView::Unsupported("exponent"@)),
                l.roots,
            ),
        },
    }
}

/// Lowering of an expression.
///
/// - A literal is a constant node of the main segment that carries its
///   value.
/// - A name, a vector access and a matrix access are lowered as
///   [`lower_symbol_access`], [`lower_vector_access`] and
///   [`lower_matrix_access`] say.
/// - A random value is a node of the auxiliary segment.
/// - A trace cell is lowered as [`lower_indexed_trace_access`] or
///   [`lower_named_trace_access`] says, on every row.
/// - A sum, a difference and a product are lowered as [`lower_operands`]
///   says, the right operand on the graph that the left one has left.
/// - A power is lowered as [`lower_power`] says.
/// - The folding of a list fails with `Unsupported`.
///
/// The first error ends the lowering; the nodes inserted up to then stay.
pub open spec fn lower_expr(
    symbols: Seq<Symbol>,
    widths: Seq<u16>,
    nodes: Seq<OperationView>,
    roots: Map<VariableValueView, ExprDetails>,
    expr: Expression,
    domain: ConstraintDomain,
    context: ExprContext,
) -> Lowered
    decreases context.horizon, 1nat, expr,
{
    match expr {
        Expression::Const(value) => with_roots(
            leaf(
                nodes,
                OperationView::Constant(ConstantValueView::Inline(value)),
                DEFAULT_SEGMENT,
                domain,
                Some(value),
            ),
            roots,
        ),
        Expression::Elem(ident) => lower_symbol_access(
            symbols,
            widths,
            nodes,
            roots,
            ident@,
            domain,
            context,
        ),
        Expression::VectorAccess(access) => lower_vector_access(
            symbols,
            widths,
            nodes,
            roots,
            access,
            domain,
            context,
        ),
        Expression::MatrixAccess(access) => lower_matrix_access(
            symbols,
            widths,
            nodes,
            roots,
            access,
            domain,
            context,
        ),
        Expression::Rand(index) => with_roots(
            leaf(nodes, OperationView::RandomValue(index), AUX_SEGMENT, domain, None),
            roots,
        ),
        Expression::IndexedTraceAccess(access) => with_roots(
            lower_indexed_trace_access(widths, nodes, access),
            roots,
        ),
        Expression::NamedTraceAccess(access) => with_roots(
            lower_named_trace_access(symbols, nodes, access, ConstraintDomain::EveryRow),
            roots,
        ),
        Expression::Add(lhs, rhs) => {
            let l = lower_expr(symbols, widths, nodes, roots, *lhs, domain, context);
            let r = lower_expr(symbols, widths, l.nodes, l.roots, *rhs, domain, context);
            lower_operands(l, r, |a: NodeIndex, b: NodeIndex| OperationView::Add(a, b))
        },
        Expression::Sub(lhs, rhs) => {
            let l = lower_expr(symbols, widths, nodes, roots, *lhs, domain, context);
            let r = lower_expr(symbols, widths, l.nodes, l.roots, *rhs, domain, context);
            lower_operands(l, r, |a: NodeIndex, b: NodeIndex| OperationView::Sub(a, b))
        },
        Expression::Mul(lhs, rhs) => {
            let l = lower_expr(symbols, widths, nodes, roots, *lhs, domain, context);
            let r = lower_expr(symbols, widths, l.nodes, l.roots, *rhs, domain, context);
            lower_operands(l, r, |a: NodeIndex, b: NodeIndex| OperationView::Mul(a, b))
        },
        Expression::Exp(lhs, rhs) => lower_power(
            lower_expr(symbols, widths, nodes, roots, *lhs, domain, context),
            *rhs,
        ),
        Expression::ListFolding(_) => with_roots(
            failed(nodes, SemanticErrorView::Unsupported("list folding"@)),
            roots,
        ),
    }
}

/// Lowering of a name, by what the latest declaration of it that the
/// context can see declares it as.
///
/// - A scalar constant is a constant node that refers to it by name.
/// - A scalar variable of the integrity constraints is lowered as
///   [`lower_declaration`] says, its expression seeing the declarations
///   before the variable.
/// - A periodic column is a node with its index and the length of its
///   cycle.
/// - A group of trace columns is its first column in the current row.
/// - Any other name, declared or not, is lowered as [`lower_member`] says.
///
/// All but the trace column belong to the main segment; the domain is the
/// one given.
pub open spec fn lower_symbol_access(
    symbols: Seq<Symbol>,
    widths: Seq<u16>,
    nodes: Seq<OperationView>,
    roots: Map<VariableValueView, ExprDetails>,
    name: Seq<char>,
    domain: ConstraintDomain,
    context: ExprContext,
) -> Lowered
    decreases context.horizon, 0nat,
{
    match lookup(symbols, name, context.horizon as int) {
        None => with_roots(lower_member(symbols, nodes, name, domain, context, false), roots),
        Some(j) => match symbols[j].ty {
            IdentifierType::Constant(ConstantType::Scalar(_)) => with_roots(
                leaf(
                    nodes,
                    OperationView::Constant(ConstantValueView::Scalar(name)),
                    DEFAULT_SEGMENT,
                    domain,
                    None,
                ),
                roots,
            ),
            IdentifierType::IntegrityVariable(VariableType::Scalar(expr)) if 0 <= j
                < context.horizon => lower_declaration(
                symbols,
                widths,
                nodes,
                roots,
                j,
                VariableValueView::Scalar(name),
                expr,
                domain,
                ExprContext { horizon: j as usize, ..context },
            ),
            IdentifierType::PeriodicColumn(index, cycle_len) => with_roots(
                leaf(
                    nodes,
                    OperationView::PeriodicColumn(index, cycle_len),
                    DEFAULT_SEGMENT,
                    domain,
                    None,
                ),
                roots,
            ),
            IdentifierType::TraceColumns(c) => with_roots(
                leaf(
                    nodes,
                    OperationView::TraceElement(
                        IndexedTraceAccess {
                            trace_segment: c.trace_segment,
                            col_idx: c.offset,
                            row_offset: CURRENT_ROW,
                        },
                    ),
                    c.trace_segment,
                    domain,
                    None,
                ),
                roots,
            ),
            _ => with_roots(lower_member(symbols, nodes, name, domain, context, true), roots),
        },
    }
}

/// Lowering of an element of a vector, once [`resolve_vector`] has found
/// the declaration and accepted the index.
///
/// - An element of a constant vector is a constant node that refers to it
///   by name and index.
/// - An element of a vector variable of the integrity constraints is its
///   expression, lowered as [`lower_declaration`] says.
/// - An element of a list comprehension of the integrity constraints is
///   the body of the comprehension, lowered as [`lower_declaration`] says
///   with the comprehension and the element's position as context.
/// - An element of a group of trace columns is the column at that position
///   of the group, in the current row.
/// - An element of the public inputs fails with `Unsupported`, anything else
///   with `InvalidUsage`.
pub open spec fn lower_vector_access(
    symbols: Seq<Symbol>,
    widths: Seq<u16>,
    nodes: Seq<OperationView>,
    roots: Map<VariableValueView, ExprDetails>,
    access: VectorAccess,
    domain: ConstraintDomain,
    context: ExprContext,
) -> Lowered
    decreases context.horizon, 0nat,
{
    match resolve_vector(symbols, access.name@, access.idx, context.horizon as int) {
        Err(e) => with_roots(failed(nodes, e), roots),
        Ok(j) => match symbols[j].ty {
            IdentifierType::Constant(ConstantType::Vector(_)) => with_roots(
                leaf(
                    nodes,
                    OperationView::Constant(ConstantValueView::Vector(access.name@, access.idx)),
                    DEFAULT_SEGMENT,
                    domain,
                    None,
                ),
                roots,
            ),
            IdentifierType::IntegrityVariable(VariableType::Vector(elements)) if 0 <= j
                < context.horizon => lower_declaration(
                symbols,
                widths,
                nodes,
                roots,
                j,
                VariableValueView::Vector(access.name@, access.idx),
                elements@[access.idx as int],
                domain,
                ExprContext { horizon: j as usize, ..context },
            ),
            IdentifierType::IntegrityVariable(VariableType::ListComprehension(lc)) if 0 <= j
                < context.horizon => lower_declaration(
                symbols,
                widths,
                nodes,
                roots,
                j,
                VariableValueView::ListComprehension(access.name@, access.idx),
                *lc.expression,
                domain,
                ExprContext {
                    horizon: j as usize,
                    list_comprehension_context: Some(
                        ListComprehensionContext { variable: j as usize, index: access.idx },
                    ),
                },
            ),
            IdentifierType::TraceColumns(c) => with_roots(
                leaf(
                    nodes,
                    OperationView::TraceElement(
                        IndexedTraceAccess {
                            trace_segment: c.trace_segment,
                            col_idx: (c.offset + access.idx) as usize,
                            row_offset: CURRENT_ROW,
                        },
                    ),
                    c.trace_segment,
                    domain,
                    None,
                ),
                roots,
            ),
            IdentifierType::PublicInput(_) => with_roots(
                failed(nodes, SemanticErrorView::Unsupported(access.name@)),
                roots,
            ),
            _ => with_roots(failed(nodes, SemanticErrorView::InvalidUsage(access.name@)), roots),
        },
    }
}

/// Lowering of an element of a matrix, once [`resolve_matrix`] has found
/// the declaration and accepted the indices: an element of a constant
/// matrix is a constant node that refers to it by name and indices, an
/// element of a matrix variable of the integrity constraints is its
/// expression, lowered as [`lower_declaration`] says. Anything else fails
/// with `InvalidUsage`.
pub open spec fn lower_matrix_access(
    symbols: Seq<Symbol>,
    widths: Seq<u16>,
    nodes: Seq<OperationView>,
    roots: Map<VariableValueView, ExprDetails>,
    access: MatrixAccess,
    domain: ConstraintDomain,
    context: ExprContext,
) -> Lowered
    decreases context.horizon, 0nat,
{
    match resolve_matrix(
        symbols,
        access.name@,
        access.row_idx,
        access.col_idx,
        context.horizon as int,
    ) {
        Err(e) => with_roots(failed(nodes, e), roots),
        Ok(j) => match symbols[j].ty {
            IdentifierType::Constant(ConstantType::Matrix(_)) => with_roots(
                leaf(
                    nodes,
                    OperationView::Constant(
                        ConstantValueView::Matrix(access.name@, access.row_idx, access.col_idx),
                    ),
                    DEFAULT_SEGMENT,
                    domain,
                    None,
                ),
                roots,
            ),
            IdentifierType::IntegrityVariable(VariableType::Matrix(rows)) if 0 <= j
                < context.horizon => lower_declaration(
                symbols,
                widths,
                nodes,
                roots,
                j,
                VariableValueView::Matrix(access.name@, access.row_idx, access.col_idx),
                rows@[access.row_idx as int]@[access.col_idx as int],
                domain,
                ExprContext { horizon: j as usize, ..context },
            ),
            _ => with_roots(failed(nodes, SemanticErrorView::InvalidUsage(access.name@)), roots),
        },
    }
}

/// Lowering of a reference that the variable declared at `position`
/// answers. The variable roots go by the name of a variable, so they speak
/// of the declaration that is the latest of its name in the whole table:
/// where the declaration at `position` is that one, the reference is lowered
/// as [`lower_variable`] says. A declaration that a later one of the same
/// name hides has no root: its expression is lowered, and nothing is read
/// from the roots or stored in them under its name.
pub open spec fn lower_declaration(
    symbols: Seq<Symbol>,
    widths: Seq<u16>,
    nodes: Seq<OperationView>,
    roots: Map<VariableValueView, ExprDetails>,
    position: int,
    key: VariableValueView,
    expr: Expression,
    domain: ConstraintDomain,
    context: ExprContext,
) -> Lowered
    decreases context.horizon, 3nat,
{
    if lookup(symbols, key.name(), symbols.len() as int) == Some(position) {
        lower_variable(symbols, widths, nodes, roots, key, expr, domain, context)
    } else {
        lower_expr(symbols, widths, nodes, roots, expr, domain, context)
    }
}

/// Lowering of a reference to a variable: where a root is stored for a
/// reference of this form, that root, with nothing lowered; else the
/// variable's expression is lowered and its details are stored as the root.
pub open spec fn lower_variable(
    symbols: Seq<Symbol>,
    widths: Seq<u16>,
    nodes: Seq<OperationView>,
    roots: Map<VariableValueView, ExprDetails>,
    key: VariableValueView,
    expr: Expression,
    domain: ConstraintDomain,
    context: ExprContext,
) -> Lowered
    decreases context.horizon, 2nat,
{
    if roots.contains_key(key) {
        Lowered { nodes, roots, result: Ok(roots[key]) }
    } else {
        let l = lower_expr(symbols, widths, nodes, roots, expr, domain, context);
        match l.result {
            Err(_) => l,
            Ok(d) => Lowered { nodes: l.nodes, roots: l.roots.insert(key, d), result: Ok(d) },
        }
    }
}

/// Whether the graph `nodes`, the variable roots `roots` and the result `r`
/// are what `m` says.
pub open spec fn computes(
    nodes: Seq<OperationView>,
    roots: Map<VariableValueView, ExprDetails>,
    r: Result<ExprDetails, SemanticError>,
    m: Lowered,
) -> bool {
    nodes == m.nodes && roots == m.roots && result_view(r) == m.result
}

/// What every lowering keeps: the graph stays acyclic and without
/// duplicates, it only grows at its end, the variable roots describe nodes
/// of it, and so do the details returned.
pub open spec fn sound(
    old_nodes: Seq<OperationView>,
    nodes: Seq<OperationView>,
    roots: Map<VariableValueView, ExprDetails>,
    r: Result<ExprDetails, SemanticError>,
) -> bool {
    &&& graph_wf(nodes)
    &&& extends(nodes, old_nodes)
    &&& roots_valid(nodes, roots)
    &&& (r matches Ok(d) ==> details_valid(nodes, d))
}

/// The segment of a node does not change when nodes are added to the
/// graph.
pub proof fn lemma_segment_extends(old: Seq<OperationView>, new: Seq<OperationView>, i: int)
    requires
        extends(new, old),
        0 <= i < old.len(),
    ensures
        segment_of(new, i) == segment_of(old, i),
    decreases i,
{
    match old[i] {
        OperationView::Neg(a) | OperationView::Exp(a, _) => {
            if a.0 < i {
                lemma_segment_extends(old, new, a.0 as int);
            }
        },
        OperationView::Add(a, b) | OperationView::Sub(a, b) | OperationView::Mul(a, b) => {
            if a.0 < i {
                lemma_segment_extends(old, new, a.0 as int);
            }
            if b.0 < i {
                lemma_segment_extends(old, new, b.0 as int);
            }
        },
        _ => {},
    }
}

/// The segment of a node of a graph follows from its operation: that of a
/// trace cell is the cell's own, that of a random value is the auxiliary
/// segment, that of an operation is the highest among the segments of its
/// operands, and that of anything else is the main segment.
pub proof fn lemma_segment_rules(g: Seq<OperationView>, i: int)
    requires
        graph_wf(g),
        0 <= i < g.len(),
    ensures
        match g[i] {
            OperationView::Constant(_) => segment_of(g, i) == 0,
            OperationView::PeriodicColumn(_, _) => segment_of(g, i) == 0,
            OperationView::TraceElement(a) => segment_of(g, i) == a.trace_segment,
            OperationView::RandomValue(_) => segment_of(g, i) == 1,
            OperationView::Neg(a) => segment_of(g, i) == segment_of(g, a.0 as int),
            OperationView::Exp(a, _) => segment_of(g, i) == segment_of(g, a.0 as int),
            OperationView::Add(a, b) | OperationView::Sub(a, b) | OperationView::Mul(a, b) => {
                &&& segment_of(g, i) >= segment_of(g, a.0 as int)
                &&& segment_of(g, i) >= segment_of(g, b.0 as int)
                &&& (segment_of(g, i) == segment_of(g, a.0 as int) || segment_of(g, i)
                    == segment_of(g, b.0 as int))
            },
        },
{
    assert(operands_below(g[i], i));
}

/// Determinism: two runs of the lowering of one expression, on the same
/// table and with the same domain and context, that start from the same
/// graph and the same variable roots and end as [`AlgebraicGraph::insert_expr`]
/// ensures, end with the same graph, the same variable roots and the same
/// result, node for node and error for error.
pub proof fn lemma_lowering_deterministic(
    symbols: Seq<Symbol>,
    widths: Seq<u16>,
    nodes: Seq<OperationView>,
    roots: Map<VariableValueView, ExprDetails>,
    expr: Expression,
    domain: ConstraintDomain,
    context: ExprContext,
    nodes1: Seq<OperationView>,
    roots1: Map<VariableValueView, ExprDetails>,
    r1: Result<ExprDetails, SemanticError>,
    nodes2: Seq<OperationView>,
    roots2: Map<VariableValueView, ExprDetails>,
    r2: Result<ExprDetails, SemanticError>,
)
    requires
        computes(
            nodes1,
            roots1,
            r1,
            lower_expr(symbols, widths, nodes, roots, expr, domain, context),
        ),
        computes(
            nodes2,
            roots2,
            r2,
            lower_expr(symbols, widths, nodes, roots, expr, domain, context),
        ),
    ensures
        nodes1 == nodes2,
        roots1 == roots2,
        result_view(r1) == result_view(r2),
{
}

/// Details that describe a node of a graph describe it after nodes are
/// added.
pub proof fn lemma_details_extend(old: Seq<OperationView>, new: Seq<OperationView>, d: ExprDetails)
    requires
        extends(new, old),
        details_valid(old, d),
    ensures
        details_valid(new, d),
{
    lemma_segment_extends(old, new, d.root_idx.0 as int);
}

/// Variable roots that describe nodes of a graph describe them after nodes
/// are added.
pub proof fn lemma_roots_extend(
    old: Seq<OperationView>,
    new: Seq<OperationView>,
    roots: Map<VariableValueView, ExprDetails>,
)
    requires
        extends(new, old),
        roots_valid(old, roots),
    ensures
        roots_valid(new, roots),
{
    assert forall|k: VariableValueView| roots.contains_key(k) implies details_valid(
        new,
        #[trigger] roots[k],
    ) by {
        lemma_details_extend(old, new, roots[k]);
    }
}

/// The node that holds an operation after its insertion has the segment of
/// the operation.
pub proof fn lemma_inserted_segment(g: Seq<OperationView>, op: OperationView)
    requires
        graph_wf(g),
        operands_below(op, g.len() as int),
        g.len() <= usize::MAX,
    ensures
        segment_of(inserted(g, op).0, inserted(g, op).1.0 as int) == op_segment(
            g,
            op,
            g.len() as int,
        ),
{
    reveal(inserted);
    let (g2, i) = inserted(g, op);
    match position(g, op) {
        Some(k) => {
            assert(operands_below(g[k], k));
        },
        None => {
            assert(extends(g2, g));
            match op {
                OperationView::Neg(a) | OperationView::Exp(a, _) => {
                    lemma_segment_extends(g, g2, a.0 as int);
                },
                OperationView::Add(a, b) | OperationView::Sub(a, b) | OperationView::Mul(a, b) => {
                    lemma_segment_extends(g, g2, a.0 as int);
                    lemma_segment_extends(g, g2, b.0 as int);
                },
                _ => {},
            }
        },
    }
}

/// Returns the position of the first member named `name` among the members
/// of a list comprehension.
pub fn find_member(context: &Vec<(Identifier, Iterable)>, name: &str) -> (r: Option<usize>)
    ensures
        match r {
            Some(k) => binding(context@, name@, 0) == Some(k as int) && k < context@.len(),
            None => binding(context@, name@, 0) is None,
        },
{
    let key = name.to_owned();
    let mut k: usize = 0;
    while k < context.len()
        invariant
            k <= context.len(),
            key@ == name@,
            binding(context@, name@, 0) == binding(context@, name@, k as int),
        decreases context.len() - k,
    {
        if (context[k].0).0 == key {
            return Some(k);
        }
        k = k + 1;
    }
    None
}

impl AlgebraicGraph {
    /// Inserts the node of an expression and returns the details of the
    /// expression.
    fn insert_node(
        &mut self,
        op: Operation,
        trace_segment: u8,
        domain: ConstraintDomain,
        constant: Option<u64>,
    ) -> (d: ExprDetails)
        requires
            old(self).wf(),
            operands_below(op@, old(self)@.len() as int),
            trace_segment == op_segment(old(self)@, op@, old(self)@.len() as int),
        ensures
            final(self).wf(),
            extends(final(self)@, old(self)@),
            (final(self)@, Ok::<ExprDetails, SemanticErrorView>(d)) == leaf(
                old(self)@,
                op@,
                trace_segment,
                domain,
                constant,
            ),
            details_valid(final(self)@, d),
    {
        proof {
            self.lemma_len_bounded();
            lemma_inserted_segment(self@, op@);
        }
        let node_index = self.insert_op(op);
        ExprDetails::new(node_index, trace_segment, domain, constant)
    }

    /// Combines the graphs of the two sides of an equation into the graph
    /// of their difference, which the equation constrains to be zero, and
    /// returns the details of the difference. Fails with
    /// `IncompatibleConstraintDomains` where the domains of the two sides do
    /// not merge.
    pub fn merge_equal_exprs(&mut self, lhs: &ExprDetails, rhs: &ExprDetails) -> (r: Result<
        ExprDetails,
        SemanticError,
    >)
        requires
            old(self).wf(),
            lhs.root_idx.0 < old(self)@.len(),
            rhs.root_idx.0 < old(self)@.len(),
        ensures
            final(self).wf(),
            extends(final(self)@, old(self)@),
            (final(self)@, result_view(r)) == combined(
                old(self)@,
                *lhs,
                *rhs,
                OperationView::Sub(lhs.root_idx, rhs.root_idx),
            ),
            details_valid(old(self)@, *lhs) && details_valid(old(self)@, *rhs) ==> (r matches Ok(
                d,
            ) ==> details_valid(final(self)@, d)),
    {
        self.insert_bin_op(lhs, rhs, Operation::Sub(lhs.root_idx(), rhs.root_idx()))
    }

    /// Inserts an operation on two lowered operands and returns the details
    /// of the result: its segment is the higher of the two, its domain is
    /// the two domains merged. Fails with `IncompatibleConstraintDomains`
    /// where they do not merge; the node is inserted all the same.
    pub fn insert_bin_op(&mut self, lhs: &ExprDetails, rhs: &ExprDetails, op: Operation) -> (r:
        Result<ExprDetails, SemanticError>)
        requires
            old(self).wf(),
            operands_below(op@, old(self)@.len() as int),
        ensures
            final(self).wf(),
            extends(final(self)@, old(self)@),
            (final(self)@, result_view(r)) == combined(old(self)@, *lhs, *rhs, op@),
            op_segment(old(self)@, op@, old(self)@.len() as int) == (if lhs.trace_segment
                >= rhs.trace_segment {
                lhs.trace_segment
            } else {
                rhs.trace_segment
            }) ==> (r matches Ok(d) ==> details_valid(final(self)@, d)),
    {
        proof {
            self.lemma_len_bounded();
            lemma_inserted_segment(self@, op@);
        }
        let node_index = self.insert_op(op);
        let trace_segment = if lhs.trace_segment() >= rhs.trace_segment() {
            lhs.trace_segment()
        } else {
            rhs.trace_segment()
        };
        match lhs.domain().merge(&rhs.domain()) {
            Ok(domain) => Ok(ExprDetails::new(node_index, trace_segment, domain, None)),
            Err(e) => Err(e),
        }
    }

    /// Inserts a constant and returns the details of the expression that
    /// it is: it belongs to the main segment and has the domain given.
    pub fn insert_constant(&mut self, constant: ConstantValue, domain: ConstraintDomain) -> (r:
        Result<ExprDetails, SemanticError>)
        requires
            old(self).wf(),
        ensures
            final(self).wf(),
            extends(final(self)@, old(self)@),
            (final(self)@, result_view(r)) == leaf(
                old(self)@,
                OperationView::Constant(constant@),
                DEFAULT_SEGMENT,
                domain,
                None,
            ),
            r matches Ok(d) && details_valid(final(self)@, d),
    {
        Ok(self.insert_node(Operation::Constant(constant), DEFAULT_SEGMENT, domain, None))
    }

    /// Adds a trace cell given by position to the graph, as
    /// [`lower_indexed_trace_access`] says.
    pub fn insert_indexed_trace_access(
        &mut self,
        symbol_table: &SymbolTable,
        trace_access: &IndexedTraceAccess,
    ) -> (r: Result<ExprDetails, SemanticError>)
        requires
            old(self).wf(),
        ensures
            final(self).wf(),
            extends(final(self)@, old(self)@),
            (final(self)@, result_view(r)) == lower_indexed_trace_access(
                symbol_table.widths(),
                old(self)@,
                *trace_access,
            ),
            r matches Ok(d) ==> details_valid(final(self)@, d),
    {
        let segment_idx = trace_access.trace_segment() as usize;
        if segment_idx >= symbol_table.segment_widths().len() {
            return Err(SemanticError::IndexOutOfRange("trace segment".to_owned()));
        }
        if trace_access.col_idx() >= symbol_table.segment_widths()[segment_idx] as usize {
            return Err(SemanticError::IndexOutOfRange("trace column".to_owned()));
        }
        if trace_access.row_offset() > 1 {
            return Err(SemanticError::IndexOutOfRange("row offset".to_owned()));
        }
        let trace_segment = trace_access.trace_segment();
        Ok(
            self.insert_node(
                Operation::TraceElement(*trace_access),
                trace_segment,
                ConstraintDomain::EveryRow,
                None,
            ),
        )
    }

    /// Adds a trace cell given by the name of its group of columns to the
    /// graph, as [`lower_named_trace_access`] says, with the domain given.
    pub fn insert_named_trace_access(
        &mut self,
        symbol_table: &SymbolTable,
        trace_access: &NamedTraceAccess,
        domain: ConstraintDomain,
    ) -> (r: Result<ExprDetails, SemanticError>)
        requires
            old(self).wf(),
            symbol_table.wf(),
        ensures
            final(self).wf(),
            extends(final(self)@, old(self)@),
            (final(self)@, result_view(r)) == lower_named_trace_access(
                symbol_table.symbols(),
                old(self)@,
                *trace_access,
                domain,
            ),
            r matches Ok(d) ==> details_valid(final(self)@, d),
    {
        match symbol_table.find(trace_access.name(), symbol_table.num_symbols()) {
            None => Err(SemanticError::Undeclared(trace_access.name.0.clone())),
            Some(j) => match &symbol_table.symbol(j).ty {
                IdentifierType::TraceColumns(columns) => {
                    if trace_access.idx() >= columns.size() {
                        return Err(SemanticError::IndexOutOfRange(trace_access.name.0.clone()));
                    }
                    if trace_access.row_offset() > 1 {
                        return Err(SemanticError::IndexOutOfRange("row offset".to_owned()));
                    }
                    let trace_segment = columns.trace_segment();
                    let access = IndexedTraceAccess::new(
                        trace_segment,
                        columns.offset() + trace_access.idx(),
                        trace_access.row_offset(),
                    );
                    Ok(
                        self.insert_node(
                            Operation::TraceElement(access),
                            trace_segment,
                            domain,
                            None,
                        ),
                    )
                },
                _ => Err(SemanticError::InvalidUsage(trace_access.name.0.clone())),
            },
        }
    }

    /// Adds to the graph a name that no declaration gives a value to, as
    /// [`lower_member`] says.
    pub fn insert_member(
        &mut self,
        symbol_table: &SymbolTable,
        ident: &str,
        domain: ConstraintDomain,
        context: &ExprContext,
        declared: bool,
    ) -> (r: Result<ExprDetails, SemanticError>)
        requires
            old(self).wf(),
            symbol_table.wf(),
        ensures
            final(self).wf(),
            extends(final(self)@, old(self)@),
            (final(self)@, result_view(r)) == lower_member(
                symbol_table.symbols(),
                old(self)@,
                ident@,
                domain,
                *context,
                declared,
            ),
            r matches Ok(d) ==> details_valid(final(self)@, d),
    {
        let frame = match context.list_comprehension_context {
            Some(frame) => frame,
            None => {
                return Err(
                    if declared {
                        SemanticError::InvalidUsage(ident.to_owned())
                    } else {
                        SemanticError::Undeclared(ident.to_owned())
                    },
                );
            },
        };
        if frame.variable < symbol_table.num_symbols() {
            if let IdentifierType::IntegrityVariable(VariableType::ListComprehension(lc)) =
                &symbol_table.symbol(frame.variable).ty {
                if let Some(k) = find_member(&lc.context, ident) {
                    return match &lc.context[k].1 {
                        Iterable::Identifier(group) => {
                            match symbol_table.find(group.name(), frame.variable) {
                                None => Err(SemanticError::Undeclared(group.0.clone())),
                                Some(m) => match &symbol_table.symbol(m).ty {
                                    IdentifierType::TraceColumns(columns) => {
                                        if frame.index >= columns.size() {
                                            Err(SemanticError::IndexOutOfRange(group.0.clone()))
                                        } else {
                                            let trace_segment = columns.trace_segment();
                                            let access = IndexedTraceAccess::new(
                                                trace_segment,
                                                columns.offset() + frame.index,
                                                CURRENT_ROW,
                                            );
                                            Ok(
                                                self.insert_node(
                                                    Operation::TraceElement(access),
                                                    trace_segment,
                                                    domain,
                                                    None,
                                                ),
                                            )
                                        }
                                    },
                                    _ => Err(SemanticError::Unsupported(group.0.clone())),
                                },
                            }
                        },
                        _ => Err(SemanticError::Unsupported(ident.to_owned())),
                    };
                }
            }
        }
        Err(
            if declared {
                SemanticError::InvalidUsage(ident.to_owned())
            } else {
                SemanticError::Undeclared(ident.to_owned())
            },
        )
    }

    /// Adds the expression to the graph, as [`lower_expr`] says, and returns
    /// its details. Subexpressions that the graph holds already are not
    /// inserted again. The context is left as it was.
    pub fn insert_expr(
        &mut self,
        symbol_table: &SymbolTable,
        expr: &Expression,
        variable_roots: &mut VariableRoots,
        default_domain: ConstraintDomain,
        context: &mut ExprContext,
    ) -> (r: Result<ExprDetails, SemanticError>)
        requires
            old(self).wf(),
            symbol_table.wf(),
            roots_valid(old(self)@, old(variable_roots)@),
        ensures
            final(self).wf(),
            *final(context) == *old(context),
            computes(
                final(self)@,
                final(variable_roots)@,
                r,
                lower_expr(
                    symbol_table.symbols(),
                    symbol_table.widths(),
                    old(self)@,
                    old(variable_roots)@,
                    *expr,
                    default_domain,
                    *old(context),
                ),
            ),
            sound(old(self)@, final(self)@, final(variable_roots)@, r),
        decreases old(context).horizon, 1nat, expr, 1nat,
    {
        match expr {
            Expression::Const(value) => {
                let d = self.insert_node(
                    Operation::Constant(ConstantValue::Inline(*value)),
                    DEFAULT_SEGMENT,
                    default_domain,
                    Some(*value),
                );
                proof {
                    lemma_roots_extend(old(self)@, self@, variable_roots@);
                }
                Ok(d)
            },
            Expression::Elem(ident) => self.insert_symbol_access(
                symbol_table,
                ident.name(),
                variable_roots,
                default_domain,
                context,
            ),
            Expression::VectorAccess(vector_access) => self.insert_vector_access(
                symbol_table,
                vector_access,
                variable_roots,
                default_domain,
                context,
            ),
            Expression::MatrixAccess(matrix_access) => self.insert_matrix_access(
                symbol_table,
                matrix_access,
                variable_roots,
                default_domain,
                context,
            ),
            Expression::Rand(index) => {
                let d = self.insert_node(
                    Operation::RandomValue(*index),
                    AUX_SEGMENT,
                    default_domain,
                    None,
                );
                proof {
                    lemma_roots_extend(old(self)@, self@, variable_roots@);
                }
                Ok(d)
            },
            Expression::IndexedTraceAccess(column_access) => {
                let r = self.insert_indexed_trace_access(symbol_table, column_access);
                proof {
                    lemma_roots_extend(old(self)@, self@, variable_roots@);
                }
                r
            },
            Expression::NamedTraceAccess(trace_access) => {
                let r = self.insert_named_trace_access(
                    symbol_table,
                    trace_access,
                    ConstraintDomain::EveryRow,
                );
                proof {
                    lemma_roots_extend(old(self)@, self@, variable_roots@);
                }
                r
            },
            Expression::Add(lhs, rhs) | Expression::Sub(lhs, rhs) | Expression::Mul(lhs, rhs) => {
                self.insert_operation(
                    symbol_table,
                    expr,
                    lhs,
                    rhs,
                    variable_roots,
                    default_domain,
                    context,
                )
            },
            Expression::Exp(lhs, rhs) => {
                let lhs = match self.insert_expr(
                    symbol_table,
                    lhs,
                    variable_roots,
                    default_domain,
                    context,
                ) {
                    Ok(d) => d,
                    Err(e) => {
                        return Err(e);
                    },
                };
                let ghost mid = self@;
                if let Expression::Const(k) = &**rhs {
                    if *k <= usize::MAX as u64 {
                        let d = self.insert_node(
                            Operation::Exp(lhs.root_idx(), *k as usize),
                            lhs.trace_segment(),
                            lhs.domain(),
                            None,
                        );
                        proof {
                            lemma_roots_extend(mid, self@, variable_roots@);
                        }
                        return Ok(d);
                    }
                }
                Err(SemanticError::Unsupported("exponent".to_owned()))
            },
            Expression::ListFolding(_) => Err(
                SemanticError::Unsupported("list folding".to_owned()),
            ),
        }
    }

    /// Adds a sum, a difference or a product to the graph: the left operand
    /// first, then the right one, then the operation on their roots, as
    /// [`lower_operands`] says.
    fn insert_operation(
        &mut self,
        symbol_table: &SymbolTable,
        expr: &Expression,
        lhs: &Expression,
        rhs: &Expression,
        variable_roots: &mut VariableRoots,
        default_domain: ConstraintDomain,
        context: &mut ExprContext,
    ) -> (r: Result<ExprDetails, SemanticError>)
        requires
            match *expr {
                Expression::Add(l, r) | Expression::Sub(l, r) | Expression::Mul(l, r) => *l
                    == *lhs && *r == *rhs,
                _ => false,
            },
            old(self).wf(),
            symbol_table.wf(),
            roots_valid(old(self)@, old(variable_roots)@),
        ensures
            final(self).wf(),
            *final(context) == *old(context),
            computes(
                final(self)@,
                final(variable_roots)@,
                r,
                lower_expr(
                    symbol_table.symbols(),
                    symbol_table.widths(),
                    old(self)@,
                    old(variable_roots)@,
                    *expr,
                    default_domain,
                    *old(context),
                ),
            ),
            sound(old(self)@, final(self)@, final(variable_roots)@, r),
        decreases old(context).horizon, 1nat, expr, 0nat,
    {
        let lhs = match self.insert_expr(
            symbol_table,
            lhs,
            variable_roots,
            default_domain,
            context,
        ) {
            Ok(d) => d,
            Err(e) => {
                return Err(e);
            },
        };
        let ghost left = self@;
        let rhs = match self.insert_expr(
            symbol_table,
            rhs,
            variable_roots,
            default_domain,
            context,
        ) {
            Ok(d) => d,
            Err(e) => {
                return Err(e);
            },
        };
        let ghost right = self@;
        proof {
            lemma_details_extend(left, right, lhs);
        }
        let op = match expr {
            Expression::Add(_, _) => Operation::Add(lhs.root_idx(), rhs.root_idx()),
            Expression::Sub(_, _) => Operation::Sub(lhs.root_idx(), rhs.root_idx()),
            _ => Operation::Mul(lhs.root_idx(), rhs.root_idx()),
        };
        let r = self.insert_bin_op(&lhs, &rhs, op);
        proof {
            lemma_roots_extend(right, self@, variable_roots@);
        }
        r
    }

    /// Adds to the graph a reference that the variable declared at
    /// `position` answers, as [`lower_declaration`] says: through the
    /// variable roots where that declaration is the latest of its name,
    /// and past them where a later declaration hides it.
    pub fn insert_declaration(
        &mut self,
        symbol_table: &SymbolTable,
        variable_roots: &mut VariableRoots,
        domain: ConstraintDomain,
        position: usize,
        variable_value: VariableValue,
        variable_expr: &Expression,
        context: &mut ExprContext,
    ) -> (r: Result<ExprDetails, SemanticError>)
        requires
            old(self).wf(),
            symbol_table.wf(),
            roots_valid(old(self)@, old(variable_roots)@),
        ensures
            final(self).wf(),
            *final(context) == *old(context),
            computes(
                final(self)@,
                final(variable_roots)@,
                r,
                lower_declaration(
                    symbol_table.symbols(),
                    symbol_table.widths(),
                    old(self)@,
                    old(variable_roots)@,
                    position as int,
                    variable_value@,
                    *variable_expr,
                    domain,
                    *old(context),
                ),
            ),
            sound(old(self)@, final(self)@, final(variable_roots)@, r),
        decreases old(context).horizon, 3nat,
    {
        let latest = match symbol_table.find(variable_value.name(), symbol_table.num_symbols()) {
            Some(i) => i == position,
            None => false,
        };
        if latest {
            self.insert_variable(
                symbol_table,
                variable_roots,
                domain,
                variable_value,
                variable_expr,
                context,
            )
        } else {
            self.insert_expr(symbol_table, variable_expr, variable_roots, domain, context)
        }
    }

    /// Looks the reference to a variable up in the variable roots and
    /// returns the details stored there; where there are none, adds the
    /// variable's expression to the graph, stores its details as the root
    /// of the variable, and returns them. See [`lower_variable`].
    pub fn insert_variable(
        &mut self,
        symbol_table: &SymbolTable,
        variable_roots: &mut VariableRoots,
        domain: ConstraintDomain,
        variable_value: VariableValue,
        variable_expr: &Expression,
        context: &mut ExprContext,
    ) -> (r: Result<ExprDetails, SemanticError>)
        requires
            old(self).wf(),
            symbol_table.wf(),
            roots_valid(old(self)@, old(variable_roots)@),
        ensures
            final(self).wf(),
            *final(context) == *old(context),
            computes(
                final(self)@,
                final(variable_roots)@,
                r,
                lower_variable(
                    symbol_table.symbols(),
                    symbol_table.widths(),
                    old(self)@,
                    old(variable_roots)@,
                    variable_value@,
                    *variable_expr,
                    domain,
                    *old(context),
                ),
            ),
            sound(old(self)@, final(self)@, final(variable_roots)@, r),
        decreases old(context).horizon, 2nat,
    {
        match variable_roots.get(&variable_value) {
            Some(expr) => Ok(expr),
            None => {
                match self.insert_expr(
                    symbol_table,
                    variable_expr,
                    variable_roots,
                    domain,
                    context,
                ) {
                    Ok(expr) => {
                        variable_roots.insert(variable_value, expr);
                        Ok(expr)
                    },
                    Err(e) => Err(e),
                }
            },
        }
    }

    /// Adds a named constant, variable, periodic column or trace column to
    /// the graph, as [`lower_symbol_access`] says.
    pub fn insert_symbol_access(
        &mut self,
        symbol_table: &SymbolTable,
        ident: &str,
        variable_roots: &mut VariableRoots,
        domain: ConstraintDomain,
        context: &mut ExprContext,
    ) -> (r: Result<ExprDetails, SemanticError>)
        requires
            old(self).wf(),
            symbol_table.wf(),
            roots_valid(old(self)@, old(variable_roots)@),
        ensures
            final(self).wf(),
            *final(context) == *old(context),
            computes(
                final(self)@,
                final(variable_roots)@,
                r,
                lower_symbol_access(
                    symbol_table.symbols(),
                    symbol_table.widths(),
                    old(self)@,
                    old(variable_roots)@,
                    ident@,
                    domain,
                    *old(context),
                ),
            ),
            sound(old(self)@, final(self)@, final(variable_roots)@, r),
        decreases old(context).horizon, 0nat,
    {
        let found = symbol_table.find(ident, context.horizon);
        let r = match found {
            None => self.insert_member(symbol_table, ident, domain, context, false),
            Some(j) => match &symbol_table.symbol(j).ty {
                IdentifierType::Constant(ConstantType::Scalar(_)) => {
                    self.insert_constant(ConstantValue::Scalar(ident.to_owned()), domain)
                },
                IdentifierType::IntegrityVariable(VariableType::Scalar(variable_expr)) => {
                    let saved = *context;
                    context.horizon = j;
                    let r = self.insert_declaration(
                        symbol_table,
                        variable_roots,
                        domain,
                        j,
                        VariableValue::Scalar(ident.to_owned()),
                        variable_expr,
                        context,
                    );
                    *context = saved;
                    return r;
                },
                IdentifierType::PeriodicColumn(index, cycle_len) => Ok(
                    self.insert_node(
                        Operation::PeriodicColumn(*index, *cycle_len),
                        DEFAULT_SEGMENT,
                        domain,
                        None,
                    ),
                ),
                IdentifierType::TraceColumns(columns) => {
                    let trace_segment = columns.trace_segment();
                    let access = IndexedTraceAccess::new(
                        trace_segment,
                        columns.offset(),
                        CURRENT_ROW,
                    );
                    Ok(
                        self.insert_node(
                            Operation::TraceElement(access),
                            trace_segment,
                            domain,
                            None,
                        ),
                    )
                },
                _ => self.insert_member(symbol_table, ident, domain, context, true),
            },
        };
        proof {
            lemma_roots_extend(old(self)@, self@, variable_roots@);
        }
        r
    }

    /// Checks a vector access and adds the element to the graph, as
    /// [`lower_vector_access`] says.
    pub fn insert_vector_access(
        &mut self,
        symbol_table: &SymbolTable,
        vector_access: &VectorAccess,
        variable_roots: &mut VariableRoots,
        domain: ConstraintDomain,
        context: &mut ExprContext,
    ) -> (r: Result<ExprDetails, SemanticError>)
        requires
            old(self).wf(),
            symbol_table.wf(),
            roots_valid(old(self)@, old(variable_roots)@),
        ensures
            final(self).wf(),
            *final(context) == *old(context),
            computes(
                final(self)@,
                final(variable_roots)@,
                r,
                lower_vector_access(
                    symbol_table.symbols(),
                    symbol_table.widths(),
                    old(self)@,
                    old(variable_roots)@,
                    *vector_access,
                    domain,
                    *old(context),
                ),
            ),
            sound(old(self)@, final(self)@, final(variable_roots)@, r),
        decreases old(context).horizon, 0nat,
    {
        let j = match symbol_table.find_vector(vector_access, context.horizon) {
            Ok(j) => j,
            Err(e) => {
                return Err(e);
            },
        };
        let r = match &symbol_table.symbol(j).ty {
            IdentifierType::Constant(ConstantType::Vector(_)) => {
                self.insert_constant(ConstantValue::Vector(vector_access.clone()), domain)
            },
            IdentifierType::IntegrityVariable(VariableType::Vector(vector)) => {
                let saved = *context;
                context.horizon = j;
                let r = self.insert_declaration(
                    symbol_table,
                    variable_roots,
                    domain,
                    j,
                    VariableValue::Vector(vector_access.clone()),
                    &vector[vector_access.idx()],
                    context,
                );
                *context = saved;
                return r;
            },
            IdentifierType::IntegrityVariable(
                VariableType::ListComprehension(list_comprehension),
            ) => {
                let saved = *context;
                context.horizon = j;
                context.list_comprehension_context = Some(
                    ListComprehensionContext { variable: j, index: vector_access.idx() },
                );
                let r = self.insert_declaration(
                    symbol_table,
                    variable_roots,
                    domain,
                    j,
                    VariableValue::ListComprehension(vector_access.clone()),
                    list_comprehension.expression(),
                    context,
                );
                *context = saved;
                return r;
            },
            IdentifierType::TraceColumns(columns) => {
                let trace_segment = columns.trace_segment();
                let access = IndexedTraceAccess::new(
                    trace_segment,
                    columns.offset() + vector_access.idx(),
                    CURRENT_ROW,
                );
                Ok(self.insert_node(Operation::TraceElement(access), trace_segment, domain, None))
            },
            IdentifierType::PublicInput(_) => Err(
                SemanticError::Unsupported(vector_access.name.0.clone()),
            ),
            _ => Err(SemanticError::InvalidUsage(vector_access.name.0.clone())),
        };
        proof {
            lemma_roots_extend(old(self)@, self@, variable_roots@);
        }
        r
    }

    /// Checks a matrix access and adds the element to the graph, as
    /// [`lower_matrix_access`] says.
    pub fn insert_matrix_access(
        &mut self,
        symbol_table: &SymbolTable,
        matrix_access: &MatrixAccess,
        variable_roots: &mut VariableRoots,
        domain: ConstraintDomain,
        context: &mut ExprContext,
    ) -> (r: Result<ExprDetails, SemanticError>)
        requires
            old(self).wf(),
            symbol_table.wf(),
            roots_valid(old(self)@, old(variable_roots)@),
        ensures
            final(self).wf(),
            *final(context) == *old(context),
            computes(
                final(self)@,
                final(variable_roots)@,
                r,
                lower_matrix_access(
                    symbol_table.symbols(),
                    symbol_table.widths(),
                    old(self)@,
                    old(variable_roots)@,
                    *matrix_access,
                    domain,
                    *old(context),
                ),
            ),
            sound(old(self)@, final(self)@, final(variable_roots)@, r),
        decreases old(context).horizon, 0nat,
    {
        let j = match symbol_table.find_matrix(matrix_access, context.horizon) {
            Ok(j) => j,
            Err(e) => {
                return Err(e);
            },
        };
        let r = match &symbol_table.symbol(j).ty {
            IdentifierType::Constant(ConstantType::Matrix(_)) => {
                self.insert_constant(ConstantValue::Matrix(matrix_access.clone()), domain)
            },
            IdentifierType::IntegrityVariable(VariableType::Matrix(matrix)) => {
                let saved = *context;
                context.horizon = j;
                let r = self.insert_declaration(
                    symbol_table,
                    variable_roots,
                    domain,
                    j,
                    VariableValue::Matrix(matrix_access.clone()),
                    &matrix[matrix_access.row_idx()][matrix_access.col_idx()],
                    context,
                );
                *context = saved;
                return r;
            },
            _ => Err(SemanticError::InvalidUsage(matrix_access.name.0.clone())),
        };
        proof {
            lemma_roots_extend(old(self)@, self@, variable_roots@);
        }
        r
    }
}

} // verus!
