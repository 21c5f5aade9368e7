use air_ir::ast::{
    ConstantType, Expression, Identifier, IndexedTraceAccess, Iterable, ListComprehension,
    ListFoldingType, MatrixAccess, NamedTraceAccess, Range, TraceCols, VariableType, VectorAccess,
};
use air_ir::details::{
    ExprContext, ExprDetails, ListComprehensionContext, VariableRoots, VariableValue,
};
use air_ir::domain::ConstraintDomain;
use air_ir::error::SemanticError;
use air_ir::graph::{AlgebraicGraph, ConstantValue, NodeIndex, Operation};
use air_ir::symbol_table::{IdentifierType, Scope, SymbolTable};

fn id(s: &str) -> Identifier {
    Identifier(s.to_string())
}

fn elem(s: &str) -> Expression {
    Expression::Elem(id(s))
}

fn add(l: Expression, r: Expression) -> Expression {
    Expression::Add(Box::new(l), Box::new(r))
}

fn sub(l: Expression, r: Expression) -> Expression {
    Expression::Sub(Box::new(l), Box::new(r))
}

fn mul(l: Expression, r: Expression) -> Expression {
    Expression::Mul(Box::new(l), Box::new(r))
}

fn exp(l: Expression, r: Expression) -> Expression {
    Expression::Exp(Box::new(l), Box::new(r))
}

fn trace(segment: u8, column: usize, row: usize) -> Operation {
    Operation::TraceElement(IndexedTraceAccess::new(segment, column, row))
}

/// main: [a, b, c[3]], aux: [x, y[2]], constants K, V, M, periodic column p,
/// public inputs.
fn program() -> SymbolTable {
    let mut table = SymbolTable::new();
    table
        .declare_trace_columns(
            0,
            &vec![
                TraceCols::new(id("a"), 1),
                TraceCols::new(id("b"), 1),
                TraceCols::new(id("c"), 3),
            ],
        )
        .unwrap();
    table
        .declare_trace_columns(1, &vec![TraceCols::new(id("x"), 1), TraceCols::new(id("y"), 2)])
        .unwrap();
    table
        .declare("K".to_string(), IdentifierType::Constant(ConstantType::Scalar(7)))
        .unwrap();
    table
        .declare("V".to_string(), IdentifierType::Constant(ConstantType::Vector(vec![1, 2])))
        .unwrap();
    table
        .declare(
            "M".to_string(),
            IdentifierType::Constant(ConstantType::Matrix(vec![vec![1, 2], vec![3, 4]])),
        )
        .unwrap();
    table.declare("p".to_string(), IdentifierType::PeriodicColumn(2, 8)).unwrap();
    table.declare("inputs".to_string(), IdentifierType::PublicInput(4)).unwrap();
    table
}

fn lower(
    graph: &mut AlgebraicGraph,
    table: &SymbolTable,
    roots: &mut VariableRoots,
    expr: &Expression,
) -> Result<ExprDetails, SemanticError> {
    let mut context = ExprContext::new();
    let r = graph.insert_expr(table, expr, roots, ConstraintDomain::EveryRow, &mut context);
    assert_eq!(context, ExprContext::new());
    r
}

fn lower_alone(table: &SymbolTable, expr: &Expression) -> (AlgebraicGraph, Result<ExprDetails, SemanticError>) {
    let mut graph = AlgebraicGraph::new();
    let mut roots = VariableRoots::new();
    let r = lower(&mut graph, table, &mut roots, expr);
    (graph, r)
}

fn count(graph: &AlgebraicGraph, op: &Operation) -> usize {
    (0..graph.num_nodes()).filter(|i| graph.node(&NodeIndex(*i)).op() == op).count()
}

#[test]
fn a_literal_is_an_inline_constant_that_carries_its_value() {
    let table = program();
    let mut graph = AlgebraicGraph::new();
    let mut roots = VariableRoots::new();
    let mut context = ExprContext::new();
    let d = graph
        .insert_expr(
            &table,
            &Expression::Const(5),
            &mut roots,
            ConstraintDomain::FirstRow,
            &mut context,
        )
        .unwrap();
    assert_eq!(d, ExprDetails::new(NodeIndex(0), 0, ConstraintDomain::FirstRow, Some(5)));
    assert_eq!(
        graph.node(&NodeIndex(0)).op(),
        &Operation::Constant(ConstantValue::Inline(5))
    );
    assert_eq!(d.root_idx(), NodeIndex(0));
    assert_eq!(d.trace_segment(), 0);
    assert_eq!(d.domain(), ConstraintDomain::FirstRow);
    assert_eq!(d.constant(), Some(5));
}

#[test]
fn names_are_lowered_by_their_declared_type() {
    let table = program();
    let (graph, d) = lower_alone(&table, &elem("K"));
    assert_eq!(d, Ok(ExprDetails::new(NodeIndex(0), 0, ConstraintDomain::EveryRow, None)));
    assert_eq!(
        graph.node(&NodeIndex(0)).op(),
        &Operation::Constant(ConstantValue::Scalar("K".to_string()))
    );

    let (graph, d) = lower_alone(&table, &elem("p"));
    assert_eq!(d, Ok(ExprDetails::new(NodeIndex(0), 0, ConstraintDomain::EveryRow, None)));
    assert_eq!(graph.node(&NodeIndex(0)).op(), &Operation::PeriodicColumn(2, 8));

    let (graph, d) = lower_alone(&table, &elem("b"));
    assert_eq!(d, Ok(ExprDetails::new(NodeIndex(0), 0, ConstraintDomain::EveryRow, None)));
    assert_eq!(graph.node(&NodeIndex(0)).op(), &trace(0, 1, 0));

    let (graph, d) = lower_alone(&table, &elem("y"));
    assert_eq!(d, Ok(ExprDetails::new(NodeIndex(0), 1, ConstraintDomain::EveryRow, None)));
    assert_eq!(graph.node(&NodeIndex(0)).op(), &trace(1, 1, 0));
}

#[test]
fn names_used_against_their_type_are_rejected() {
    let table = program();
    assert_eq!(
        lower_alone(&table, &elem("V")).1,
        Err(SemanticError::InvalidUsage("V".to_string()))
    );
    assert_eq!(
        lower_alone(&table, &elem("M")).1,
        Err(SemanticError::InvalidUsage("M".to_string()))
    );
    assert_eq!(
        lower_alone(&table, &elem("inputs")).1,
        Err(SemanticError::InvalidUsage("inputs".to_string()))
    );
    let (graph, r) = lower_alone(&table, &elem("nothing"));
    assert_eq!(r, Err(SemanticError::Undeclared("nothing".to_string())));
    assert_eq!(graph.num_nodes(), 0);
}

#[test]
fn vector_accesses_are_lowered_by_their_declared_type() {
    let table = program();
    let access = |name: &str, idx: usize| Expression::VectorAccess(VectorAccess::new(id(name), idx));

    let (graph, d) = lower_alone(&table, &access("V", 1));
    assert_eq!(d, Ok(ExprDetails::new(NodeIndex(0), 0, ConstraintDomain::EveryRow, None)));
    assert_eq!(
        graph.node(&NodeIndex(0)).op(),
        &Operation::Constant(ConstantValue::Vector(VectorAccess::new(id("V"), 1)))
    );

    let (graph, d) = lower_alone(&table, &access("c", 2));
    assert_eq!(d, Ok(ExprDetails::new(NodeIndex(0), 0, ConstraintDomain::EveryRow, None)));
    assert_eq!(graph.node(&NodeIndex(0)).op(), &trace(0, 4, 0));

    let (graph, d) = lower_alone(&table, &access("y", 1));
    assert_eq!(d, Ok(ExprDetails::new(NodeIndex(0), 1, ConstraintDomain::EveryRow, None)));
    assert_eq!(graph.node(&NodeIndex(0)).op(), &trace(1, 2, 0));

    assert_eq!(
        lower_alone(&table, &access("c", 3)).1,
        Err(SemanticError::IndexOutOfRange("c".to_string()))
    );
    assert_eq!(
        lower_alone(&table, &access("V", 2)).1,
        Err(SemanticError::IndexOutOfRange("V".to_string()))
    );
    assert_eq!(
        lower_alone(&table, &access("inputs", 0)).1,
        Err(SemanticError::Unsupported("inputs".to_string()))
    );
    assert_eq!(
        lower_alone(&table, &access("K", 0)).1,
        Err(SemanticError::InvalidUsage("K".to_string()))
    );
    assert_eq!(
        lower_alone(&table, &access("nothing", 0)).1,
        Err(SemanticError::Undeclared("nothing".to_string()))
    );
}

#[test]
fn matrix_accesses_are_lowered_by_their_declared_type() {
    let mut table = program();
    table
        .declare_variable(
            Scope::Integrity,
            "m".to_string(),
            VariableType::Matrix(vec![vec![elem("a"), elem("b")], vec![elem("K"), elem("p")]]),
        )
        .unwrap();
    let access = |name: &str, row: usize, col: usize| {
        Expression::MatrixAccess(MatrixAccess::new(id(name), row, col))
    };

    let (graph, d) = lower_alone(&table, &access("M", 1, 0));
    assert_eq!(d, Ok(ExprDetails::new(NodeIndex(0), 0, ConstraintDomain::EveryRow, None)));
    assert_eq!(
        graph.node(&NodeIndex(0)).op(),
        &Operation::Constant(ConstantValue::Matrix(MatrixAccess::new(id("M"), 1, 0)))
    );

    let (graph, d) = lower_alone(&table, &access("m", 1, 1));
    assert_eq!(d, Ok(ExprDetails::new(NodeIndex(0), 0, ConstraintDomain::EveryRow, None)));
    assert_eq!(graph.node(&NodeIndex(0)).op(), &Operation::PeriodicColumn(2, 8));

    assert_eq!(
        lower_alone(&table, &access("M", 2, 0)).1,
        Err(SemanticError::IndexOutOfRange("M".to_string()))
    );
    assert_eq!(
        lower_alone(&table, &access("m", 0, 2)).1,
        Err(SemanticError::IndexOutOfRange("m".to_string()))
    );
    assert_eq!(
        lower_alone(&table, &access("V", 0, 0)).1,
        Err(SemanticError::InvalidUsage("V".to_string()))
    );
    assert_eq!(
        lower_alone(&table, &access("nothing", 0, 0)).1,
        Err(SemanticError::Undeclared("nothing".to_string()))
    );
}

#[test]
fn a_random_value_belongs_to_the_auxiliary_segment() {
    let table = program();
    let (graph, d) = lower_alone(&table, &Expression::Rand(3));
    assert_eq!(d, Ok(ExprDetails::new(NodeIndex(0), 1, ConstraintDomain::EveryRow, None)));
    assert_eq!(graph.node(&NodeIndex(0)).op(), &Operation::RandomValue(3));
}

#[test]
fn random_value_promotes_the_segment_of_a_constraint() {
    // x' - x * $rand[0], with x a column of the main segment
    let table = program();
    let next = Expression::NamedTraceAccess(NamedTraceAccess::new(id("a"), 0, 1));
    let expr = sub(next, mul(elem("a"), Expression::Rand(0)));
    let (graph, d) = lower_alone(&table, &expr);
    let d = d.unwrap();
    assert_eq!(d.trace_segment(), 1);
    assert_eq!(d.domain(), ConstraintDomain::EveryRow);
    assert_eq!(graph.num_nodes(), 5);
    assert_eq!(graph.node(&NodeIndex(0)).op(), &trace(0, 0, 1));
    assert_eq!(graph.node(&NodeIndex(1)).op(), &trace(0, 0, 0));
    assert_eq!(graph.node(&NodeIndex(2)).op(), &Operation::RandomValue(0));
    assert_eq!(graph.node(&NodeIndex(3)).op(), &Operation::Mul(NodeIndex(1), NodeIndex(2)));
    assert_eq!(graph.node(&NodeIndex(4)).op(), &Operation::Sub(NodeIndex(0), NodeIndex(3)));
    assert_eq!(d.root_idx(), NodeIndex(4));
}

#[test]
fn indexed_trace_access_is_checked_against_the_widths() {
    let table = program();
    let access = |s: u8, c: usize, r: usize| Expression::IndexedTraceAccess(IndexedTraceAccess::new(s, c, r));

    let (graph, d) = lower_alone(&table, &access(0, 4, 1));
    assert_eq!(d, Ok(ExprDetails::new(NodeIndex(0), 0, ConstraintDomain::EveryRow, None)));
    assert_eq!(graph.node(&NodeIndex(0)).op(), &trace(0, 4, 1));

    let (_, d) = lower_alone(&table, &access(1, 2, 0));
    assert_eq!(d, Ok(ExprDetails::new(NodeIndex(0), 1, ConstraintDomain::EveryRow, None)));

    assert_eq!(
        lower_alone(&table, &access(0, 5, 0)).1,
        Err(SemanticError::IndexOutOfRange("trace column".to_string()))
    );
    assert_eq!(
        lower_alone(&table, &access(1, 3, 0)).1,
        Err(SemanticError::IndexOutOfRange("trace column".to_string()))
    );
    assert_eq!(
        lower_alone(&table, &access(2, 0, 0)).1,
        Err(SemanticError::IndexOutOfRange("trace segment".to_string()))
    );
    assert_eq!(
        lower_alone(&table, &access(0, 0, 2)).1,
        Err(SemanticError::IndexOutOfRange("row offset".to_string()))
    );
}

#[test]
fn named_trace_access_becomes_an_indexed_one() {
    let table = program();
    let mut graph = AlgebraicGraph::new();
    let d = graph
        .insert_named_trace_access(
            &table,
            &NamedTraceAccess::new(id("c"), 2, 1),
            ConstraintDomain::LastRow,
        )
        .unwrap();
    assert_eq!(d, ExprDetails::new(NodeIndex(0), 0, ConstraintDomain::LastRow, None));
    assert_eq!(graph.node(&NodeIndex(0)).op(), &trace(0, 4, 1));

    let d = graph
        .insert_named_trace_access(
            &table,
            &NamedTraceAccess::new(id("y"), 0, 0),
            ConstraintDomain::EveryRow,
        )
        .unwrap();
    assert_eq!(d, ExprDetails::new(NodeIndex(1), 1, ConstraintDomain::EveryRow, None));
    assert_eq!(graph.node(&NodeIndex(1)).op(), &trace(1, 1, 0));

    assert_eq!(
        graph.insert_named_trace_access(
            &table,
            &NamedTraceAccess::new(id("c"), 3, 0),
            ConstraintDomain::EveryRow
        ),
        Err(SemanticError::IndexOutOfRange("c".to_string()))
    );
    assert_eq!(
        graph.insert_named_trace_access(
            &table,
            &NamedTraceAccess::new(id("c"), 0, 2),
            ConstraintDomain::EveryRow
        ),
        Err(SemanticError::IndexOutOfRange("row offset".to_string()))
    );
    assert_eq!(
        graph.insert_named_trace_access(
            &table,
            &NamedTraceAccess::new(id("K"), 0, 0),
            ConstraintDomain::EveryRow
        ),
        Err(SemanticError::InvalidUsage("K".to_string()))
    );
    assert_eq!(
        graph.insert_named_trace_access(
            &table,
            &NamedTraceAccess::new(id("nothing"), 0, 0),
            ConstraintDomain::EveryRow
        ),
        Err(SemanticError::Undeclared("nothing".to_string()))
    );
    assert_eq!(graph.num_nodes(), 2);
}

#[test]
fn deduplication() {
    // a + a: one trace element, one sum of it with itself
    let table = program();
    let (graph, d) = lower_alone(&table, &add(elem("a"), elem("a")));
    assert_eq!(d, Ok(ExprDetails::new(NodeIndex(1), 0, ConstraintDomain::EveryRow, None)));
    assert_eq!(graph.num_nodes(), 2);
    assert_eq!(count(&graph, &trace(0, 0, 0)), 1);
    assert_eq!(count(&graph, &Operation::Add(NodeIndex(0), NodeIndex(0))), 1);
}

#[test]
fn no_constant_folding_and_no_reordering() {
    let table = program();
    let mut graph = AlgebraicGraph::new();
    let mut roots = VariableRoots::new();
    let zero_times_a = lower(&mut graph, &table, &mut roots, &mul(Expression::Const(0), elem("a")))
        .unwrap();
    assert_eq!(
        graph.node(&zero_times_a.root_idx()).op(),
        &Operation::Mul(NodeIndex(0), NodeIndex(1))
    );
    let ab = lower(&mut graph, &table, &mut roots, &add(elem("a"), elem("b"))).unwrap();
    let ba = lower(&mut graph, &table, &mut roots, &add(elem("b"), elem("a"))).unwrap();
    assert_ne!(ab.root_idx(), ba.root_idx());
    let again = lower(&mut graph, &table, &mut roots, &add(elem("a"), elem("b"))).unwrap();
    assert_eq!(again, ab);
    assert_eq!(graph.num_nodes(), 6);
}

#[test]
fn the_segment_of_an_operation_is_the_highest_of_its_operands() {
    let table = program();
    assert_eq!(lower_alone(&table, &add(elem("a"), elem("b"))).1.unwrap().trace_segment(), 0);
    assert_eq!(lower_alone(&table, &add(elem("a"), elem("x"))).1.unwrap().trace_segment(), 1);
    assert_eq!(lower_alone(&table, &mul(elem("x"), elem("a"))).1.unwrap().trace_segment(), 1);
    assert_eq!(lower_alone(&table, &sub(elem("K"), elem("p"))).1.unwrap().trace_segment(), 0);
    assert_eq!(
        lower_alone(&table, &exp(elem("x"), Expression::Const(2))).1.unwrap().trace_segment(),
        1
    );
    assert_eq!(
        lower_alone(&table, &mul(add(elem("a"), Expression::Rand(1)), elem("b")))
            .1
            .unwrap()
            .trace_segment(),
        1
    );
}

#[test]
fn a_power_takes_a_literal_exponent() {
    let table = program();
    let (graph, d) = lower_alone(&table, &exp(elem("y"), Expression::Const(3)));
    assert_eq!(d, Ok(ExprDetails::new(NodeIndex(1), 1, ConstraintDomain::EveryRow, None)));
    assert_eq!(graph.node(&NodeIndex(1)).op(), &Operation::Exp(NodeIndex(0), 3));

    let (graph, d) = lower_alone(&table, &exp(elem("a"), elem("K")));
    assert_eq!(d, Err(SemanticError::Unsupported("exponent".to_string())));
    assert_eq!(graph.num_nodes(), 1);

    let (_, d) = lower_alone(&table, &exp(elem("a"), add(Expression::Const(1), Expression::Const(1))));
    assert_eq!(d, Err(SemanticError::Unsupported("exponent".to_string())));
}

#[test]
fn list_folding_is_not_supported() {
    let table = program();
    let comprehension =
        ListComprehension::new(elem("x"), vec![(id("x"), Iterable::Identifier(id("c")))]);
    let (graph, d) = lower_alone(
        &table,
        &Expression::ListFolding(ListFoldingType::Sum(comprehension.clone())),
    );
    assert_eq!(d, Err(SemanticError::Unsupported("list folding".to_string())));
    assert_eq!(graph.num_nodes(), 0);
    let (_, d) = lower_alone(&table, &Expression::ListFolding(ListFoldingType::Prod(comprehension)));
    assert_eq!(d, Err(SemanticError::Unsupported("list folding".to_string())));
}

#[test]
fn the_first_error_ends_the_lowering() {
    let table = program();
    let (graph, d) = lower_alone(&table, &add(elem("a"), add(elem("nothing"), elem("b"))));
    assert_eq!(d, Err(SemanticError::Undeclared("nothing".to_string())));
    assert_eq!(graph.num_nodes(), 1);
    let (graph, d) = lower_alone(&table, &add(elem("nothing"), elem("other")));
    assert_eq!(d, Err(SemanticError::Undeclared("nothing".to_string())));
    assert_eq!(graph.num_nodes(), 0);
}

#[test]
fn domains_of_operands_are_merged() {
    let table = program();
    let mut graph = AlgebraicGraph::new();
    let first = graph
        .insert_named_trace_access(
            &table,
            &NamedTraceAccess::new(id("a"), 0, 0),
            ConstraintDomain::FirstRow,
        )
        .unwrap();
    let last = graph
        .insert_named_trace_access(
            &table,
            &NamedTraceAccess::new(id("b"), 0, 0),
            ConstraintDomain::LastRow,
        )
        .unwrap();
    let every = graph.insert_constant(ConstantValue::Inline(1), ConstraintDomain::EveryRow).unwrap();
    let sum = graph
        .insert_bin_op(&first, &every, Operation::Add(first.root_idx(), every.root_idx()))
        .unwrap();
    assert_eq!(sum, ExprDetails::new(NodeIndex(3), 0, ConstraintDomain::FirstRow, None));
    let before = graph.num_nodes();
    assert_eq!(
        graph.insert_bin_op(&first, &last, Operation::Mul(first.root_idx(), last.root_idx())),
        Err(SemanticError::IncompatibleConstraintDomains(
            ConstraintDomain::FirstRow,
            ConstraintDomain::LastRow
        ))
    );
    assert_eq!(graph.num_nodes(), before + 1);
    assert_eq!(
        graph.merge_equal_exprs(&last, &sum),
        Err(SemanticError::IncompatibleConstraintDomains(
            ConstraintDomain::LastRow,
            ConstraintDomain::FirstRow
        ))
    );
}

#[test]
fn merge_equal_exprs_is_the_difference() {
    let table = program();
    let mut graph = AlgebraicGraph::new();
    let mut roots = VariableRoots::new();
    let lhs = lower(&mut graph, &table, &mut roots, &elem("x")).unwrap();
    let rhs = lower(&mut graph, &table, &mut roots, &elem("a")).unwrap();
    let d = graph.merge_equal_exprs(&lhs, &rhs).unwrap();
    assert_eq!(d, ExprDetails::new(NodeIndex(2), 1, ConstraintDomain::EveryRow, None));
    assert_eq!(graph.node(&NodeIndex(2)).op(), &Operation::Sub(NodeIndex(0), NodeIndex(1)));
    let again = graph.merge_equal_exprs(&lhs, &rhs).unwrap();
    assert_eq!(again, d);
    assert_eq!(graph.num_nodes(), 3);
}

#[test]
fn variable_memoisation() {
    // let v = a * a + b, referred to three times in v * v + v
    let mut table = program();
    table
        .declare_variable(
            Scope::Integrity,
            "v".to_string(),
            VariableType::Scalar(add(mul(elem("a"), elem("a")), elem("b"))),
        )
        .unwrap();
    let mut graph = AlgebraicGraph::new();
    let mut roots = VariableRoots::new();
    let d = lower(&mut graph, &table, &mut roots, &add(mul(elem("v"), elem("v")), elem("v")))
        .unwrap();
    // a, a * a, b, a * a + b, v * v, v * v + v
    assert_eq!(graph.num_nodes(), 6);
    assert_eq!(count(&graph, &Operation::Mul(NodeIndex(0), NodeIndex(0))), 1);
    assert_eq!(count(&graph, &Operation::Add(NodeIndex(1), NodeIndex(2))), 1);
    assert_eq!(graph.node(&NodeIndex(4)).op(), &Operation::Mul(NodeIndex(3), NodeIndex(3)));
    assert_eq!(graph.node(&NodeIndex(5)).op(), &Operation::Add(NodeIndex(4), NodeIndex(3)));
    assert_eq!(d.root_idx(), NodeIndex(5));
    assert_eq!(
        roots.get(&VariableValue::Scalar("v".to_string())),
        Some(ExprDetails::new(NodeIndex(3), 0, ConstraintDomain::EveryRow, None))
    );
    assert_eq!(roots.get(&VariableValue::Scalar("w".to_string())), None);
}

#[test]
fn memoisation_is_by_the_form_of_the_reference() {
    let mut table = program();
    table
        .declare_variable(
            Scope::Integrity,
            "v".to_string(),
            VariableType::Vector(vec![elem("a"), elem("b")]),
        )
        .unwrap();
    table
        .declare_variable(Scope::Integrity, "w".to_string(), VariableType::Scalar(elem("a")))
        .unwrap();
    let mut graph = AlgebraicGraph::new();
    let mut roots = VariableRoots::new();
    let v0 = Expression::VectorAccess(VectorAccess::new(id("v"), 0));
    let first = lower(&mut graph, &table, &mut roots, &v0).unwrap();
    let second = lower(&mut graph, &table, &mut roots, &v0).unwrap();
    let other = lower(&mut graph, &table, &mut roots, &elem("w")).unwrap();
    assert_eq!(first, second);
    assert_eq!(first.root_idx(), other.root_idx());
    assert_eq!(graph.num_nodes(), 1);
    assert!(roots.get(&VariableValue::Vector(VectorAccess::new(id("v"), 0))).is_some());
    assert!(roots.get(&VariableValue::Vector(VectorAccess::new(id("v"), 1))).is_none());
    assert!(roots.get(&VariableValue::Scalar("w".to_string())).is_some());
    assert!(roots.get(&VariableValue::Scalar("v".to_string())).is_none());
    assert!(roots.get(&VariableValue::ListComprehension(VectorAccess::new(id("v"), 0))).is_none());
}

#[test]
fn a_stored_root_is_returned_as_it_is() {
    let mut table = program();
    table
        .declare_variable(Scope::Integrity, "v".to_string(), VariableType::Scalar(elem("a")))
        .unwrap();
    let mut graph = AlgebraicGraph::new();
    let mut roots = VariableRoots::new();
    let mut context = ExprContext::new();
    let first = graph
        .insert_expr(&table, &elem("v"), &mut roots, ConstraintDomain::FirstRow, &mut context)
        .unwrap();
    let second = graph
        .insert_expr(&table, &elem("v"), &mut roots, ConstraintDomain::EveryRow, &mut context)
        .unwrap();
    assert_eq!(first.domain(), ConstraintDomain::FirstRow);
    assert_eq!(second, first);
    roots.clear();
    let third = graph
        .insert_expr(&table, &elem("v"), &mut roots, ConstraintDomain::EveryRow, &mut context)
        .unwrap();
    assert_eq!(third.domain(), ConstraintDomain::EveryRow);
    assert_eq!(third.root_idx(), first.root_idx());
}

#[test]
fn a_variable_sees_the_declarations_before_it() {
    let mut table = program();
    table
        .declare_variable(Scope::Integrity, "u".to_string(), VariableType::Scalar(elem("w")))
        .unwrap();
    table
        .declare_variable(Scope::Integrity, "w".to_string(), VariableType::Scalar(elem("a")))
        .unwrap();
    table
        .declare_variable(
            Scope::Integrity,
            "w".to_string(),
            VariableType::Scalar(add(elem("w"), elem("b"))),
        )
        .unwrap();
    // the later w is the earlier one plus b
    let (graph, d) = lower_alone(&table, &elem("w"));
    assert_eq!(d.unwrap().root_idx(), NodeIndex(2));
    assert_eq!(graph.node(&NodeIndex(2)).op(), &Operation::Add(NodeIndex(0), NodeIndex(1)));
    // u was declared before any w
    assert_eq!(
        lower_alone(&table, &elem("u")).1,
        Err(SemanticError::Undeclared("w".to_string()))
    );
}

#[test]
fn list_comprehension_over_trace_group() {
    // let v = [gi for gi in c]; v[0] + v[1] + v[2]
    let mut table = program();
    table
        .declare_variable(
            Scope::Integrity,
            "v".to_string(),
            VariableType::ListComprehension(ListComprehension::new(
                elem("gi"),
                vec![(id("gi"), Iterable::Identifier(id("c")))],
            )),
        )
        .unwrap();
    let v = |i: usize| Expression::VectorAccess(VectorAccess::new(id("v"), i));
    let mut graph = AlgebraicGraph::new();
    let mut roots = VariableRoots::new();
    let d = lower(&mut graph, &table, &mut roots, &add(add(v(0), v(1)), v(2))).unwrap();
    assert_eq!(graph.num_nodes(), 5);
    assert_eq!(graph.node(&NodeIndex(0)).op(), &trace(0, 2, 0));
    assert_eq!(graph.node(&NodeIndex(1)).op(), &trace(0, 3, 0));
    assert_eq!(graph.node(&NodeIndex(2)).op(), &Operation::Add(NodeIndex(0), NodeIndex(1)));
    assert_eq!(graph.node(&NodeIndex(3)).op(), &trace(0, 4, 0));
    assert_eq!(graph.node(&NodeIndex(4)).op(), &Operation::Add(NodeIndex(2), NodeIndex(3)));
    assert_eq!(d, ExprDetails::new(NodeIndex(4), 0, ConstraintDomain::EveryRow, None));
    assert!(roots
        .get(&VariableValue::ListComprehension(VectorAccess::new(id("v"), 1)))
        .is_some());
    assert_eq!(
        lower(&mut graph, &table, &mut roots, &v(3)),
        Err(SemanticError::IndexOutOfRange("c".to_string()))
    );
}

#[test]
fn the_body_of_a_comprehension_is_an_expression() {
    // let v = [gi * gi + K for gi in y]
    let mut table = program();
    table
        .declare_variable(
            Scope::Integrity,
            "v".to_string(),
            VariableType::ListComprehension(ListComprehension::new(
                add(mul(elem("gi"), elem("gi")), elem("K")),
                vec![(id("gi"), Iterable::Identifier(id("y")))],
            )),
        )
        .unwrap();
    let (graph, d) = lower_alone(&table, &Expression::VectorAccess(VectorAccess::new(id("v"), 1)));
    assert_eq!(d, Ok(ExprDetails::new(NodeIndex(3), 1, ConstraintDomain::EveryRow, None)));
    assert_eq!(graph.node(&NodeIndex(0)).op(), &trace(1, 2, 0));
    assert_eq!(graph.node(&NodeIndex(1)).op(), &Operation::Mul(NodeIndex(0), NodeIndex(0)));
    assert_eq!(
        graph.node(&NodeIndex(2)).op(),
        &Operation::Constant(ConstantValue::Scalar("K".to_string()))
    );
    assert_eq!(graph.node(&NodeIndex(3)).op(), &Operation::Add(NodeIndex(1), NodeIndex(2)));
}

#[test]
fn other_iterables_are_not_supported() {
    let mut table = program();
    let declare = |table: &mut SymbolTable, name: &str, member: &str, iterable: Iterable| {
        table
            .declare_variable(
                Scope::Integrity,
                name.to_string(),
                VariableType::ListComprehension(ListComprehension::new(
                    elem(member),
                    vec![(id(member), iterable)],
                )),
            )
            .unwrap();
    };
    declare(&mut table, "r", "i", Iterable::Range(Range::new(0, 3)));
    declare(&mut table, "s", "i", Iterable::Slice(id("c"), Range::new(0, 2)));
    declare(&mut table, "k", "i", Iterable::Identifier(id("V")));
    declare(&mut table, "u", "i", Iterable::Identifier(id("nothing")));
    declare(&mut table, "n", "i", Iterable::Identifier(id("c")));
    let at = |name: &str| Expression::VectorAccess(VectorAccess::new(id(name), 0));
    assert_eq!(
        lower_alone(&table, &at("r")).1,
        Err(SemanticError::Unsupported("i".to_string()))
    );
    assert_eq!(
        lower_alone(&table, &at("s")).1,
        Err(SemanticError::Unsupported("i".to_string()))
    );
    assert_eq!(
        lower_alone(&table, &at("k")).1,
        Err(SemanticError::Unsupported("V".to_string()))
    );
    assert_eq!(
        lower_alone(&table, &at("u")).1,
        Err(SemanticError::Undeclared("nothing".to_string()))
    );
    assert!(lower_alone(&table, &at("n")).1.is_ok());
}

#[test]
fn a_member_is_known_only_in_its_comprehension() {
    let mut table = program();
    table
        .declare_variable(
            Scope::Integrity,
            "v".to_string(),
            VariableType::ListComprehension(ListComprehension::new(
                add(elem("gi"), elem("other")),
                vec![(id("gi"), Iterable::Identifier(id("c")))],
            )),
        )
        .unwrap();
    assert_eq!(
        lower_alone(&table, &elem("gi")).1,
        Err(SemanticError::Undeclared("gi".to_string()))
    );
    let (graph, d) = lower_alone(&table, &Expression::VectorAccess(VectorAccess::new(id("v"), 0)));
    assert_eq!(d, Err(SemanticError::Undeclared("other".to_string())));
    assert_eq!(graph.num_nodes(), 1);

    let mut graph = AlgebraicGraph::new();
    let context = ExprContext {
        horizon: usize::MAX,
        list_comprehension_context: Some(ListComprehensionContext { variable: 10, index: 1 }),
    };
    let d = graph
        .insert_member(&table, "gi", ConstraintDomain::EveryRow, &context, false)
        .unwrap();
    assert_eq!(graph.node(&d.root_idx()).op(), &trace(0, 3, 0));
    assert_eq!(
        graph.insert_member(&table, "V", ConstraintDomain::EveryRow, &context, true),
        Err(SemanticError::InvalidUsage("V".to_string()))
    );
    let elsewhere = ExprContext {
        horizon: usize::MAX,
        list_comprehension_context: Some(ListComprehensionContext { variable: 0, index: 1 }),
    };
    assert_eq!(
        graph.insert_member(&table, "gi", ConstraintDomain::EveryRow, &elsewhere, false),
        Err(SemanticError::Undeclared("gi".to_string()))
    );
}

#[test]
fn variables_of_the_boundary_constraints_are_not_lowered() {
    let mut table = program();
    table
        .declare_variable(Scope::Boundary, "v".to_string(), VariableType::Scalar(elem("a")))
        .unwrap();
    table
        .declare_variable(
            Scope::Boundary,
            "w".to_string(),
            VariableType::Vector(vec![elem("a")]),
        )
        .unwrap();
    assert_eq!(
        lower_alone(&table, &elem("v")).1,
        Err(SemanticError::InvalidUsage("v".to_string()))
    );
    assert_eq!(
        lower_alone(&table, &Expression::VectorAccess(VectorAccess::new(id("w"), 0))).1,
        Err(SemanticError::InvalidUsage("w".to_string()))
    );
}

#[test]
fn lowering_twice_gives_the_same_graph() {
    let mut table = program();
    table
        .declare_variable(
            Scope::Integrity,
            "v".to_string(),
            VariableType::Scalar(mul(elem("a"), elem("x"))),
        )
        .unwrap();
    let exprs = vec![
        add(elem("v"), exp(elem("p"), Expression::Const(2))),
        sub(mul(elem("v"), Expression::Rand(1)), elem("K")),
        Expression::VectorAccess(VectorAccess::new(id("c"), 1)),
    ];
    let run = || {
        let mut graph = AlgebraicGraph::new();
        let mut roots = VariableRoots::new();
        let results: Vec<_> =
            exprs.iter().map(|e| lower(&mut graph, &table, &mut roots, e)).collect();
        (format!("{:?}", graph), results)
    };
    assert_eq!(run(), run());
}

#[test]
fn find_member_takes_the_first_of_a_name() {
    let context = vec![
        (id("x"), Iterable::Identifier(id("a"))),
        (id("y"), Iterable::Range(Range::new(0, 2))),
        (id("x"), Iterable::Identifier(id("b"))),
    ];
    assert_eq!(air_ir::lowering::find_member(&context, "x"), Some(0));
    assert_eq!(air_ir::lowering::find_member(&context, "y"), Some(1));
    assert_eq!(air_ir::lowering::find_member(&context, "z"), None);
}

fn hiding_program() -> SymbolTable {
    // let v = 1; let w = v; let v = 2
    let mut table = program();
    table
        .declare_variable(
            Scope::Integrity,
            "v".to_string(),
            VariableType::Scalar(Expression::Const(1)),
        )
        .unwrap();
    table
        .declare_variable(Scope::Integrity, "w".to_string(), VariableType::Scalar(elem("v")))
        .unwrap();
    table
        .declare_variable(
            Scope::Integrity,
            "v".to_string(),
            VariableType::Scalar(Expression::Const(2)),
        )
        .unwrap();
    table
}

#[test]
fn a_hidden_variable_reached_through_another_keeps_its_own_value() {
    let table = hiding_program();
    let mut graph = AlgebraicGraph::new();
    let mut roots = VariableRoots::new();
    let d = lower(&mut graph, &table, &mut roots, &sub(elem("w"), elem("v"))).unwrap();
    assert_eq!(graph.num_nodes(), 3);
    assert_eq!(graph.node(&NodeIndex(0)).op(), &Operation::Constant(ConstantValue::Inline(1)));
    assert_eq!(graph.node(&NodeIndex(1)).op(), &Operation::Constant(ConstantValue::Inline(2)));
    assert_eq!(graph.node(&d.root_idx()).op(), &Operation::Sub(NodeIndex(0), NodeIndex(1)));
    assert_eq!(
        roots.get(&VariableValue::Scalar("v".to_string())).map(|d| d.root_idx()),
        Some(NodeIndex(1))
    );
    assert_eq!(
        roots.get(&VariableValue::Scalar("w".to_string())).map(|d| d.root_idx()),
        Some(NodeIndex(0))
    );
}

#[test]
fn a_visible_variable_lowered_first_does_not_answer_for_the_hidden_one() {
    let table = hiding_program();
    let mut graph = AlgebraicGraph::new();
    let mut roots = VariableRoots::new();
    let d = lower(&mut graph, &table, &mut roots, &sub(elem("v"), elem("w"))).unwrap();
    assert_eq!(graph.num_nodes(), 3);
    assert_eq!(graph.node(&NodeIndex(0)).op(), &Operation::Constant(ConstantValue::Inline(2)));
    assert_eq!(graph.node(&NodeIndex(1)).op(), &Operation::Constant(ConstantValue::Inline(1)));
    assert_eq!(graph.node(&d.root_idx()).op(), &Operation::Sub(NodeIndex(0), NodeIndex(1)));
    assert_eq!(
        roots.get(&VariableValue::Scalar("v".to_string())).map(|d| d.root_idx()),
        Some(NodeIndex(0))
    );
}

#[test]
fn hidden_vectors_and_matrices_keep_their_own_elements() {
    let mut table = program();
    let vector = |value: u64| VariableType::Vector(vec![Expression::Const(value)]);
    let matrix = |value: u64| VariableType::Matrix(vec![vec![Expression::Const(value)]]);
    let v0 = || Expression::VectorAccess(VectorAccess::new(id("v"), 0));
    let m00 = || Expression::MatrixAccess(MatrixAccess::new(id("m"), 0, 0));
    table.declare_variable(Scope::Integrity, "v".to_string(), vector(1)).unwrap();
    table.declare_variable(Scope::Integrity, "m".to_string(), matrix(3)).unwrap();
    table
        .declare_variable(
            Scope::Integrity,
            "w".to_string(),
            VariableType::Scalar(add(v0(), m00())),
        )
        .unwrap();
    table.declare_variable(Scope::Integrity, "v".to_string(), vector(2)).unwrap();
    table.declare_variable(Scope::Integrity, "m".to_string(), matrix(4)).unwrap();
    let mut graph = AlgebraicGraph::new();
    let mut roots = VariableRoots::new();
    let expr = add(add(elem("w"), v0()), m00());
    lower(&mut graph, &table, &mut roots, &expr).unwrap();
    // 1, 3, 1 + 3, 2, (1 + 3) + 2, 4, ((1 + 3) + 2) + 4
    assert_eq!(graph.num_nodes(), 7);
    assert_eq!(graph.node(&NodeIndex(0)).op(), &Operation::Constant(ConstantValue::Inline(1)));
    assert_eq!(graph.node(&NodeIndex(1)).op(), &Operation::Constant(ConstantValue::Inline(3)));
    assert_eq!(graph.node(&NodeIndex(3)).op(), &Operation::Constant(ConstantValue::Inline(2)));
    assert_eq!(graph.node(&NodeIndex(5)).op(), &Operation::Constant(ConstantValue::Inline(4)));
    assert_eq!(
        roots.get(&VariableValue::Vector(VectorAccess::new(id("v"), 0))).map(|d| d.root_idx()),
        Some(NodeIndex(3))
    );
    assert_eq!(
        roots
            .get(&VariableValue::Matrix(MatrixAccess::new(id("m"), 0, 0)))
            .map(|d| d.root_idx()),
        Some(NodeIndex(5))
    );
}
