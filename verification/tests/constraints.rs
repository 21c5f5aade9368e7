use air_ir::ast::{
    ConstantType, Expression, Identifier, NamedTraceAccess, Range, TraceCols, VariableType,
};
use air_ir::boundary_constraints::{AccessType, Boundary, BoundaryConstraint, SymbolAccess};
use air_ir::constraints::{ConstraintRoot, Constraints};
use air_ir::degree::IntegrityConstraintDegree;
use air_ir::details::VariableRoots;
use air_ir::domain::ConstraintDomain;
use air_ir::error::SemanticError;
use air_ir::evaluator_function::IntegrityConstraint;
use air_ir::graph::{NodeIndex, Operation};
use air_ir::symbol_table::{IdentifierType, Scope, SymbolTable};
use std::collections::BTreeMap;

fn named(s: &str) -> Identifier {
    Identifier(s.to_string())
}

fn var(s: &str) -> Expression {
    Expression::Elem(named(s))
}

fn plus(l: Expression, r: Expression) -> Expression {
    Expression::Add(Box::new(l), Box::new(r))
}

fn times(l: Expression, r: Expression) -> Expression {
    Expression::Mul(Box::new(l), Box::new(r))
}

fn minus(l: Expression, r: Expression) -> Expression {
    Expression::Sub(Box::new(l), Box::new(r))
}

/// main: [a, b, c], aux: [x], constant K, periodic column p of cycle 8
fn declarations() -> SymbolTable {
    let mut table = SymbolTable::new();
    table
        .declare_trace_columns(
            0,
            &vec![
                TraceCols::new(named("a"), 1),
                TraceCols::new(named("b"), 1),
                TraceCols::new(named("c"), 1),
            ],
        )
        .unwrap();
    table.declare_trace_columns(1, &vec![TraceCols::new(named("x"), 2)]).unwrap();
    table
        .declare("K".to_string(), IdentifierType::Constant(ConstantType::Scalar(7)))
        .unwrap();
    table.declare("p".to_string(), IdentifierType::PeriodicColumn(0, 8)).unwrap();
    table
}

fn on(name: &str, access: AccessType, boundary: Boundary, value: Expression) -> BoundaryConstraint {
    BoundaryConstraint::new(SymbolAccess::new(named(name), access, 0), boundary, value, None)
}

#[test]
fn a_constraint_shares_equal_subexpressions() {
    let table = declarations();
    let mut constraints = Constraints::new();
    let mut roots = VariableRoots::new();
    let constraint = IntegrityConstraint::new(plus(var("a"), var("a")), Expression::Const(0));
    assert_eq!(constraints.insert_integrity_constraint(&table, &constraint, &mut roots), Ok(()));
    let graph = constraints.graph();
    assert_eq!(graph.num_nodes(), 4);
    let cells = (0..4)
        .filter(|i| matches!(graph.node(&NodeIndex(*i)).op(), Operation::TraceElement(_)))
        .count();
    let sums = (0..4)
        .filter(|i| matches!(graph.node(&NodeIndex(*i)).op(), Operation::Add(_, _)))
        .count();
    assert_eq!((cells, sums), (1, 1));
    assert_eq!(graph.node(&NodeIndex(1)).op(), &Operation::Add(NodeIndex(0), NodeIndex(0)));
    assert_eq!(
        constraints.integrity_constraints(0),
        &[ConstraintRoot::new(NodeIndex(3), ConstraintDomain::EveryRow)]
    );
    assert!(constraints.integrity_constraints(1).is_empty());
    assert!(constraints.boundary_constraints(0).is_empty());
}

#[test]
fn degree_of_a_constraint_on_a_product() {
    let table = declarations();
    let mut constraints = Constraints::new();
    let mut roots = VariableRoots::new();
    let product = times(times(times(var("a"), var("b")), var("c")), var("p"));
    let constraint = IntegrityConstraint::new(product, Expression::Const(0));
    constraints.insert_integrity_constraint(&table, &constraint, &mut roots).unwrap();
    let root = constraints.integrity_constraints(0)[0];
    let degree = constraints.graph().degree(root.node_index());
    assert_eq!(degree.base(), 3);
    let mut cycles = BTreeMap::new();
    cycles.insert(0, 8);
    assert_eq!(degree.cycles(), &cycles);
    assert_eq!(
        constraints.integrity_constraint_degrees(0),
        vec![IntegrityConstraintDegree::with_cycles(3, cycles)]
    );
    assert!(constraints.integrity_constraint_degrees(1).is_empty());
}

#[test]
fn boundary_domains_merge_or_clash() {
    // a.first = b + K: one root of the main segment on the first row
    let table = declarations();
    let mut constraints = Constraints::new();
    let mut roots = VariableRoots::new();
    let value = plus(
        Expression::NamedTraceAccess(NamedTraceAccess::new(named("b"), 0, 0)),
        var("K"),
    );
    let constraint = on("a", AccessType::Default, Boundary::First, value);
    assert_eq!(constraints.insert_boundary_constraint(&table, &constraint, &mut roots), Ok(()));
    assert_eq!(constraints.boundary_constraints(0).len(), 1);
    assert_eq!(constraints.boundary_constraints(0)[0].domain(), ConstraintDomain::FirstRow);
    assert!(constraints.boundary_constraints(1).is_empty());
    assert!(constraints.integrity_constraints(0).is_empty());

    // a.first = b.last + K
    let mut graph = air_ir::graph::AlgebraicGraph::new();
    let mut context = air_ir::details::ExprContext::new();
    let a_first = graph
        .insert_named_trace_access(
            &table,
            &NamedTraceAccess::new(named("a"), 0, 0),
            ConstraintDomain::FirstRow,
        )
        .unwrap();
    let b_last = graph
        .insert_named_trace_access(
            &table,
            &NamedTraceAccess::new(named("b"), 0, 0),
            ConstraintDomain::LastRow,
        )
        .unwrap();
    let k = graph
        .insert_expr(&table, &var("K"), &mut roots, ConstraintDomain::FirstRow, &mut context)
        .unwrap();
    assert_eq!(
        graph.insert_bin_op(&b_last, &k, Operation::Add(b_last.root_idx(), k.root_idx())),
        Err(SemanticError::IncompatibleConstraintDomains(
            ConstraintDomain::LastRow,
            ConstraintDomain::FirstRow
        ))
    );
    assert_eq!(
        graph.merge_equal_exprs(&a_first, &b_last),
        Err(SemanticError::IncompatibleConstraintDomains(
            ConstraintDomain::FirstRow,
            ConstraintDomain::LastRow
        ))
    );
}

#[test]
fn a_random_value_makes_a_constraint_auxiliary() {
    let table = declarations();
    let mut constraints = Constraints::new();
    let mut roots = VariableRoots::new();
    let next = Expression::NamedTraceAccess(NamedTraceAccess::new(named("a"), 0, 1));
    let constraint = IntegrityConstraint::new(
        minus(next, times(var("a"), Expression::Rand(0))),
        Expression::Const(0),
    );
    constraints.insert_integrity_constraint(&table, &constraint, &mut roots).unwrap();
    assert!(constraints.integrity_constraints(0).is_empty());
    assert_eq!(constraints.integrity_constraints(1).len(), 1);
    assert_eq!(
        constraints.integrity_constraints(1)[0],
        ConstraintRoot::new(NodeIndex(6), ConstraintDomain::EveryRow)
    );
}

#[test]
fn constraints_are_recorded_in_source_order() {
    let table = declarations();
    let mut constraints = Constraints::new();
    let mut roots = VariableRoots::new();
    let first = IntegrityConstraint::new(var("a"), var("b"));
    let second = IntegrityConstraint::new(var("x"), var("a"));
    let third = IntegrityConstraint::new(var("b"), var("c"));
    for constraint in [&first, &second, &third, &first] {
        constraints.insert_integrity_constraint(&table, constraint, &mut roots).unwrap();
    }
    let main: Vec<usize> =
        constraints.integrity_constraints(0).iter().map(|r| r.node_index().0).collect();
    let aux: Vec<usize> =
        constraints.integrity_constraints(1).iter().map(|r| r.node_index().0).collect();
    assert_eq!(main, vec![2, 6, 2]);
    assert_eq!(aux, vec![4]);
    assert_eq!(constraints.graph().num_nodes(), 7);
}

#[test]
fn a_failed_constraint_is_not_recorded() {
    let table = declarations();
    let mut constraints = Constraints::new();
    let mut roots = VariableRoots::new();
    let bad = IntegrityConstraint::new(var("a"), var("nothing"));
    assert_eq!(
        constraints.insert_integrity_constraint(&table, &bad, &mut roots),
        Err(SemanticError::Undeclared("nothing".to_string()))
    );
    assert!(constraints.integrity_constraints(0).is_empty());
    assert_eq!(constraints.graph().num_nodes(), 1);
    let bad = IntegrityConstraint::new(var("nothing"), var("a"));
    assert_eq!(
        constraints.insert_integrity_constraint(&table, &bad, &mut roots),
        Err(SemanticError::Undeclared("nothing".to_string()))
    );
    assert_eq!(constraints.graph().num_nodes(), 1);
}

#[test]
fn boundary_constraints_go_by_segment_and_boundary() {
    let table = declarations();
    let mut constraints = Constraints::new();
    let mut roots = VariableRoots::new();
    let first = on("a", AccessType::Default, Boundary::First, Expression::Const(1));
    let last = on("x", AccessType::Vector(1), Boundary::Last, var("K"));
    constraints.insert_boundary_constraint(&table, &first, &mut roots).unwrap();
    constraints.insert_boundary_constraint(&table, &last, &mut roots).unwrap();
    assert_eq!(
        constraints.boundary_constraints(0),
        &[ConstraintRoot::new(NodeIndex(2), ConstraintDomain::FirstRow)]
    );
    assert_eq!(
        constraints.boundary_constraints(1),
        &[ConstraintRoot::new(NodeIndex(5), ConstraintDomain::LastRow)]
    );
    assert_eq!(
        constraints.graph().node(&NodeIndex(3)).op(),
        &Operation::TraceElement(air_ir::ast::IndexedTraceAccess::new(1, 1, 0))
    );
    assert!(constraints.integrity_constraints(0).is_empty());
    assert!(constraints.integrity_constraints(1).is_empty());
}

#[test]
fn a_main_boundary_constraint_refers_to_nothing_auxiliary() {
    let table = declarations();
    let mut constraints = Constraints::new();
    let mut roots = VariableRoots::new();
    let random = on("a", AccessType::Default, Boundary::First, Expression::Rand(0));
    assert_eq!(
        constraints.insert_boundary_constraint(&table, &random, &mut roots),
        Err(SemanticError::CrossSegmentReference("a".to_string()))
    );
    let column = on("b", AccessType::Default, Boundary::Last, plus(var("K"), var("x")));
    assert_eq!(
        constraints.insert_boundary_constraint(&table, &column, &mut roots),
        Err(SemanticError::CrossSegmentReference("b".to_string()))
    );
    assert!(constraints.boundary_constraints(0).is_empty());
    // an auxiliary constraint may read the main segment and random values
    let aux = on(
        "x",
        AccessType::Default,
        Boundary::First,
        plus(Expression::Rand(0), var("K")),
    );
    assert_eq!(constraints.insert_boundary_constraint(&table, &aux, &mut roots), Ok(()));
    assert_eq!(constraints.boundary_constraints(1).len(), 1);
}

#[test]
fn boundary_constraints_are_on_trace_cells() {
    let table = declarations();
    let mut constraints = Constraints::new();
    let mut roots = VariableRoots::new();
    let one = Expression::Const(1);
    assert_eq!(
        constraints.insert_boundary_constraint(
            &table,
            &on("K", AccessType::Default, Boundary::First, one.clone()),
            &mut roots
        ),
        Err(SemanticError::InvalidUsage("K".to_string()))
    );
    assert_eq!(
        constraints.insert_boundary_constraint(
            &table,
            &on("nothing", AccessType::Default, Boundary::First, one.clone()),
            &mut roots
        ),
        Err(SemanticError::Undeclared("nothing".to_string()))
    );
    assert_eq!(
        constraints.insert_boundary_constraint(
            &table,
            &on("x", AccessType::Vector(2), Boundary::First, one.clone()),
            &mut roots
        ),
        Err(SemanticError::IndexOutOfRange("x".to_string()))
    );
    assert_eq!(
        constraints.insert_boundary_constraint(
            &table,
            &on("x", AccessType::Matrix(0, 0), Boundary::First, one.clone()),
            &mut roots
        ),
        Err(SemanticError::InvalidUsage("x".to_string()))
    );
    assert_eq!(
        constraints.insert_boundary_constraint(
            &table,
            &on("x", AccessType::Slice(Range::new(0, 1)), Boundary::First, one.clone()),
            &mut roots
        ),
        Err(SemanticError::InvalidUsage("x".to_string()))
    );
    let comprehension = BoundaryConstraint::new(
        SymbolAccess::new(named("x"), AccessType::Default, 0),
        Boundary::First,
        one,
        Some(vec![]),
    );
    assert_eq!(
        constraints.insert_boundary_constraint(&table, &comprehension, &mut roots),
        Err(SemanticError::Unsupported("x".to_string()))
    );
    assert_eq!(constraints.graph().num_nodes(), 0);
}

#[test]
fn insert_constraint_files_the_root_by_its_domain() {
    let table = declarations();
    let mut constraints = Constraints::new();
    let mut roots = VariableRoots::new();
    constraints
        .insert_integrity_constraint(&table, &IntegrityConstraint::new(var("a"), var("b")), &mut roots)
        .unwrap();
    constraints.insert_constraint(NodeIndex(0), 2, ConstraintDomain::LastRow);
    constraints.insert_constraint(NodeIndex(1), 0, ConstraintDomain::EveryFrame(4));
    assert!(constraints.boundary_constraints(0).is_empty());
    assert!(constraints.boundary_constraints(1).is_empty());
    assert_eq!(
        constraints.boundary_constraints(2),
        &[ConstraintRoot::new(NodeIndex(0), ConstraintDomain::LastRow)]
    );
    assert_eq!(
        constraints.integrity_constraints(0),
        &[
            ConstraintRoot::new(NodeIndex(2), ConstraintDomain::EveryRow),
            ConstraintRoot::new(NodeIndex(1), ConstraintDomain::EveryFrame(4))
        ]
    );
}

#[test]
fn variables_are_shared_between_constraints_of_a_section() {
    let mut table = declarations();
    table
        .declare_variable(
            Scope::Integrity,
            "v".to_string(),
            VariableType::Scalar(times(var("a"), var("b"))),
        )
        .unwrap();
    let mut constraints = Constraints::new();
    let mut roots = VariableRoots::new();
    constraints
        .insert_integrity_constraint(&table, &IntegrityConstraint::new(var("v"), var("c")), &mut roots)
        .unwrap();
    let nodes = constraints.graph().num_nodes();
    constraints
        .insert_integrity_constraint(&table, &IntegrityConstraint::new(var("c"), var("v")), &mut roots)
        .unwrap();
    assert_eq!(constraints.graph().num_nodes(), nodes + 1);
    assert_eq!(constraints.integrity_constraints(0).len(), 2);
}
