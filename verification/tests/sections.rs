use air_ir::ast::{Expression, Identifier, TraceCols, VariableBinding, VariableType};
use air_ir::boundary_constraints::{
    AccessType, Boundary, BoundaryConstraint, BoundaryStmt, SymbolAccess,
};
use air_ir::constraints::{ConstraintRoot, Constraints};
use air_ir::details::{VariableRoots, VariableValue};
use air_ir::domain::ConstraintDomain;
use air_ir::error::SemanticError;
use air_ir::evaluator_function::{IntegrityConstraint, IntegrityStmt};
use air_ir::graph::{NodeIndex, Operation};
use air_ir::symbol_table::{Scope, SymbolTable};

fn nm(s: &str) -> Identifier {
    Identifier(s.to_string())
}

fn of(s: &str) -> Expression {
    Expression::Elem(nm(s))
}

fn product(l: Expression, r: Expression) -> Expression {
    Expression::Mul(Box::new(l), Box::new(r))
}

fn sum(l: Expression, r: Expression) -> Expression {
    Expression::Add(Box::new(l), Box::new(r))
}

fn bind(name: &str, value: Expression) -> IntegrityStmt {
    IntegrityStmt::VariableBinding(VariableBinding::new(nm(name), VariableType::Scalar(value)))
}

fn enforce(lhs: Expression, rhs: Expression) -> IntegrityStmt {
    IntegrityStmt::Constraint(IntegrityConstraint::new(lhs, rhs))
}

/// main: [a, b], aux: [x]
fn columns() -> SymbolTable {
    let mut table = SymbolTable::new();
    table
        .declare_trace_columns(0, &vec![TraceCols::new(nm("a"), 1), TraceCols::new(nm("b"), 1)])
        .unwrap();
    table.declare_trace_columns(1, &vec![TraceCols::new(nm("x"), 1)]).unwrap();
    table
}

#[test]
fn a_section_declares_its_variables_and_drops_them() {
    let mut table = columns();
    let mut constraints = Constraints::new();
    let stmts = vec![
        bind("v", product(of("a"), of("a"))),
        enforce(sum(of("v"), of("b")), of("v")),
        bind("w", sum(of("v"), of("x"))),
        enforce(of("w"), Expression::Const(0)),
    ];
    assert_eq!(constraints.insert_integrity_stmts(&mut table, stmts), Ok(()));
    assert_eq!(table.num_symbols(), 3);
    assert_eq!(table.get_type("v"), Err(SemanticError::Undeclared("v".to_string())));
    assert_eq!(table.get_type("w"), Err(SemanticError::Undeclared("w".to_string())));
    // a, a * a, b, a * a + b, (a * a + b) - a * a, x, a * a + x, 0, (a * a + x) - 0
    assert_eq!(constraints.graph().num_nodes(), 9);
    assert_eq!(
        constraints.integrity_constraints(0),
        &[ConstraintRoot::new(NodeIndex(4), ConstraintDomain::EveryRow)]
    );
    assert_eq!(
        constraints.integrity_constraints(1),
        &[ConstraintRoot::new(NodeIndex(8), ConstraintDomain::EveryRow)]
    );
    assert_eq!(
        constraints.graph().node(&NodeIndex(4)).op(),
        &Operation::Sub(NodeIndex(3), NodeIndex(1))
    );
}

#[test]
fn a_failed_section_drops_its_variables_too() {
    let mut table = columns();
    let mut constraints = Constraints::new();
    let stmts = vec![
        bind("v", of("a")),
        enforce(of("v"), of("b")),
        enforce(of("nothing"), of("b")),
        enforce(of("x"), of("b")),
    ];
    assert_eq!(
        constraints.insert_integrity_stmts(&mut table, stmts),
        Err(SemanticError::Undeclared("nothing".to_string()))
    );
    assert_eq!(table.num_symbols(), 3);
    assert_eq!(constraints.integrity_constraints(0).len(), 1);
    assert!(constraints.integrity_constraints(1).is_empty());
    assert_eq!(constraints.graph().num_nodes(), 3);
}

#[test]
fn a_variable_may_not_take_a_declared_name() {
    let mut table = columns();
    let mut constraints = Constraints::new();
    assert_eq!(
        constraints.insert_integrity_stmts(&mut table, vec![bind("a", Expression::Const(1))]),
        Err(SemanticError::DuplicateIdentifier("a".to_string()))
    );
    assert_eq!(table.num_symbols(), 3);
}

#[test]
fn a_hidden_variable_leaves_no_root_behind() {
    let mut table = columns();
    let mut constraints = Constraints::new();
    let stmts = vec![
        bind("v", of("a")),
        enforce(of("v"), Expression::Const(0)),
        bind("v", of("b")),
        enforce(of("v"), Expression::Const(0)),
    ];
    assert_eq!(constraints.insert_integrity_stmts(&mut table, stmts), Ok(()));
    let roots: Vec<usize> =
        constraints.integrity_constraints(0).iter().map(|r| r.node_index().0).collect();
    // a, 0, a - 0, b, b - 0
    assert_eq!(roots, vec![2, 4]);
    assert_eq!(
        constraints.graph().node(&NodeIndex(4)).op(),
        &Operation::Sub(NodeIndex(3), NodeIndex(1))
    );
}

#[test]
fn declaring_a_section_variable_keeps_or_forgets_the_roots() {
    let mut table = columns();
    let mut constraints = Constraints::new();
    let mut roots = VariableRoots::new();
    constraints
        .insert_integrity_stmt(&mut table, bind("v", of("a")), &mut roots)
        .unwrap();
    constraints
        .insert_integrity_stmt(&mut table, enforce(of("v"), of("b")), &mut roots)
        .unwrap();
    assert!(roots.get(&VariableValue::Scalar("v".to_string())).is_some());
    constraints
        .insert_integrity_stmt(&mut table, bind("w", of("a")), &mut roots)
        .unwrap();
    assert!(roots.get(&VariableValue::Scalar("v".to_string())).is_some());
    constraints
        .declare_section_variable(
            &mut table,
            Scope::Integrity,
            VariableBinding::new(nm("v"), VariableType::Scalar(of("b"))),
            &mut roots,
        )
        .unwrap();
    assert!(roots.get(&VariableValue::Scalar("v".to_string())).is_none());
    assert_eq!(table.num_symbols(), 6);
}

#[test]
fn the_boundary_section_is_taken_in_order() {
    let mut table = columns();
    let mut constraints = Constraints::new();
    let on = |name: &str, boundary: Boundary, value: Expression| {
        BoundaryStmt::Constraint(BoundaryConstraint::new(
            SymbolAccess::new(nm(name), AccessType::Default, 0),
            boundary,
            value,
            None,
        ))
    };
    let stmts = vec![
        BoundaryStmt::VariableBinding(VariableBinding::new(
            nm("v"),
            VariableType::Scalar(Expression::Const(1)),
        )),
        on("a", Boundary::First, Expression::Const(1)),
        on("x", Boundary::Last, Expression::Rand(0)),
        on("b", Boundary::Last, Expression::Const(1)),
    ];
    assert_eq!(constraints.insert_boundary_stmts(&mut table, stmts), Ok(()));
    assert_eq!(table.num_symbols(), 3);
    let domains: Vec<ConstraintDomain> =
        constraints.boundary_constraints(0).iter().map(|r| r.domain()).collect();
    assert_eq!(domains, vec![ConstraintDomain::FirstRow, ConstraintDomain::LastRow]);
    assert_eq!(constraints.boundary_constraints(1).len(), 1);

    let failing = vec![
        on("a", Boundary::First, Expression::Rand(0)),
        on("b", Boundary::First, Expression::Const(2)),
    ];
    assert_eq!(
        constraints.insert_boundary_stmts(&mut table, failing),
        Err(SemanticError::CrossSegmentReference("a".to_string()))
    );
    assert_eq!(constraints.boundary_constraints(0).len(), 2);
}

#[test]
fn a_hidden_variable_is_still_what_an_earlier_variable_means() {
    // let v = a; let w = v; let v = b; w = v, and v = w
    for swapped in [false, true] {
        let mut table = columns();
        let mut constraints = Constraints::new();
        let (lhs, rhs) = if swapped { (of("v"), of("w")) } else { (of("w"), of("v")) };
        let stmts = vec![bind("v", of("a")), bind("w", of("v")), bind("v", of("b")), enforce(lhs, rhs)];
        assert_eq!(constraints.insert_integrity_stmts(&mut table, stmts), Ok(()));
        let graph = constraints.graph();
        assert_eq!(graph.num_nodes(), 3);
        let root = constraints.integrity_constraints(0)[0].node_index().0;
        let (w, v) = if swapped { (1, 0) } else { (0, 1) };
        let cell = |column: usize| {
            Operation::TraceElement(air_ir::ast::IndexedTraceAccess::new(0, column, 0))
        };
        assert_eq!(graph.node(&NodeIndex(w)).op(), &cell(0));
        assert_eq!(graph.node(&NodeIndex(v)).op(), &cell(1));
        let expected = if swapped {
            Operation::Sub(NodeIndex(v), NodeIndex(w))
        } else {
            Operation::Sub(NodeIndex(w), NodeIndex(v))
        };
        assert_eq!(graph.node(&NodeIndex(root)).op(), &expected);
    }
}
