use air_ir::ast::{Identifier, IndexedTraceAccess, MatrixAccess, VectorAccess};
use air_ir::graph::{AlgebraicGraph, ConstantValue, NodeIndex, Operation};

fn ident(name: &str) -> Identifier {
    Identifier(name.to_string())
}

fn children(op: &Operation) -> Vec<usize> {
    match op {
        Operation::Neg(a) | Operation::Exp(a, _) => vec![a.0],
        Operation::Add(a, b) | Operation::Sub(a, b) | Operation::Mul(a, b) => vec![a.0, b.0],
        _ => vec![],
    }
}

#[test]
fn insert_op_returns_the_existing_node() {
    let mut graph = AlgebraicGraph::new();
    let first = graph.insert_op(Operation::RandomValue(3));
    let second = graph.insert_op(Operation::RandomValue(3));
    assert_eq!(first, NodeIndex(0));
    assert_eq!(second, first);
    assert_eq!(graph.num_nodes(), 1);
}

#[test]
fn insert_op_appends_what_is_new() {
    let mut graph = AlgebraicGraph::new();
    let a = graph.insert_op(Operation::TraceElement(IndexedTraceAccess::new(0, 0, 0)));
    let b = graph.insert_op(Operation::TraceElement(IndexedTraceAccess::new(0, 1, 0)));
    let c = graph.insert_op(Operation::TraceElement(IndexedTraceAccess::new(0, 0, 1)));
    assert_eq!((a, b, c), (NodeIndex(0), NodeIndex(1), NodeIndex(2)));
    let sum = graph.insert_op(Operation::Add(a, b));
    assert_eq!(sum, NodeIndex(3));
    assert_eq!(graph.num_nodes(), 4);
    assert_eq!(graph.node(&sum).op(), &Operation::Add(a, b));
    assert_eq!(
        graph.node(&c).op(),
        &Operation::TraceElement(IndexedTraceAccess::new(0, 0, 1))
    );
}

#[test]
fn operand_order_is_kept() {
    let mut graph = AlgebraicGraph::new();
    let a = graph.insert_op(Operation::RandomValue(0));
    let b = graph.insert_op(Operation::RandomValue(1));
    let ab = graph.insert_op(Operation::Add(a, b));
    let ba = graph.insert_op(Operation::Add(b, a));
    assert_ne!(ab, ba);
    assert_eq!(graph.num_nodes(), 4);
    let ab_mul = graph.insert_op(Operation::Mul(a, b));
    let ba_mul = graph.insert_op(Operation::Mul(b, a));
    assert_ne!(ab_mul, ba_mul);
    assert_eq!(graph.num_nodes(), 6);
}

#[test]
fn operations_of_different_kinds_are_different_nodes() {
    let mut graph = AlgebraicGraph::new();
    let a = graph.insert_op(Operation::RandomValue(0));
    let nodes = vec![
        graph.insert_op(Operation::Neg(a)),
        graph.insert_op(Operation::Add(a, a)),
        graph.insert_op(Operation::Sub(a, a)),
        graph.insert_op(Operation::Mul(a, a)),
        graph.insert_op(Operation::Exp(a, 2)),
        graph.insert_op(Operation::Exp(a, 3)),
        graph.insert_op(Operation::PeriodicColumn(0, 2)),
        graph.insert_op(Operation::PeriodicColumn(0, 4)),
    ];
    for (i, node) in nodes.iter().enumerate() {
        assert_eq!(*node, NodeIndex(i + 1));
    }
    assert_eq!(graph.insert_op(Operation::Exp(a, 3)), NodeIndex(6));
    assert_eq!(graph.num_nodes(), 9);
}

#[test]
fn constants_are_compared_by_name_and_indices() {
    let mut graph = AlgebraicGraph::new();
    let ops: Vec<fn() -> Operation> = vec![
        || Operation::Constant(ConstantValue::Inline(1)),
        || Operation::Constant(ConstantValue::Inline(2)),
        || Operation::Constant(ConstantValue::Scalar("A".to_string())),
        || Operation::Constant(ConstantValue::Scalar("B".to_string())),
        || Operation::Constant(ConstantValue::Vector(VectorAccess::new(ident("A"), 0))),
        || Operation::Constant(ConstantValue::Vector(VectorAccess::new(ident("A"), 1))),
        || Operation::Constant(ConstantValue::Vector(VectorAccess::new(ident("B"), 0))),
        || Operation::Constant(ConstantValue::Matrix(MatrixAccess::new(ident("A"), 0, 0))),
        || Operation::Constant(ConstantValue::Matrix(MatrixAccess::new(ident("A"), 0, 1))),
        || Operation::Constant(ConstantValue::Matrix(MatrixAccess::new(ident("A"), 1, 0))),
    ];
    for (i, op) in ops.iter().enumerate() {
        assert_eq!(graph.insert_op(op()), NodeIndex(i));
    }
    for (i, op) in ops.iter().enumerate() {
        assert_eq!(graph.insert_op(op()), NodeIndex(i));
    }
    assert_eq!(graph.num_nodes(), ops.len());
}

#[test]
fn same_agrees_with_structural_equality() {
    let a = Operation::Constant(ConstantValue::Scalar("A".to_string()));
    let b = Operation::Constant(ConstantValue::Scalar("A".to_string()));
    let c = Operation::Constant(ConstantValue::Scalar("C".to_string()));
    assert!(a.same(&b));
    assert!(!a.same(&c));
    assert!(!a.same(&Operation::RandomValue(0)));
    assert!(Operation::Exp(NodeIndex(1), 2).same(&Operation::Exp(NodeIndex(1), 2)));
    assert!(!Operation::Exp(NodeIndex(1), 2).same(&Operation::Exp(NodeIndex(1), 3)));
    assert!(!Operation::Add(NodeIndex(1), NodeIndex(2)).same(&Operation::Sub(NodeIndex(1), NodeIndex(2))));
    assert!(ConstantValue::Inline(7).same(&ConstantValue::Inline(7)));
    assert!(!ConstantValue::Inline(7).same(&ConstantValue::Scalar("7".to_string())));
}

#[test]
fn every_operand_precedes_its_node() {
    let mut graph = AlgebraicGraph::new();
    let a = graph.insert_op(Operation::TraceElement(IndexedTraceAccess::new(0, 0, 0)));
    let b = graph.insert_op(Operation::PeriodicColumn(0, 8));
    let ab = graph.insert_op(Operation::Mul(a, b));
    let neg = graph.insert_op(Operation::Neg(ab));
    let pow = graph.insert_op(Operation::Exp(neg, 5));
    let sum = graph.insert_op(Operation::Add(pow, a));
    graph.insert_op(Operation::Sub(sum, sum));
    graph.insert_op(Operation::Mul(a, b));
    assert_eq!(graph.num_nodes(), 7);
    for i in 0..graph.num_nodes() {
        for child in children(graph.node(&NodeIndex(i)).op()) {
            assert!(child < i);
        }
    }
}

#[test]
fn a_new_graph_is_empty() {
    assert_eq!(AlgebraicGraph::new().num_nodes(), 0);
    assert_eq!(AlgebraicGraph::default().num_nodes(), 0);
    assert_eq!(NodeIndex::default(), NodeIndex(0));
}
