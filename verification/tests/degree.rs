use air_ir::ast::IndexedTraceAccess;
use air_ir::degree::IntegrityConstraintDegree;
use air_ir::graph::{AlgebraicGraph, ConstantValue, NodeIndex, Operation};
use std::collections::BTreeMap;

fn cell(graph: &mut AlgebraicGraph, column: usize) -> NodeIndex {
    graph.insert_op(Operation::TraceElement(IndexedTraceAccess::new(0, column, 0)))
}

fn cycles_of(pairs: &[(usize, usize)]) -> BTreeMap<usize, usize> {
    pairs.iter().cloned().collect()
}

#[test]
fn degree_of_a_product() {
    // (a * b * c) * p with p a periodic column of cycle 8
    let mut graph = AlgebraicGraph::new();
    let a = cell(&mut graph, 0);
    let b = cell(&mut graph, 1);
    let c = cell(&mut graph, 2);
    let p = graph.insert_op(Operation::PeriodicColumn(5, 8));
    let ab = graph.insert_op(Operation::Mul(a, b));
    let abc = graph.insert_op(Operation::Mul(ab, c));
    let root = graph.insert_op(Operation::Mul(abc, p));
    let degree = graph.degree(&root);
    assert_eq!(degree.base(), 3);
    assert_eq!(degree.cycles(), &cycles_of(&[(5, 8)]));
    assert_eq!(degree, IntegrityConstraintDegree::with_cycles(3, cycles_of(&[(5, 8)])));
}

#[test]
fn degrees_of_the_leaves() {
    let mut graph = AlgebraicGraph::new();
    let constant = graph.insert_op(Operation::Constant(ConstantValue::Inline(9)));
    let random = graph.insert_op(Operation::RandomValue(0));
    let trace = cell(&mut graph, 0);
    let periodic = graph.insert_op(Operation::PeriodicColumn(1, 4));
    assert_eq!(graph.degree(&constant), IntegrityConstraintDegree::new(0));
    assert_eq!(graph.degree(&random), IntegrityConstraintDegree::new(0));
    assert_eq!(graph.degree(&trace), IntegrityConstraintDegree::new(1));
    assert_eq!(
        graph.degree(&periodic),
        IntegrityConstraintDegree::with_cycles(0, cycles_of(&[(1, 4)]))
    );
    assert_eq!(IntegrityConstraintDegree::new(2).base(), 2);
    assert!(IntegrityConstraintDegree::new(2).cycles().is_empty());
}

#[test]
fn degrees_of_the_operations() {
    let mut graph = AlgebraicGraph::new();
    let a = cell(&mut graph, 0);
    let b = cell(&mut graph, 1);
    let square = graph.insert_op(Operation::Mul(a, a));
    let cube = graph.insert_op(Operation::Mul(square, b));
    let sum = graph.insert_op(Operation::Add(cube, square));
    let difference = graph.insert_op(Operation::Sub(a, cube));
    let negation = graph.insert_op(Operation::Neg(square));
    let power = graph.insert_op(Operation::Exp(cube, 4));
    let unit = graph.insert_op(Operation::Exp(cube, 0));
    assert_eq!(graph.degree(&square).base(), 2);
    assert_eq!(graph.degree(&cube).base(), 3);
    assert_eq!(graph.degree(&sum).base(), 3);
    assert_eq!(graph.degree(&difference).base(), 3);
    assert_eq!(graph.degree(&negation).base(), 2);
    assert_eq!(graph.degree(&power).base(), 12);
    assert_eq!(graph.degree(&unit).base(), 0);
}

#[test]
fn a_periodic_column_counts_once() {
    let mut graph = AlgebraicGraph::new();
    let p = graph.insert_op(Operation::PeriodicColumn(0, 8));
    let q = graph.insert_op(Operation::PeriodicColumn(3, 2));
    let a = cell(&mut graph, 0);
    let pp = graph.insert_op(Operation::Mul(p, p));
    let ppq = graph.insert_op(Operation::Mul(pp, q));
    let power = graph.insert_op(Operation::Exp(ppq, 5));
    let root = graph.insert_op(Operation::Add(power, a));
    assert_eq!(
        graph.degree(&pp),
        IntegrityConstraintDegree::with_cycles(0, cycles_of(&[(0, 8)]))
    );
    assert_eq!(
        graph.degree(&root),
        IntegrityConstraintDegree::with_cycles(1, cycles_of(&[(0, 8), (3, 2)]))
    );
}

#[test]
fn the_cycle_met_last_stays() {
    let mut graph = AlgebraicGraph::new();
    let short = graph.insert_op(Operation::PeriodicColumn(0, 2));
    let long = graph.insert_op(Operation::PeriodicColumn(0, 16));
    let left = graph.insert_op(Operation::Mul(short, long));
    let right = graph.insert_op(Operation::Mul(long, short));
    assert_eq!(graph.degree(&left).cycles(), &cycles_of(&[(0, 16)]));
    assert_eq!(graph.degree(&right).cycles(), &cycles_of(&[(0, 2)]));
}

#[test]
fn accumulate_degree_adds_to_the_cycles_given() {
    let mut graph = AlgebraicGraph::new();
    let p = graph.insert_op(Operation::PeriodicColumn(1, 4));
    let a = cell(&mut graph, 0);
    let root = graph.insert_op(Operation::Mul(p, a));
    let mut cycles = cycles_of(&[(0, 2), (1, 32)]);
    assert_eq!(graph.accumulate_degree(&mut cycles, &root), 1);
    assert_eq!(cycles, cycles_of(&[(0, 2), (1, 4)]));
}

#[test]
fn a_degree_beyond_the_machine_word_is_capped() {
    let mut graph = AlgebraicGraph::new();
    let a = cell(&mut graph, 0);
    let huge = graph.insert_op(Operation::Exp(a, usize::MAX));
    let more = graph.insert_op(Operation::Mul(huge, a));
    let most = graph.insert_op(Operation::Exp(more, 3));
    let none = graph.insert_op(Operation::Exp(most, 0));
    let sum = graph.insert_op(Operation::Add(most, a));
    assert_eq!(graph.degree(&huge).base(), usize::MAX);
    assert_eq!(graph.degree(&more).base(), usize::MAX);
    assert_eq!(graph.degree(&most).base(), usize::MAX);
    assert_eq!(graph.degree(&none).base(), 0);
    assert_eq!(graph.degree(&sum).base(), usize::MAX);
}
