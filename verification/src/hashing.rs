//! The hash of an operation, by which the graph finds an equal operation
//! without looking at every node. Equal operations have equal hashes; the
//! hash is the same in every run.

use crate::graph::{ConstantValue, ConstantValueView, Operation, OperationView};
use vstd::prelude::*;
use vstd::utf8::encode_utf8;

verus! {

/// The hash of nothing.
pub const SEED: u64 = 0xcbf29ce484222325;

/// The factor by which a hash is multiplied after each value.
pub const PRIME: u64 = 0x100000001b3;

/// The hash `h` after the value `v` is added to what was hashed.
pub open spec fn mix(h: u64, v: u64) -> u64 {
    (h ^ v).wrapping_mul(PRIME)
}

/// The hash `h` after the first `n` of the bytes are added to what was
/// hashed, one after the other.
pub open spec fn mix_bytes(h: u64, bytes: Seq<u8>, n: int) -> u64
    decreases n,
{
    if n <= 0 {
        h
    } else {
        mix(mix_bytes(h, bytes, n - 1), bytes[n - 1] as u64)
    }
}

/// The hash `h` after a name is added to what was hashed: first the bytes
/// of the name in UTF-8, then their number.
pub open spec fn mix_name(h: u64, name: Seq<char>) -> u64 {
    let bytes = encode_utf8(name);
    mix(mix_bytes(h, bytes, bytes.len() as int), bytes.len() as u64)
}

/// The hash of a constant.
pub open spec fn constant_hash(c: ConstantValueView) -> u64 {
    match c {
        ConstantValueView::Inline(v) => mix(mix(SEED, 1), v),
        ConstantValueView::Scalar(name) => mix_name(mix(SEED, 2), name),
        ConstantValueView::Vector(name, idx) => mix(mix_name(mix(SEED, 3), name), idx as u64),
        ConstantValueView::Matrix(name, row, col) => mix(
            mix(mix_name(mix(SEED, 4), name), row as u64),
            col as u64,
        ),
    }
}

/// The hash of an operation: the kind of the operation, then its operands
/// and its payload, mixed in that order.
pub open spec fn op_hash(op: OperationView) -> u64 {
    match op {
        OperationView::Constant(c) => constant_hash(c),
        OperationView::TraceElement(a) => mix(
            mix(mix(mix(SEED, 5), a.trace_segment as u64), a.col_idx as u64),
            a.row_offset as u64,
        ),
        OperationView::PeriodicColumn(index, cycle_len) => mix(
            mix(mix(SEED, 6), index as u64),
            cycle_len as u64,
        ),
        OperationView::RandomValue(index) => mix(mix(SEED, 7), index as u64),
        OperationView::Neg(a) => mix(mix(SEED, 8), a.0 as u64),
        OperationView::Add(a, b) => mix(mix(mix(SEED, 9), a.0 as u64), b.0 as u64),
        OperationView::Sub(a, b) => mix(mix(mix(SEED, 10), a.0 as u64), b.0 as u64),
        OperationView::Mul(a, b) => mix(mix(mix(SEED, 11), a.0 as u64), b.0 as u64),
        OperationView::Exp(a, k) => mix(mix(mix(SEED, 12), a.0 as u64), k as u64),
    }
}

/// Adds a value to what was hashed.
pub fn mixed(h: u64, v: u64) -> (r: u64)
    ensures
        r == mix(h, v),
{
    (h ^ v).wrapping_mul(PRIME)
}

/// Adds a name to what was hashed.
pub fn mixed_name(h: u64, name: &str) -> (r: u64)
    ensures
        r == mix_name(h, name@),
{
    let bytes = name.as_bytes();
    let mut r = h;
    let mut i: usize = 0;
    while i < bytes.len()
        invariant
            i <= bytes@.len(),
            bytes@ == encode_utf8(name@),
            r == mix_bytes(h, bytes@, i as int),
        decreases bytes@.len() - i,
    {
        r = mixed(r, bytes[i] as u64);
        i = i + 1;
    }
    mixed(r, bytes.len() as u64)
}

/// Returns the hash of a constant.
pub fn hash_constant(c: &ConstantValue) -> (r: u64)
    ensures
        r == constant_hash(c@),
{
    match c {
        ConstantValue::Inline(v) => mixed(mixed(SEED, 1), *v),
        ConstantValue::Scalar(name) => mixed_name(mixed(SEED, 2), name.as_str()),
        ConstantValue::Vector(a) => mixed(mixed_name(mixed(SEED, 3), a.name()), a.idx as u64),
        ConstantValue::Matrix(a) => mixed(
            mixed(mixed_name(mixed(SEED, 4), a.name()), a.row_idx as u64),
            a.col_idx as u64,
        ),
    }
}

/// Returns the hash of an operation.
pub fn hash(op: &Operation) -> (r: u64)
    ensures
        r == op_hash(op@),
{
    match op {
        Operation::Constant(c) => hash_constant(c),
        Operation::TraceElement(a) => mixed(
            mixed(mixed(mixed(SEED, 5), a.trace_segment as u64), a.col_idx as u64),
            a.row_offset as u64,
        ),
        Operation::PeriodicColumn(index, cycle_len) => mixed(
            mixed(mixed(SEED, 6), *index as u64),
            *cycle_len as u64,
        ),
        Operation::RandomValue(index) => mixed(mixed(SEED, 7), *index as u64),
        Operation::Neg(a) => mixed(mixed(SEED, 8), a.0 as u64),
        Operation::Add(a, b) => mixed(mixed(mixed(SEED, 9), a.0 as u64), b.0 as u64),
        Operation::Sub(a, b) => mixed(mixed(mixed(SEED, 10), a.0 as u64), b.0 as u64),
        Operation::Mul(a, b) => mixed(mixed(mixed(SEED, 11), a.0 as u64), b.0 as u64),
        Operation::Exp(a, k) => mixed(mixed(mixed(SEED, 12), a.0 as u64), *k as u64),
    }
}

} // verus!
