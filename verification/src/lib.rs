//! Semantic analysis and intermediate representation for AirScript: a symbol
//! table, a hash-consed algebraic graph of constraint expressions, and the
//! lowering of parsed constraints into that graph.

pub mod ast;
pub mod boundary_constraints;
pub mod constraints;
pub mod degree;
pub mod details;
pub mod domain;
pub mod error;
pub mod evaluator_function;
pub mod graph;
pub mod hashing;
pub mod lowering;
pub mod sections;
pub mod symbol_table;

pub use constraints::{ConstraintRoot, Constraints};
pub use degree::IntegrityConstraintDegree;
pub use details::{ExprContext, ExprDetails, VariableRoots, VariableValue};
pub use domain::ConstraintDomain;
pub use error::SemanticError;
pub use graph::{AlgebraicGraph, ConstantValue, Node, NodeIndex, Operation};
pub use symbol_table::{IdentifierType, Scope, SymbolTable, TraceColumns};
