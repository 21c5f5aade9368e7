//! The constraint sections of a program: the statements of a section are
//! taken in the order of the source, its variables are declared as they
//! are met and dropped when the section ends, and the roots of its
//! variables are kept for the section alone.

use crate::ast::VariableBinding;
use crate::boundary_constraints::BoundaryStmt;
use crate::constraints::{
    boundary_recorded, integrity_recorded, lower_boundary_constraint, lower_equation,
    ConstraintRoot, Constraints,
};
use crate::details::{ExprDetails, VariableRoots, VariableValueView};
use crate::domain::ConstraintDomain;
use crate::error::{SemanticError, SemanticErrorView};
use crate::evaluator_function::IntegrityStmt;
use crate::graph::{extends, OperationView};
use crate::lowering::{roots_valid, Lowered};
use crate::symbol_table::{
    lookup, scope_start, variable_clash, IdentifierType, Scope, Symbol, SymbolTable,
};
use vstd::prelude::*;

verus! {

/// What the statements of a section have made so far of the declarations,
/// of the graph, of the variable roots and of the roots of the constraints,
/// and the error that has ended the section, if any.
pub struct Section {
    pub symbols: Seq<Symbol>,
    pub nodes: Seq<OperationView>,
    pub roots: Map<VariableValueView, ExprDetails>,
    pub boundary: Seq<Seq<ConstraintRoot>>,
    pub integrity: Seq<Seq<ConstraintRoot>>,
    pub error: Option<SemanticErrorView>,
}

/// The section after a variable is declared. The name may be that of an
/// earlier variable of the section, which the new one hides; the variable
/// roots are then forgotten, since they may be those of the hidden variable.
/// Where the name is declared as anything else, the section ends with
/// `DuplicateIdentifier`.
pub open spec fn variable_declared(s: Section, scope: Scope, binding: VariableBinding) -> Section {
    if variable_clash(s.symbols, binding.name@, scope) {
        Section { error: Some(SemanticErrorView::DuplicateIdentifier(binding.name@)), ..s }
    } else {
        Section {
            symbols: s.symbols.push(
                Symbol {
                    name: binding.name.0,
                    ty: match scope {
                        Scope::Boundary => IdentifierType::BoundaryVariable(binding.value),
                        Scope::Integrity => IdentifierType::IntegrityVariable(binding.value),
                    },
                },
            ),
            roots: if lookup(s.symbols, binding.name@, s.symbols.len() as int) is Some {
                Map::empty()
            } else {
                s.roots
            },
            ..s
        }
    }
}

/// The section after a constraint is lowered as `m` says: where `m` is the
/// details of the constraint, its root is recorded; else the section ends
/// with the error of `m`.
pub open spec fn constraint_recorded(s: Section, m: Lowered) -> Section {
    match m.result {
        Ok(d) => Section {
            nodes: m.nodes,
            roots: m.roots,
            boundary: boundary_recorded(s.boundary, d),
            integrity: integrity_recorded(s.integrity, d),
            ..s
        },
        Err(e) => Section { nodes: m.nodes, roots: m.roots, error: Some(e), ..s },
    }
}

/// The section after a statement of the integrity constraints: a variable
/// is declared as [`variable_declared`] says, a constraint is lowered as
/// [`lower_equation`] says on the domain of every row and recorded.
pub open spec fn integrity_stmt_lowered(
    s: Section,
    widths: Seq<u16>,
    stmt: IntegrityStmt,
) -> Section {
    match stmt {
        IntegrityStmt::VariableBinding(binding) => variable_declared(s, Scope::Integrity, binding),
        IntegrityStmt::Constraint(c) => constraint_recorded(
            s,
            lower_equation(
                s.symbols,
                widths,
                s.nodes,
                s.roots,
                c.lhs,
                c.rhs,
                ConstraintDomain::EveryRow,
            ),
        ),
    }
}

/// The section after a statement of the boundary constraints: a variable
/// is declared as [`variable_declared`] says, a constraint is lowered as
/// [`lower_boundary_constraint`] says and recorded.
pub open spec fn boundary_stmt_lowered(
    s: Section,
    widths: Seq<u16>,
    stmt: BoundaryStmt,
) -> Section {
    match stmt {
        BoundaryStmt::VariableBinding(binding) => variable_declared(s, Scope::Boundary, binding),
        BoundaryStmt::Constraint(c) => constraint_recorded(
            s,
            lower_boundary_constraint(s.symbols, widths, s.nodes, s.roots, c),
        ),
    }
}

/// A statement of a constraint section.
pub trait SectionStmt: Sized {
    /// The section after the statement.
    spec fn lowered(self, s: Section, widths: Seq<u16>) -> Section;

    /// Takes the statement: declares the variable or lowers and records the
    /// constraint, as [`Self::lowered`] says.
    fn insert(
        self,
        constraints: &mut Constraints,
        symbol_table: &mut SymbolTable,
        variable_roots: &mut VariableRoots,
    ) -> (r: Result<(), SemanticError>)
        requires
            old(constraints).wf(),
            old(symbol_table).wf(),
            roots_valid(old(constraints).nodes(), old(variable_roots)@),
        ensures
            final(constraints).wf(),
            final(symbol_table).wf(),
            final(symbol_table).widths() == old(symbol_table).widths(),
            extends(final(constraints).nodes(), old(constraints).nodes()),
            roots_valid(final(constraints).nodes(), final(variable_roots)@),
            section_of(final(symbol_table), final(constraints), final(variable_roots)@, r)
                == self.lowered(
                section_of(old(symbol_table), old(constraints), old(variable_roots)@, Ok(())),
                old(symbol_table).widths(),
            ),
    ;
}

impl SectionStmt for IntegrityStmt {
    open spec fn lowered(self, s: Section, widths: Seq<u16>) -> Section {
        integrity_stmt_lowered(s, widths, self)
    }

    fn insert(
        self,
        constraints: &mut Constraints,
        symbol_table: &mut SymbolTable,
        variable_roots: &mut VariableRoots,
    ) -> (r: Result<(), SemanticError>) {
        constraints.insert_integrity_stmt(symbol_table, self, variable_roots)
    }
}

impl SectionStmt for BoundaryStmt {
    open spec fn lowered(self, s: Section, widths: Seq<u16>) -> Section {
        boundary_stmt_lowered(s, widths, self)
    }

    fn insert(
        self,
        constraints: &mut Constraints,
        symbol_table: &mut SymbolTable,
        variable_roots: &mut VariableRoots,
    ) -> (r: Result<(), SemanticError>) {
        constraints.insert_boundary_stmt(symbol_table, self, variable_roots)
    }
}

/// The section after the statements `stmts[from..]`, taken one after the
/// other up to the first that ends the section with an error.
pub open spec fn stmts_lowered<S: SectionStmt>(
    s: Section,
    widths: Seq<u16>,
    stmts: Seq<S>,
    from: int,
) -> Section
    decreases stmts.len() - from,
{
    if from < 0 || from >= stmts.len() || s.error is Some {
        s
    } else {
        stmts_lowered(stmts[from].lowered(s, widths), widths, stmts, from + 1)
    }
}

/// What a whole section leaves: what [`stmts_lowered`] says of its
/// statements from no variable roots, with the variables of the section
/// dropped from the declarations and its variable roots forgotten.
pub open spec fn section_lowered<S: SectionStmt>(
    symbols: Seq<Symbol>,
    widths: Seq<u16>,
    nodes: Seq<OperationView>,
    boundary: Seq<Seq<ConstraintRoot>>,
    integrity: Seq<Seq<ConstraintRoot>>,
    stmts: Seq<S>,
    scope: Scope,
) -> Section {
    let s = stmts_lowered(
        Section { symbols, nodes, roots: Map::empty(), boundary, integrity, error: None },
        widths,
        stmts,
        0,
    );
    Section {
        symbols: s.symbols.take(scope_start(s.symbols, scope)),
        roots: Map::empty(),
        ..s
    }
}

/// The section that the given table, constraints and variable roots stand
/// for, with the given result of the last statement.
pub open spec fn section_of(
    table: &SymbolTable,
    constraints: &Constraints,
    roots: Map<VariableValueView, ExprDetails>,
    r: Result<(), SemanticError>,
) -> Section {
    Section {
        symbols: table.symbols(),
        nodes: constraints.nodes(),
        roots,
        boundary: constraints.boundary_roots(),
        integrity: constraints.integrity_roots(),
        error: match r {
            Ok(_) => None,
            Err(e) => Some(e@),
        },
    }
}

impl Constraints {
    /// Declares a variable of a constraint section, as [`variable_declared`]
    /// says.
    pub fn declare_section_variable(
        &self,
        symbol_table: &mut SymbolTable,
        scope: Scope,
        binding: VariableBinding,
        variable_roots: &mut VariableRoots,
    ) -> (r: Result<(), SemanticError>)
        requires
            self.wf(),
            old(symbol_table).wf(),
            roots_valid(self.nodes(), old(variable_roots)@),
        ensures
            final(symbol_table).wf(),
            final(symbol_table).widths() == old(symbol_table).widths(),
            roots_valid(self.nodes(), final(variable_roots)@),
            section_of(final(symbol_table), self, final(variable_roots)@, r) == variable_declared(
                section_of(old(symbol_table), self, old(variable_roots)@, Ok(())),
                scope,
                binding,
            ),
    {
        let hides = symbol_table.find(binding.name.name(), symbol_table.num_symbols()).is_some();
        let VariableBinding { name, value } = binding;
        match symbol_table.declare_variable(scope, name.0, value) {
            Ok(()) => {
                if hides {
                    variable_roots.clear();
                }
                Ok(())
            },
            Err(e) => Err(e),
        }
    }

    /// Takes a statement of the integrity constraints, as
    /// [`integrity_stmt_lowered`] says.
    pub fn insert_integrity_stmt(
        &mut self,
        symbol_table: &mut SymbolTable,
        stmt: IntegrityStmt,
        variable_roots: &mut VariableRoots,
    ) -> (r: Result<(), SemanticError>)
        requires
            old(self).wf(),
            old(symbol_table).wf(),
            roots_valid(old(self).nodes(), old(variable_roots)@),
        ensures
            final(self).wf(),
            final(symbol_table).wf(),
            final(symbol_table).widths() == old(symbol_table).widths(),
            extends(final(self).nodes(), old(self).nodes()),
            roots_valid(final(self).nodes(), final(variable_roots)@),
            section_of(final(symbol_table), final(self), final(variable_roots)@, r)
                == integrity_stmt_lowered(
                section_of(old(symbol_table), old(self), old(variable_roots)@, Ok(())),
                old(symbol_table).widths(),
                stmt,
            ),
    {
        match stmt {
            IntegrityStmt::VariableBinding(binding) => self.declare_section_variable(
                symbol_table,
                Scope::Integrity,
                binding,
                variable_roots,
            ),
            IntegrityStmt::Constraint(constraint) => self.insert_integrity_constraint(
                symbol_table,
                &constraint,
                variable_roots,
            ),
        }
    }

    /// Takes a statement of the boundary constraints, as
    /// [`boundary_stmt_lowered`] says.
    pub fn insert_boundary_stmt(
        &mut self,
        symbol_table: &mut SymbolTable,
        stmt: BoundaryStmt,
        variable_roots: &mut VariableRoots,
    ) -> (r: Result<(), SemanticError>)
        requires
            old(self).wf(),
            old(symbol_table).wf(),
            roots_valid(old(self).nodes(), old(variable_roots)@),
        ensures
            final(self).wf(),
            final(symbol_table).wf(),
            final(symbol_table).widths() == old(symbol_table).widths(),
            extends(final(self).nodes(), old(self).nodes()),
            roots_valid(final(self).nodes(), final(variable_roots)@),
            section_of(final(symbol_table), final(self), final(variable_roots)@, r)
                == boundary_stmt_lowered(
                section_of(old(symbol_table), old(self), old(variable_roots)@, Ok(())),
                old(symbol_table).widths(),
                stmt,
            ),
    {
        match stmt {
            BoundaryStmt::VariableBinding(binding) => self.declare_section_variable(
                symbol_table,
                Scope::Boundary,
                binding,
                variable_roots,
            ),
            BoundaryStmt::Constraint(constraint) => self.insert_boundary_constraint(
                symbol_table,
                &constraint,
                variable_roots,
            ),
        }
    }

    /// Takes the statements of a section in the order of the source, up to
    /// the first that fails, from no variable roots, and drops the variables
    /// of the section from the symbol table. See [`section_lowered`].
    fn insert_stmts<S: SectionStmt>(
        &mut self,
        symbol_table: &mut SymbolTable,
        stmts: Vec<S>,
        scope: Scope,
    ) -> (r: Result<(), SemanticError>)
        requires
            old(self).wf(),
            old(symbol_table).wf(),
        ensures
            final(self).wf(),
            final(symbol_table).wf(),
            final(symbol_table).widths() == old(symbol_table).widths(),
            extends(final(self).nodes(), old(self).nodes()),
            section_of(final(symbol_table), final(self), Map::empty(), r) == section_lowered(
                old(symbol_table).symbols(),
                old(symbol_table).widths(),
                old(self).nodes(),
                old(self).boundary_roots(),
                old(self).integrity_roots(),
                stmts@,
                scope,
            ),
    {
        let mut variable_roots = VariableRoots::new();
        let mut result: Result<(), SemanticError> = Ok(());
        let ghost widths = symbol_table.widths();
        let ghost all = stmts@;
        for stmt in it: stmts
            invariant
                all == it.seq(),
                self.wf(),
                symbol_table.wf(),
                symbol_table.widths() == widths,
                extends(self.nodes(), old(self).nodes()),
                roots_valid(self.nodes(), variable_roots@),
                stmts_lowered(
                    section_of(old(symbol_table), old(self), Map::empty(), Ok(())),
                    widths,
                    all,
                    0,
                ) == stmts_lowered(
                    section_of(symbol_table, self, variable_roots@, result),
                    widths,
                    all,
                    it.index() as int,
                ),
        {
            if result.is_ok() {
                result = stmt.insert(self, symbol_table, &mut variable_roots);
            }
        }
        symbol_table.end_scope(scope);
        result
    }

    /// Takes the integrity constraints section of a program: its statements
    /// in the order of the source, up to the first that fails, each as
    /// [`integrity_stmt_lowered`] says, from no variable roots. When the
    /// section ends, with an error or without, its variables are dropped from
    /// the symbol table. See [`section_lowered`].
    pub fn insert_integrity_stmts(
        &mut self,
        symbol_table: &mut SymbolTable,
        stmts: Vec<IntegrityStmt>,
    ) -> (r: Result<(), SemanticError>)
        requires
            old(self).wf(),
            old(symbol_table).wf(),
        ensures
            final(self).wf(),
            final(symbol_table).wf(),
            final(symbol_table).widths() == old(symbol_table).widths(),
            extends(final(self).nodes(), old(self).nodes()),
            section_of(final(symbol_table), final(self), Map::empty(), r) == section_lowered(
                old(symbol_table).symbols(),
                old(symbol_table).widths(),
                old(self).nodes(),
                old(self).boundary_roots(),
                old(self).integrity_roots(),
                stmts@,
                Scope::Integrity,
            ),
    {
        self.insert_stmts(symbol_table, stmts, Scope::Integrity)
    }

    /// Takes the boundary constraints section of a program: its statements
    /// in the order of the source, up to the first that fails, each as
    /// [`boundary_stmt_lowered`] says, from no variable roots. When the
    /// section ends, with an error or without, its variables are dropped from
    /// the symbol table. See [`section_lowered`].
    pub fn insert_boundary_stmts(
        &mut self,
        symbol_table: &mut SymbolTable,
        stmts: Vec<BoundaryStmt>,
    ) -> (r: Result<(), SemanticError>)
        requires
            old(self).wf(),
            old(symbol_table).wf(),
        ensures
            final(self).wf(),
            final(symbol_table).wf(),
            final(symbol_table).widths() == old(symbol_table).widths(),
            extends(final(self).nodes(), old(self).nodes()),
            section_of(final(symbol_table), final(self), Map::empty(), r) == section_lowered(
                old(symbol_table).symbols(),
                old(symbol_table).widths(),
                old(self).nodes(),
                old(self).boundary_roots(),
                old(self).integrity_roots(),
                stmts@,
                Scope::Boundary,
            ),
    {
        self.insert_stmts(symbol_table, stmts, Scope::Boundary)
    }
}

} // verus!
