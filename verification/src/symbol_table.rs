//! The symbol table: one flat namespace of the declarations of a program
//! and of the variables of the constraint section that is being analysed.

use crate::ast::{
    ConstantType, ConstantTypeView, MatrixAccess, TraceCols, TraceSegment, VariableType,
    VariableTypeView, VectorAccess,
};
use crate::error::{SemanticError, SemanticErrorView};
use vstd::prelude::*;

verus! {

/// The constraint section that a variable belongs to.
#[derive(Debug, Clone, Copy, PartialEq, Eq, Structural)]
pub enum Scope {
    Boundary,
    Integrity,
}

/// A group of adjacent columns of one trace segment: the segment, the
/// column at which the group starts, and the number of its columns.
#[derive(Debug, Clone, Copy, PartialEq, Eq, Structural)]
pub struct TraceColumns {
    pub trace_segment: TraceSegment,
    pub offset: usize,
    pub size: usize,
}

impl TraceColumns {
    /// Creates the group of `size` columns of the segment that starts at
    /// column `offset`.
    pub fn new(trace_segment: TraceSegment, offset: usize, size: usize) -> (r: Self)
        ensures
            r == (TraceColumns { trace_segment, offset, size }),
    {
        TraceColumns { trace_segment, offset, size }
    }

    /// Returns the trace segment of the group.
    pub fn trace_segment(&self) -> (r: TraceSegment)
        ensures
            r == self.trace_segment,
    {
        self.trace_segment
    }

    /// Returns the first column of the group.
    pub fn offset(&self) -> (r: usize)
        ensures
            r == self.offset,
    {
        self.offset
    }

    /// Returns the number of columns of the group.
    pub fn size(&self) -> (r: usize)
        ensures
            r == self.size,
    {
        self.size
    }
}

/// What a name was declared as.
#[derive(Debug, PartialEq, Eq)]
pub enum IdentifierType {
    /// A named constant, with its value.
    Constant(ConstantType),
    /// A vector of public inputs, with its length.
    PublicInput(usize),
    /// A periodic column: its index among the periodic columns, and the
    /// length of its cycle.
    PeriodicColumn(usize, usize),
    /// A group of trace columns.
    TraceColumns(TraceColumns),
    /// A variable of the boundary constraints.
    BoundaryVariable(VariableType),
    /// A variable of the integrity constraints.
    IntegrityVariable(VariableType),
    /// A named run of random values: the index of the first, and how many.
    RandomValuesBinding(usize, usize),
}

/// The mathematical value of an [`IdentifierType`].
pub enum IdentifierTypeView {
    Constant(ConstantTypeView),
    PublicInput(usize),
    PeriodicColumn(usize, usize),
    TraceColumns(TraceColumns),
    BoundaryVariable(VariableTypeView),
    IntegrityVariable(VariableTypeView),
    RandomValuesBinding(usize, usize),
}

impl View for IdentifierType {
    type V = IdentifierTypeView;

    open spec fn view(&self) -> IdentifierTypeView {
        match *self {
            IdentifierType::Constant(c) => IdentifierTypeView::Constant(c@),
            IdentifierType::PublicInput(n) => IdentifierTypeView::PublicInput(n),
            IdentifierType::PeriodicColumn(i, n) => IdentifierTypeView::PeriodicColumn(i, n),
            IdentifierType::TraceColumns(c) => IdentifierTypeView::TraceColumns(c),
            IdentifierType::BoundaryVariable(v) => IdentifierTypeView::BoundaryVariable(v@),
            IdentifierType::IntegrityVariable(v) => IdentifierTypeView::IntegrityVariable(v@),
            IdentifierType::RandomValuesBinding(i, n) => IdentifierTypeView::RandomValuesBinding(
                i,
                n,
            ),
        }
    }
}

impl Clone for IdentifierType {
    fn clone(&self) -> (r: Self)
        ensures
            r@ == self@,
    {
        match self {
            IdentifierType::Constant(c) => IdentifierType::Constant(c.clone()),
            IdentifierType::PublicInput(n) => IdentifierType::PublicInput(*n),
            IdentifierType::PeriodicColumn(i, n) => IdentifierType::PeriodicColumn(*i, *n),
            IdentifierType::TraceColumns(c) => IdentifierType::TraceColumns(*c),
            IdentifierType::BoundaryVariable(v) => IdentifierType::BoundaryVariable(v.clone()),
            IdentifierType::IntegrityVariable(v) => IdentifierType::IntegrityVariable(v.clone()),
            IdentifierType::RandomValuesBinding(i, n) => IdentifierType::RandomValuesBinding(
                *i,
                *n,
            ),
        }
    }
}

impl IdentifierType {
    /// Whether this is the type of a variable of the given scope.
    pub open spec fn variable_of(self, scope: Scope) -> bool {
        match scope {
            Scope::Boundary => self is BoundaryVariable,
            Scope::Integrity => self is IntegrityVariable,
        }
    }

    /// Whether a value of this type has elements that one index selects.
    pub open spec fn vector_like(self) -> bool {
        match self {
            IdentifierType::Constant(ConstantType::Vector(_)) => true,
            IdentifierType::PublicInput(_) => true,
            IdentifierType::TraceColumns(_) => true,
            IdentifierType::BoundaryVariable(VariableType::Vector(_)) => true,
            IdentifierType::BoundaryVariable(VariableType::ListComprehension(_)) => true,
            IdentifierType::IntegrityVariable(VariableType::Vector(_)) => true,
            IdentifierType::IntegrityVariable(VariableType::ListComprehension(_)) => true,
            IdentifierType::RandomValuesBinding(_, _) => true,
            _ => false,
        }
    }

    /// Whether `idx` is within the declared extent of a vector-like value.
    /// A list comprehension declares no extent of its own: its length is that
    /// of what it ranges over.
    pub open spec fn vector_index_ok(self, idx: usize) -> bool {
        match self {
            IdentifierType::Constant(ConstantType::Vector(v)) => idx < v@.len(),
            IdentifierType::PublicInput(n) => idx < n,
            IdentifierType::TraceColumns(c) => idx < c.size,
            IdentifierType::BoundaryVariable(VariableType::Vector(v)) => idx < v@.len(),
            IdentifierType::IntegrityVariable(VariableType::Vector(v)) => idx < v@.len(),
            IdentifierType::RandomValuesBinding(_, n) => idx < n,
            _ => true,
        }
    }

    /// Whether a value of this type has elements that a row and a column
    /// select.
    pub open spec fn matrix_like(self) -> bool {
        match self {
            IdentifierType::Constant(ConstantType::Matrix(_)) => true,
            IdentifierType::BoundaryVariable(VariableType::Matrix(_)) => true,
            IdentifierType::IntegrityVariable(VariableType::Matrix(_)) => true,
            _ => false,
        }
    }

    /// Whether `(row, col)` is within the declared extent of a matrix.
    pub open spec fn matrix_index_ok(self, row: usize, col: usize) -> bool {
        match self {
            IdentifierType::Constant(ConstantType::Matrix(m)) => {
                row < m@.len() && col < m@[row as int]@.len()
            },
            IdentifierType::BoundaryVariable(VariableType::Matrix(m)) => {
                row < m@.len() && col < m@[row as int]@.len()
            },
            IdentifierType::IntegrityVariable(VariableType::Matrix(m)) => {
                row < m@.len() && col < m@[row as int]@.len()
            },
            _ => true,
        }
    }

    /// Whether this is a group of trace columns that ends beyond the last
    /// column that a segment can have.
    pub open spec fn beyond_any_segment(self) -> bool {
        self matches IdentifierType::TraceColumns(c) && c.offset + c.size > u16::MAX
    }

    /// Whether a group of trace columns lies within the declared widths of
    /// the segments; true of every other type.
    pub open spec fn fits(self, widths: Seq<u16>) -> bool {
        match self {
            IdentifierType::TraceColumns(c) => {
                c.trace_segment < widths.len() && c.offset + c.size
                    <= widths[c.trace_segment as int]
            },
            _ => true,
        }
    }
}

/// A declaration: a name and what it was declared as.
#[derive(Debug, PartialEq, Eq)]
pub struct Symbol {
    pub name: String,
    pub ty: IdentifierType,
}

impl View for Symbol {
    type V = (Seq<char>, IdentifierTypeView);

    open spec fn view(&self) -> (Seq<char>, IdentifierTypeView) {
        (self.name@, self.ty@)
    }
}

impl Clone for Symbol {
    fn clone(&self) -> (r: Self)
        ensures
            r@ == self@,
    {
        Symbol { name: self.name.clone(), ty: self.ty.clone() }
    }
}

/// The position of the declaration that `name` refers to among the first
/// `horizon` declarations: the latest one of that name.
pub open spec fn lookup(symbols: Seq<Symbol>, name: Seq<char>, horizon: int) -> Option<int>
    decreases horizon,
{
    if horizon <= 0 {
        None
    } else if horizon > symbols.len() {
        lookup(symbols, name, symbols.len() as int)
    } else if symbols[horizon - 1].name@ == name {
        Some(horizon - 1)
    } else {
        lookup(symbols, name, horizon - 1)
    }
}

/// The declaration that a vector access refers to among the first `horizon`
/// declarations, or the error that the access is rejected with: `Undeclared`
/// where the name is not declared, `InvalidUsage` where it is declared as
/// something without elements, `IndexOutOfRange` where the index exceeds the
/// declared extent.
pub open spec fn resolve_vector(
    symbols: Seq<Symbol>,
    name: Seq<char>,
    idx: usize,
    horizon: int,
) -> Result<int, SemanticErrorView> {
    match lookup(symbols, name, horizon) {
        None => Err(SemanticErrorView::Undeclared(name)),
        Some(i) => {
            if !symbols[i].ty.vector_like() {
                Err(SemanticErrorView::InvalidUsage(name))
            } else if !symbols[i].ty.vector_index_ok(idx) {
                Err(SemanticErrorView::IndexOutOfRange(name))
            } else {
                Ok(i)
            }
        },
    }
}

/// The declaration that a matrix access refers to among the first `horizon`
/// declarations, or the error that the access is rejected with, as for
/// [`resolve_vector`].
pub open spec fn resolve_matrix(
    symbols: Seq<Symbol>,
    name: Seq<char>,
    row: usize,
    col: usize,
    horizon: int,
) -> Result<int, SemanticErrorView> {
    match lookup(symbols, name, horizon) {
        None => Err(SemanticErrorView::Undeclared(name)),
        Some(i) => {
            if !symbols[i].ty.matrix_like() {
                Err(SemanticErrorView::InvalidUsage(name))
            } else if !symbols[i].ty.matrix_index_ok(row, col) {
                Err(SemanticErrorView::IndexOutOfRange(name))
            } else {
                Ok(i)
            }
        },
    }
}

/// Whether every group of trace columns among the declarations lies within
/// the declared widths.
pub open spec fn table_wf(symbols: Seq<Symbol>, widths: Seq<u16>) -> bool {
    forall|i: int| 0 <= i < symbols.len() ==> (#[trigger] symbols[i]).ty.fits(widths)
}

/// Whether a variable of `scope` may not take `name`: the name is declared,
/// and not as a variable of that scope.
pub open spec fn variable_clash(symbols: Seq<Symbol>, name: Seq<char>, scope: Scope) -> bool {
    lookup(symbols, name, symbols.len() as int) matches Some(i) && !symbols[i].ty.variable_of(scope)
}

/// The width of a segment, which is 0 for a segment not yet declared.
pub open spec fn width_of(widths: Seq<u16>, segment: TraceSegment) -> u16 {
    if segment < widths.len() {
        widths[segment as int]
    } else {
        0
    }
}

/// The widths after `segment` is given the width `width`: the segments
/// before it that were not declared yet have the width 0.
pub open spec fn widths_with(widths: Seq<u16>, segment: TraceSegment, width: u16) -> Seq<u16> {
    Seq::new(
        if segment < widths.len() {
            widths.len()
        } else {
            (segment + 1) as nat
        },
        |i: int|
            if i == segment {
                width
            } else if i < widths.len() {
                widths[i]
            } else {
                0u16
            },
    )
}

/// The widths after `ty` is declared: a group of trace columns widens its
/// segment up to the last column of the group, where the segment is not
/// that wide already; any other declaration leaves the widths as they are.
pub open spec fn widths_declared(widths: Seq<u16>, ty: IdentifierType) -> Seq<u16> {
    match ty {
        IdentifierType::TraceColumns(c) => {
            let width = width_of(widths, c.trace_segment);
            widths_with(
                widths,
                c.trace_segment,
                if c.offset + c.size > width {
                    (c.offset + c.size) as u16
                } else {
                    width
                },
            )
        },
        _ => widths,
    }
}

/// Gives a segment a width, and the segments before it that have none the
/// width 0.
fn widen(widths: &mut Vec<u16>, segment: TraceSegment, width: u16)
    ensures
        final(widths)@ == widths_with(old(widths)@, segment, width),
{
    let index = segment as usize;
    while widths.len() <= index
        invariant
            index == segment,
            old(widths)@.len() <= widths@.len(),
            widths@.len() <= index + 1 || widths@.len() == old(widths)@.len(),
            forall|i: int|
                0 <= i < widths@.len() ==> widths@[i] == (if i < old(widths)@.len() {
                    old(widths)@[i]
                } else {
                    0u16
                }),
        decreases index + 1 - widths.len(),
    {
        widths.push(0);
    }
    widths.set(index, width);
    assert(widths@ =~= widths_with(old(widths)@, segment, width));
}

/// The declarations and widths of a table.
pub struct TableState {
    pub symbols: Seq<Symbol>,
    pub widths: Seq<u16>,
}

/// The table after a group of `size` columns named `name` is declared at
/// the end of `segment`, or the error that the group is rejected with:
/// `DuplicateIdentifier` where the name is declared already,
/// `IndexOutOfRange` where the segment would get more than `u16::MAX`
/// columns.
pub open spec fn group_declared(
    t: TableState,
    segment: TraceSegment,
    name: String,
    size: u64,
) -> Result<TableState, SemanticErrorView> {
    let width = width_of(t.widths, segment);
    if lookup(t.symbols, name@, t.symbols.len() as int) is Some {
        Err(SemanticErrorView::DuplicateIdentifier(name@))
    } else if width + size > u16::MAX {
        Err(SemanticErrorView::IndexOutOfRange(name@))
    } else {
        Ok(
            TableState {
                symbols: t.symbols.push(
                    Symbol {
                        name,
                        ty: IdentifierType::TraceColumns(
                            TraceColumns {
                                trace_segment: segment,
                                offset: width as usize,
                                size: size as usize,
                            },
                        ),
                    },
                ),
                widths: widths_with(t.widths, segment, (width + size) as u16),
            },
        )
    }
}

/// The table after the groups `columns[from..]` are declared one after the
/// other at the end of `segment`, up to the first that is rejected, and the
/// error of that one.
pub open spec fn columns_declared(
    t: TableState,
    segment: TraceSegment,
    columns: Seq<TraceCols>,
    from: int,
) -> (TableState, Option<SemanticErrorView>)
    decreases columns.len() - from,
{
    if from < 0 || from >= columns.len() {
        (t, None)
    } else {
        match group_declared(t, segment, columns[from].name.0, columns[from].size) {
            Err(e) => (t, Some(e)),
            Ok(next) => columns_declared(next, segment, columns, from + 1),
        }
    }
}

/// The number of declarations that are left when the variables of `scope`
/// that stand last are dropped.
pub open spec fn scope_start(symbols: Seq<Symbol>, scope: Scope) -> int
    decreases symbols.len(),
{
    if symbols.len() > 0 && symbols.last().ty.variable_of(scope) {
        scope_start(symbols.drop_last(), scope)
    } else {
        symbols.len() as int
    }
}

/// The symbol table of a program.
#[derive(Debug)]
pub struct SymbolTable {
    symbols: Vec<Symbol>,
    segment_widths: Vec<u16>,
}

impl SymbolTable {
    /// The declarations, in the order in which they were made.
    pub closed spec fn symbols(&self) -> Seq<Symbol> {
        self.symbols@
    }

    /// The declared width of each trace segment.
    pub closed spec fn widths(&self) -> Seq<u16> {
        self.segment_widths@
    }

    /// Whether every declared group of trace columns lies within its
    /// segment.
    pub open spec fn wf(&self) -> bool {
        table_wf(self.symbols(), self.widths())
    }

    /// Creates a table with no declaration and no trace segment.
    pub fn new() -> (r: Self)
        ensures
            r.symbols() == Seq::<Symbol>::empty(),
            r.widths() == Seq::<u16>::empty(),
            r.wf(),
    {
        SymbolTable { symbols: Vec::new(), segment_widths: Vec::new() }
    }

    /// Returns the number of declarations.
    pub fn num_symbols(&self) -> (r: usize)
        ensures
            r == self.symbols().len(),
    {
        self.symbols.len()
    }

    /// Returns the declaration at the given position of the declaration
    /// order.
    pub fn symbol(&self, index: usize) -> (r: &Symbol)
        requires
            index < self.symbols().len(),
        ensures
            *r == self.symbols()[index as int],
            self.wf() ==> r.ty.fits(self.widths()),
    {
        &self.symbols[index]
    }

    /// Returns the declared width of each trace segment: the main segment
    /// first, then the auxiliary one.
    pub fn segment_widths(&self) -> (r: &Vec<u16>)
        ensures
            r@ == self.widths(),
    {
        &self.segment_widths
    }

    /// Returns the position of the declaration that `name` refers to among
    /// the first `horizon` declarations.
    pub fn find(&self, name: &str, horizon: usize) -> (r: Option<usize>)
        ensures
            match lookup(self.symbols(), name@, horizon as int) {
                Some(i) => r == Some(i as usize) && 0 <= i < horizon && i < self.symbols().len(),
                None => r is None,
            },
    {
        let key = name.to_owned();
        let mut i: usize = if horizon < self.symbols.len() {
            horizon
        } else {
            self.symbols.len()
        };
        while i > 0
            invariant
                i <= self.symbols.len(),
                i <= horizon,
                key@ == name@,
                lookup(self.symbols(), name@, horizon as int) == lookup(
                    self.symbols(),
                    name@,
                    i as int,
                ),
            decreases i,
        {
            if self.symbols[i - 1].name == key {
                return Some(i - 1);
            }
            i = i - 1;
        }
        None
    }

    /// Returns what `name` was declared as. Fails with `Undeclared` where no
    /// declaration has that name.
    pub fn get_type(&self, name: &str) -> (r: Result<&IdentifierType, SemanticError>)
        ensures
            match lookup(self.symbols(), name@, self.symbols().len() as int) {
                Some(i) => r matches Ok(ty) && *ty == self.symbols()[i].ty,
                None => r matches Err(e) && e@ == SemanticErrorView::Undeclared(name@),
            },
    {
        match self.find(name, self.symbols.len()) {
            Some(i) => Ok(&self.symbols[i].ty),
            None => Err(SemanticError::Undeclared(name.to_owned())),
        }
    }

    /// Returns the position of the declaration that a vector access refers
    /// to among the first `horizon` declarations, after checking that the
    /// declaration has elements and that the index is within its extent.
    pub fn find_vector(&self, access: &VectorAccess, horizon: usize) -> (r: Result<
        usize,
        SemanticError,
    >)
        ensures
            match resolve_vector(self.symbols(), access.name@, access.idx, horizon as int) {
                Ok(i) => r == Ok::<usize, SemanticError>(i as usize) && 0 <= i < horizon && i
                    < self.symbols().len(),
                Err(e) => r matches Err(err) && err@ == e,
            },
    {
        match self.find(access.name(), horizon) {
            None => Err(SemanticError::Undeclared(access.name.0.clone())),
            Some(i) => {
                let in_range = match &self.symbols[i].ty {
                    IdentifierType::Constant(ConstantType::Vector(v)) => Some(access.idx < v.len()),
                    IdentifierType::PublicInput(n) => Some(access.idx < *n),
                    IdentifierType::TraceColumns(c) => Some(access.idx < c.size),
                    IdentifierType::BoundaryVariable(VariableType::Vector(v)) => Some(
                        access.idx < v.len(),
                    ),
                    IdentifierType::BoundaryVariable(VariableType::ListComprehension(_)) => Some(
                        true,
                    ),
                    IdentifierType::IntegrityVariable(VariableType::Vector(v)) => Some(
                        access.idx < v.len(),
                    ),
                    IdentifierType::IntegrityVariable(VariableType::ListComprehension(_)) => Some(
                        true,
                    ),
                    IdentifierType::RandomValuesBinding(_, n) => Some(access.idx < *n),
                    _ => None,
                };
                match in_range {
                    None => Err(SemanticError::InvalidUsage(access.name.0.clone())),
                    Some(false) => Err(SemanticError::IndexOutOfRange(access.name.0.clone())),
                    Some(true) => Ok(i),
                }
            },
        }
    }

    /// Returns the position of the declaration that a matrix access refers
    /// to among the first `horizon` declarations, after checking that the
    /// declaration is a matrix and that the indices are within its extent.
    pub fn find_matrix(&self, access: &MatrixAccess, horizon: usize) -> (r: Result<
        usize,
        SemanticError,
    >)
        ensures
            match resolve_matrix(
                self.symbols(),
                access.name@,
                access.row_idx,
                access.col_idx,
                horizon as int,
            ) {
                Ok(i) => r == Ok::<usize, SemanticError>(i as usize) && 0 <= i < horizon && i
                    < self.symbols().len(),
                Err(e) => r matches Err(err) && err@ == e,
            },
    {
        match self.find(access.name(), horizon) {
            None => Err(SemanticError::Undeclared(access.name.0.clone())),
            Some(i) => {
                let in_range = match &self.symbols[i].ty {
                    IdentifierType::Constant(ConstantType::Matrix(m)) => Some(
                        access.row_idx < m.len() && access.col_idx < m[access.row_idx].len(),
                    ),
                    IdentifierType::BoundaryVariable(VariableType::Matrix(m)) => Some(
                        access.row_idx < m.len() && access.col_idx < m[access.row_idx].len(),
                    ),
                    IdentifierType::IntegrityVariable(VariableType::Matrix(m)) => Some(
                        access.row_idx < m.len() && access.col_idx < m[access.row_idx].len(),
                    ),
                    _ => None,
                };
                match in_range {
                    None => Err(SemanticError::InvalidUsage(access.name.0.clone())),
                    Some(false) => Err(SemanticError::IndexOutOfRange(access.name.0.clone())),
                    Some(true) => Ok(i),
                }
            },
        }
    }

    /// Resolves the name of a vector access and checks the index against the
    /// declared extent. Returns what the name was declared as: the vector,
    /// the group of trace columns, the public inputs or the variable itself.
    ///
    /// Fails with `Undeclared` where the name is not declared, with
    /// `InvalidUsage` where it is declared as something without elements,
    /// and with `IndexOutOfRange` where the index exceeds the extent.
    pub fn access_vector_element(&self, access: &VectorAccess) -> (r: Result<
        &IdentifierType,
        SemanticError,
    >)
        ensures
            match resolve_vector(
                self.symbols(),
                access.name@,
                access.idx,
                self.symbols().len() as int,
            ) {
                Ok(i) => r matches Ok(ty) && *ty == self.symbols()[i].ty,
                Err(e) => r matches Err(err) && err@ == e,
            },
    {
        match self.find_vector(access, self.symbols.len()) {
            Ok(i) => Ok(&self.symbols[i].ty),
            Err(e) => Err(e),
        }
    }

    /// Resolves the name of a matrix access and checks the row and the
    /// column against the declared extent. Returns what the name was
    /// declared as.
    ///
    /// Fails with `Undeclared` where the name is not declared, with
    /// `InvalidUsage` where it is not declared as a matrix, and with
    /// `IndexOutOfRange` where the row or the column exceeds the extent.
    pub fn access_matrix_element(&self, access: &MatrixAccess) -> (r: Result<
        &IdentifierType,
        SemanticError,
    >)
        ensures
            match resolve_matrix(
                self.symbols(),
                access.name@,
                access.row_idx,
                access.col_idx,
                self.symbols().len() as int,
            ) {
                Ok(i) => r matches Ok(ty) && *ty == self.symbols()[i].ty,
                Err(e) => r matches Err(err) && err@ == e,
            },
    {
        match self.find_matrix(access, self.symbols.len()) {
            Ok(i) => Ok(&self.symbols[i].ty),
            Err(e) => Err(e),
        }
    }

    /// The declarations and the widths together.
    pub open spec fn state(&self) -> TableState {
        TableState { symbols: self.symbols(), widths: self.widths() }
    }

    /// Declares `name` as `ty`. No name is declared twice: the call fails
    /// with `DuplicateIdentifier` where the name is declared already, and
    /// leaves the table as it was. A group of trace columns widens its
    /// segment up to its last column, as [`widths_declared`] says; one that
    /// ends beyond column `u16::MAX`, which no segment can have, is rejected
    /// with `IndexOutOfRange`.
    pub fn declare(&mut self, name: String, ty: IdentifierType) -> (r: Result<(), SemanticError>)
        requires
            old(self).wf(),
        ensures
            final(self).wf(),
            if lookup(old(self).symbols(), name@, old(self).symbols().len() as int) is Some {
                &&& r matches Err(e) && e@ == SemanticErrorView::DuplicateIdentifier(name@)
                &&& final(self).state() == old(self).state()
            } else if ty.beyond_any_segment() {
                &&& r matches Err(e) && e@ == SemanticErrorView::IndexOutOfRange(name@)
                &&& final(self).state() == old(self).state()
            } else {
                &&& r is Ok
                &&& final(self).symbols() == old(self).symbols().push(Symbol { name, ty })
                &&& final(self).widths() == widths_declared(old(self).widths(), ty)
            },
    {
        if self.find(name.as_str(), self.symbols.len()).is_some() {
            return Err(SemanticError::DuplicateIdentifier(name));
        }
        match &ty {
            IdentifierType::TraceColumns(c) => {
                let limit = u16::MAX as usize;
                if c.size > limit || c.offset > limit - c.size {
                    return Err(SemanticError::IndexOutOfRange(name));
                }
                let end = (c.offset + c.size) as u16;
                let index = c.trace_segment as usize;
                let width: u16 = if index < self.segment_widths.len() {
                    self.segment_widths[index]
                } else {
                    0
                };
                widen(&mut self.segment_widths, c.trace_segment, if end > width {
                    end
                } else {
                    width
                });
            },
            _ => {},
        }
        self.symbols.push(Symbol { name, ty });
        Ok(())
    }

    /// Declares a variable of the given scope. The name may be that of an
    /// earlier variable of the same scope, which the new one then hides;
    /// where it is declared as anything else, the call fails with
    /// `DuplicateIdentifier` and leaves the table as it was.
    pub fn declare_variable(&mut self, scope: Scope, name: String, value: VariableType) -> (r:
        Result<(), SemanticError>)
        requires
            old(self).wf(),
        ensures
            final(self).wf(),
            final(self).widths() == old(self).widths(),
            if variable_clash(old(self).symbols(), name@, scope) {
                &&& r matches Err(e) && e@ == SemanticErrorView::DuplicateIdentifier(name@)
                &&& final(self).symbols() == old(self).symbols()
            } else {
                &&& r is Ok
                &&& final(self).symbols() == old(self).symbols().push(
                    Symbol {
                        name,
                        ty: match scope {
                            Scope::Boundary => IdentifierType::BoundaryVariable(value),
                            Scope::Integrity => IdentifierType::IntegrityVariable(value),
                        },
                    },
                )
            },
    {
        let clash = match self.find(name.as_str(), self.symbols.len()) {
            None => false,
            Some(i) => match (&self.symbols[i].ty, scope) {
                (IdentifierType::BoundaryVariable(_), Scope::Boundary) => false,
                (IdentifierType::IntegrityVariable(_), Scope::Integrity) => false,
                _ => true,
            },
        };
        if clash {
            return Err(SemanticError::DuplicateIdentifier(name));
        }
        let ty = match scope {
            Scope::Boundary => IdentifierType::BoundaryVariable(value),
            Scope::Integrity => IdentifierType::IntegrityVariable(value),
        };
        self.symbols.push(Symbol { name, ty });
        Ok(())
    }

    /// Ends a constraint section: drops the variables of `scope` that were
    /// declared last, down to the latest declaration that is not one.
    pub fn end_scope(&mut self, scope: Scope)
        requires
            old(self).wf(),
        ensures
            final(self).wf(),
            final(self).widths() == old(self).widths(),
            final(self).symbols() == old(self).symbols().take(
                scope_start(old(self).symbols(), scope),
            ),
    {
        loop
            invariant
                self.wf(),
                self.widths() == old(self).widths(),
                self.symbols().len() <= old(self).symbols().len(),
                self.symbols() == old(self).symbols().take(self.symbols().len() as int),
                scope_start(self.symbols(), scope) == scope_start(old(self).symbols(), scope),
            ensures
                scope_start(self.symbols(), scope) == self.symbols().len(),
            decreases self.symbols().len(),
        {
            let n = self.symbols.len();
            if n == 0 {
                break;
            }
            let is_variable = match (&self.symbols[n - 1].ty, scope) {
                (IdentifierType::BoundaryVariable(_), Scope::Boundary) => true,
                (IdentifierType::IntegrityVariable(_), Scope::Integrity) => true,
                _ => false,
            };
            if !is_variable {
                break;
            }
            let ghost before = self.symbols();
            self.symbols.pop();
            proof {
                assert(self.symbols() == before.drop_last());
                assert(before.drop_last() == old(self).symbols().take(before.len() - 1));
            }
        }
    }

    /// Declares a group of `size` adjacent columns at the end of the given
    /// trace segment, and widens the segment by them. Fails, and leaves the
    /// table as it was, where [`group_declared`] rejects the group.
    pub fn declare_trace_group(&mut self, segment: TraceSegment, name: String, size: u64) -> (r:
        Result<(), SemanticError>)
        requires
            old(self).wf(),
        ensures
            final(self).wf(),
            match group_declared(old(self).state(), segment, name, size) {
                Ok(t) => r is Ok && final(self).state() == t,
                Err(e) => r matches Err(err) && err@ == e && final(self).state() == old(
                    self,
                ).state(),
            },
    {
        if self.find(name.as_str(), self.symbols.len()).is_some() {
            return Err(SemanticError::DuplicateIdentifier(name));
        }
        let index = segment as usize;
        let width: u16 = if index < self.segment_widths.len() {
            self.segment_widths[index]
        } else {
            0
        };
        if size > (u16::MAX - width) as u64 {
            return Err(SemanticError::IndexOutOfRange(name));
        }
        let new_width: u16 = width + size as u16;
        widen(&mut self.segment_widths, segment, new_width);
        let columns = TraceColumns {
            trace_segment: segment,
            offset: width as usize,
            size: size as usize,
        };
        self.symbols.push(Symbol { name, ty: IdentifierType::TraceColumns(columns) });
        Ok(())
    }

    /// Declares the groups of columns of a trace segment in the order given:
    /// each starts at the column after the last one of the group before it.
    /// Stops at the first group that is rejected, with its error; the groups
    /// before that one stay declared.
    pub fn declare_trace_columns(&mut self, segment: TraceSegment, columns: &Vec<TraceCols>) -> (r:
        Result<(), SemanticError>)
        requires
            old(self).wf(),
        ensures
            final(self).wf(),
            final(self).state() == columns_declared(old(self).state(), segment, columns@, 0).0,
            match columns_declared(old(self).state(), segment, columns@, 0).1 {
                None => r is Ok,
                Some(e) => r matches Err(err) && err@ == e,
            },
    {
        let mut i: usize = 0;
        while i < columns.len()
            invariant
                i <= columns.len(),
                self.wf(),
                columns_declared(old(self).state(), segment, columns@, 0) == columns_declared(
                    self.state(),
                    segment,
                    columns@,
                    i as int,
                ),
            decreases columns.len() - i,
        {
            let name = columns[i].name.0.clone();
            match self.declare_trace_group(segment, name, columns[i].size) {
                Ok(()) => {},
                Err(e) => {
                    return Err(e);
                },
            }
            i = i + 1;
        }
        Ok(())
    }
}

} // verus!
