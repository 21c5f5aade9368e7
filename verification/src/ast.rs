//! The parsed program: identifiers, accesses, expressions and variables, as
//! the parser hands them to semantic analysis.

use vstd::prelude::*;

verus! {

/// The index of a trace segment: 0 is the main segment, 1 the auxiliary one.
pub type TraceSegment = u8;

/// The name of a declaration or of a variable.
#[derive(Debug, PartialEq, Eq, PartialOrd, Ord)]
pub struct Identifier(pub String);

impl Clone for Identifier {
    fn clone(&self) -> (r: Self)
        ensures
            r == *self,
    {
        Identifier(self.0.clone())
    }
}

impl View for Identifier {
    type V = Seq<char>;

    open spec fn view(&self) -> Seq<char> {
        self.0@
    }
}

impl Identifier {
    /// Returns the name of the identifier.
    pub fn name(&self) -> (r: &str)
        ensures
            r@ == self@,
    {
        self.0.as_str()
    }

    /// Consumes the identifier and returns its name.
    pub fn into_name(self) -> (r: String)
        ensures
            r@ == self@,
    {
        self.0
    }
}

/// An element of a vector, by the vector's name and the element's index.
#[derive(Debug, PartialEq, Eq, PartialOrd, Ord)]
pub struct VectorAccess {
    pub name: Identifier,
    pub idx: usize,
}

impl Clone for VectorAccess {
    fn clone(&self) -> (r: Self)
        ensures
            r == *self,
    {
        VectorAccess { name: self.name.clone(), idx: self.idx }
    }
}

impl View for VectorAccess {
    type V = (Seq<char>, usize);

    open spec fn view(&self) -> (Seq<char>, usize) {
        (self.name@, self.idx)
    }
}

impl VectorAccess {
    /// Creates a vector access with the given name and index.
    pub fn new(name: Identifier, idx: usize) -> (r: Self)
        ensures
            r == (VectorAccess { name, idx }),
    {
        VectorAccess { name, idx }
    }

    /// Returns the name of the vector.
    pub fn name(&self) -> (r: &str)
        ensures
            r@ == self.name@,
    {
        self.name.name()
    }

    /// Returns the index of the element.
    pub fn idx(&self) -> (r: usize)
        ensures
            r == self.idx,
    {
        self.idx
    }
}

/// An element of a matrix, by the matrix's name and the element's row and
/// column.
#[derive(Debug, PartialEq, Eq, PartialOrd, Ord)]
pub struct MatrixAccess {
    pub name: Identifier,
    pub row_idx: usize,
    pub col_idx: usize,
}

impl Clone for MatrixAccess {
    fn clone(&self) -> (r: Self)
        ensures
            r == *self,
    {
        MatrixAccess { name: self.name.clone(), row_idx: self.row_idx, col_idx: self.col_idx }
    }
}

impl View for MatrixAccess {
    type V = (Seq<char>, usize, usize);

    open spec fn view(&self) -> (Seq<char>, usize, usize) {
        (self.name@, self.row_idx, self.col_idx)
    }
}

impl MatrixAccess {
    /// Creates a matrix access with the given name and indices.
    pub fn new(name: Identifier, row_idx: usize, col_idx: usize) -> (r: Self)
        ensures
            r == (MatrixAccess { name, row_idx, col_idx }),
    {
        MatrixAccess { name, row_idx, col_idx }
    }

    /// Returns the name of the matrix.
    pub fn name(&self) -> (r: &str)
        ensures
            r@ == self.name@,
    {
        self.name.name()
    }

    /// Returns the row of the element.
    pub fn row_idx(&self) -> (r: usize)
        ensures
            r == self.row_idx,
    {
        self.row_idx
    }

    /// Returns the column of the element.
    pub fn col_idx(&self) -> (r: usize)
        ensures
            r == self.col_idx,
    {
        self.col_idx
    }
}

/// A range of indices, from `start` up to but not including `end`.
#[derive(Debug, Clone, Copy, PartialEq, Eq, Structural)]
pub struct Range {
    pub start: usize,
    pub end: usize,
}

impl Range {
    /// Creates the range from `start` to `end`.
    pub fn new(start: usize, end: usize) -> (r: Self)
        ensures
            r == (Range { start, end }),
    {
        Range { start, end }
    }

    /// Returns the first index of the range.
    pub fn start(&self) -> (r: usize)
        ensures
            r == self.start,
    {
        self.start
    }

    /// Returns the index after the last one of the range.
    pub fn end(&self) -> (r: usize)
        ensures
            r == self.end,
    {
        self.end
    }
}

/// A cell of the execution trace, by position: the segment, the column
/// within the segment, and the row as an offset from the current one (0 is
/// the current row, 1 the next).
#[derive(Debug, Clone, Copy, PartialEq, Eq, Structural)]
pub struct IndexedTraceAccess {
    pub trace_segment: TraceSegment,
    pub col_idx: usize,
    pub row_offset: usize,
}

impl IndexedTraceAccess {
    /// Creates the access to the given segment, column and row offset.
    pub fn new(trace_segment: TraceSegment, col_idx: usize, row_offset: usize) -> (r: Self)
        ensures
            r == (IndexedTraceAccess { trace_segment, col_idx, row_offset }),
    {
        IndexedTraceAccess { trace_segment, col_idx, row_offset }
    }

    /// Returns the trace segment.
    pub fn trace_segment(&self) -> (r: TraceSegment)
        ensures
            r == self.trace_segment,
    {
        self.trace_segment
    }

    /// Returns the column within the segment.
    pub fn col_idx(&self) -> (r: usize)
        ensures
            r == self.col_idx,
    {
        self.col_idx
    }

    /// Returns the offset from the current row.
    pub fn row_offset(&self) -> (r: usize)
        ensures
            r == self.row_offset,
    {
        self.row_offset
    }
}

/// A cell of the execution trace, by name: the group of columns, the column
/// within the group, and the row offset. For a group of one column the index
/// is zero.
#[derive(Debug, PartialEq, Eq)]
pub struct NamedTraceAccess {
    pub name: Identifier,
    pub idx: usize,
    pub row_offset: usize,
}

impl Clone for NamedTraceAccess {
    fn clone(&self) -> (r: Self)
        ensures
            r == *self,
    {
        NamedTraceAccess { name: self.name.clone(), idx: self.idx, row_offset: self.row_offset }
    }
}

impl View for NamedTraceAccess {
    type V = (Seq<char>, usize, usize);

    open spec fn view(&self) -> (Seq<char>, usize, usize) {
        (self.name@, self.idx, self.row_offset)
    }
}

impl NamedTraceAccess {
    /// Creates the access to column `idx` of the named group at the given
    /// row offset.
    pub fn new(name: Identifier, idx: usize, row_offset: usize) -> (r: Self)
        ensures
            r == (NamedTraceAccess { name, idx, row_offset }),
    {
        NamedTraceAccess { name, idx, row_offset }
    }

    /// Returns the name of the group of columns.
    pub fn name(&self) -> (r: &str)
        ensures
            r@ == self.name@,
    {
        self.name.name()
    }

    /// Returns the column within the group.
    pub fn idx(&self) -> (r: usize)
        ensures
            r == self.idx,
    {
        self.idx
    }

    /// Returns the offset from the current row.
    pub fn row_offset(&self) -> (r: usize)
        ensures
            r == self.row_offset,
    {
        self.row_offset
    }
}

/// An arithmetic expression of a constraint.
#[derive(Debug, PartialEq, Eq)]
pub enum Expression {
    /// A literal.
    Const(u64),
    /// A named constant, column, periodic column or variable.
    Elem(Identifier),
    /// An element of a named vector.
    VectorAccess(VectorAccess),
    /// An element of a named matrix.
    MatrixAccess(MatrixAccess),
    /// A trace cell by position.
    IndexedTraceAccess(IndexedTraceAccess),
    /// A trace cell by name.
    NamedTraceAccess(NamedTraceAccess),
    /// A random value supplied by the verifier, by its index.
    Rand(usize),
    Add(Box<Expression>, Box<Expression>),
    Sub(Box<Expression>, Box<Expression>),
    Mul(Box<Expression>, Box<Expression>),
    /// A power; the second operand is the exponent.
    Exp(Box<Expression>, Box<Expression>),
    /// The sum or product of a list.
    ListFolding(ListFoldingType),
}

/// How a list is folded into one value.
#[derive(Debug, PartialEq, Eq)]
pub enum ListFoldingType {
    Sum(ListComprehension),
    Prod(ListComprehension),
}

impl Clone for Expression {
    fn clone(&self) -> (r: Self)
        ensures
            r@ == self@,
        decreases self,
    {
        match self {
            Expression::Const(v) => Expression::Const(*v),
            Expression::Elem(id) => Expression::Elem(id.clone()),
            Expression::VectorAccess(a) => Expression::VectorAccess(a.clone()),
            Expression::MatrixAccess(a) => Expression::MatrixAccess(a.clone()),
            Expression::IndexedTraceAccess(a) => Expression::IndexedTraceAccess(*a),
            Expression::NamedTraceAccess(a) => Expression::NamedTraceAccess(a.clone()),
            Expression::Rand(i) => Expression::Rand(*i),
            Expression::Add(l, r) => Expression::Add(
                Box::new((&**l).clone()),
                Box::new((&**r).clone()),
            ),
            Expression::Sub(l, r) => Expression::Sub(
                Box::new((&**l).clone()),
                Box::new((&**r).clone()),
            ),
            Expression::Mul(l, r) => Expression::Mul(
                Box::new((&**l).clone()),
                Box::new((&**r).clone()),
            ),
            Expression::Exp(l, r) => Expression::Exp(
                Box::new((&**l).clone()),
                Box::new((&**r).clone()),
            ),
            Expression::ListFolding(f) => Expression::ListFolding(f.clone()),
        }
    }
}

impl Clone for ListFoldingType {
    fn clone(&self) -> (r: Self)
        ensures
            r@ == self@,
        decreases self,
    {
        match self {
            ListFoldingType::Sum(lc) => ListFoldingType::Sum(lc.clone()),
            ListFoldingType::Prod(lc) => ListFoldingType::Prod(lc.clone()),
        }
    }
}

/// The mathematical value of an [`Expression`].
pub enum ExpressionView {
    Const(u64),
    Elem(Seq<char>),
    VectorAccess(Seq<char>, usize),
    MatrixAccess(Seq<char>, usize, usize),
    IndexedTraceAccess(IndexedTraceAccess),
    NamedTraceAccess(Seq<char>, usize, usize),
    Rand(usize),
    Add(Box<ExpressionView>, Box<ExpressionView>),
    Sub(Box<ExpressionView>, Box<ExpressionView>),
    Mul(Box<ExpressionView>, Box<ExpressionView>),
    Exp(Box<ExpressionView>, Box<ExpressionView>),
    ListFolding(ListFoldingTypeView),
}

/// The mathematical value of a [`ListFoldingType`].
pub enum ListFoldingTypeView {
    Sum(ListComprehensionView),
    Prod(ListComprehensionView),
}

/// The mathematical value of an [`Iterable`].
pub enum IterableView {
    Identifier(Seq<char>),
    Range(Range),
    Slice(Seq<char>, Range),
}

/// The mathematical value of a [`ListComprehension`].
pub struct ListComprehensionView {
    pub expression: Box<ExpressionView>,
    pub context: Seq<(Seq<char>, IterableView)>,
}

/// The mathematical value of a member of a list comprehension with what
/// it ranges over.
pub open spec fn member_view(member: (Identifier, Iterable)) -> (Seq<char>, IterableView) {
    (member.0@, member.1@)
}

/// The mathematical value of an expression: names are sequences of
/// characters, lists are sequences.
pub open spec fn expression_view(expr: Expression) -> ExpressionView
    decreases expr,
{
    match expr {
        Expression::Const(v) => ExpressionView::Const(v),
        Expression::Elem(id) => ExpressionView::Elem(id@),
        Expression::VectorAccess(a) => ExpressionView::VectorAccess(a.name@, a.idx),
        Expression::MatrixAccess(a) => ExpressionView::MatrixAccess(a.name@, a.row_idx, a.col_idx),
        Expression::IndexedTraceAccess(a) => ExpressionView::IndexedTraceAccess(a),
        Expression::NamedTraceAccess(a) => ExpressionView::NamedTraceAccess(
            a.name@,
            a.idx,
            a.row_offset,
        ),
        Expression::Rand(i) => ExpressionView::Rand(i),
        Expression::Add(l, r) => ExpressionView::Add(
            Box::new(expression_view(*l)),
            Box::new(expression_view(*r)),
        ),
        Expression::Sub(l, r) => ExpressionView::Sub(
            Box::new(expression_view(*l)),
            Box::new(expression_view(*r)),
        ),
        Expression::Mul(l, r) => ExpressionView::Mul(
            Box::new(expression_view(*l)),
            Box::new(expression_view(*r)),
        ),
        Expression::Exp(l, r) => ExpressionView::Exp(
            Box::new(expression_view(*l)),
            Box::new(expression_view(*r)),
        ),
        Expression::ListFolding(ListFoldingType::Sum(lc)) => ExpressionView::ListFolding(
            ListFoldingTypeView::Sum(
                ListComprehensionView {
                    expression: Box::new(expression_view(*lc.expression)),
                    context: lc.context@.map_values(|m: (Identifier, Iterable)| member_view(m)),
                },
            ),
        ),
        Expression::ListFolding(ListFoldingType::Prod(lc)) => ExpressionView::ListFolding(
            ListFoldingTypeView::Prod(
                ListComprehensionView {
                    expression: Box::new(expression_view(*lc.expression)),
                    context: lc.context@.map_values(|m: (Identifier, Iterable)| member_view(m)),
                },
            ),
        ),
    }
}

impl View for Expression {
    type V = ExpressionView;

    open spec fn view(&self) -> ExpressionView {
        expression_view(*self)
    }
}

impl View for ListComprehension {
    type V = ListComprehensionView;

    open spec fn view(&self) -> ListComprehensionView {
        ListComprehensionView {
            expression: Box::new(expression_view(*self.expression)),
            context: self.context@.map_values(|m: (Identifier, Iterable)| member_view(m)),
        }
    }
}

impl View for ListFoldingType {
    type V = ListFoldingTypeView;

    open spec fn view(&self) -> ListFoldingTypeView {
        match *self {
            ListFoldingType::Sum(lc) => ListFoldingTypeView::Sum(lc@),
            ListFoldingType::Prod(lc) => ListFoldingTypeView::Prod(lc@),
        }
    }
}

impl View for Iterable {
    type V = IterableView;

    open spec fn view(&self) -> IterableView {
        match *self {
            Iterable::Identifier(id) => IterableView::Identifier(id@),
            Iterable::Range(r) => IterableView::Range(r),
            Iterable::Slice(id, r) => IterableView::Slice(id@, r),
        }
    }
}

impl Clone for Iterable {
    fn clone(&self) -> (r: Self)
        ensures
            r == *self,
    {
        match self {
            Iterable::Identifier(id) => Iterable::Identifier(id.clone()),
            Iterable::Range(r) => Iterable::Range(*r),
            Iterable::Slice(id, r) => Iterable::Slice(id.clone(), *r),
        }
    }
}

/// What a member of a list comprehension ranges over.
#[derive(Debug, PartialEq, Eq)]
pub enum Iterable {
    /// All elements of a named vector or group of columns.
    Identifier(Identifier),
    /// A range of integers.
    Range(Range),
    /// A range of the elements of a named vector or group of columns.
    Slice(Identifier, Range),
}

/// The members of a list comprehension, each with what it ranges over.
pub type ComprehensionContext = Vec<(Identifier, Iterable)>;

/// A list whose elements are one expression, evaluated once for each
/// position of the iterables that its members range over.
#[derive(Debug, PartialEq, Eq)]
pub struct ListComprehension {
    pub expression: Box<Expression>,
    pub context: ComprehensionContext,
}

impl Clone for ListComprehension {
    fn clone(&self) -> (r: Self)
        ensures
            r@ == self@,
        decreases self,
    {
        let mut context: Vec<(Identifier, Iterable)> = Vec::new();
        let mut i: usize = 0;
        while i < self.context.len()
            invariant
                i <= self.context@.len(),
                context@ == self.context@.take(i as int),
            decreases self.context@.len() - i,
        {
            let member = (self.context[i].0.clone(), self.context[i].1.clone());
            context.push(member);
            assert(context@ == self.context@.take(i + 1));
            i = i + 1;
        }
        assert(context@ == self.context@);
        ListComprehension { expression: Box::new((&*self.expression).clone()), context }
    }
}

impl ListComprehension {
    /// Creates a list comprehension.
    pub fn new(expression: Expression, context: ComprehensionContext) -> (r: Self)
        ensures
            *r.expression == expression,
            r.context == context,
    {
        ListComprehension { expression: Box::new(expression), context }
    }

    /// Returns the expression that is evaluated for each element.
    pub fn expression(&self) -> (r: &Expression)
        ensures
            *r == *self.expression,
    {
        &*self.expression
    }

    /// Returns the members with their iterables.
    pub fn context(&self) -> (r: &[(Identifier, Iterable)])
        ensures
            r@ == self.context@,
    {
        self.context.as_slice()
    }
}

/// The value bound to a variable.
#[derive(Debug, PartialEq, Eq)]
pub enum VariableType {
    Scalar(Expression),
    Vector(Vec<Expression>),
    Matrix(Vec<Vec<Expression>>),
    ListComprehension(ListComprehension),
}

/// The mathematical value of a [`VariableType`].
pub enum VariableTypeView {
    Scalar(ExpressionView),
    Vector(Seq<ExpressionView>),
    Matrix(Seq<Seq<ExpressionView>>),
    ListComprehension(ListComprehensionView),
}

/// The mathematical values of a list of expressions.
pub open spec fn expressions_view(list: Seq<Expression>) -> Seq<ExpressionView> {
    list.map_values(|e: Expression| e@)
}

/// The mathematical values of the rows of a matrix of expressions.
pub open spec fn rows_view(rows: Seq<Vec<Expression>>) -> Seq<Seq<ExpressionView>> {
    rows.map_values(|row: Vec<Expression>| expressions_view(row@))
}

impl View for VariableType {
    type V = VariableTypeView;

    open spec fn view(&self) -> VariableTypeView {
        match *self {
            VariableType::Scalar(e) => VariableTypeView::Scalar(e@),
            VariableType::Vector(list) => VariableTypeView::Vector(expressions_view(list@)),
            VariableType::Matrix(rows) => VariableTypeView::Matrix(rows_view(rows@)),
            VariableType::ListComprehension(lc) => VariableTypeView::ListComprehension(lc@),
        }
    }
}

/// Returns a copy of a list of expressions.
pub fn clone_expressions(list: &Vec<Expression>) -> (r: Vec<Expression>)
    ensures
        expressions_view(r@) == expressions_view(list@),
{
    let mut r: Vec<Expression> = Vec::new();
    let mut i: usize = 0;
    while i < list.len()
        invariant
            i <= list@.len(),
            r@.len() == i,
            forall|j: int| 0 <= j < i ==> (#[trigger] r@[j])@ == list@[j]@,
        decreases list@.len() - i,
    {
        r.push(list[i].clone());
        i = i + 1;
    }
    assert(expressions_view(r@) =~= expressions_view(list@));
    r
}

impl Clone for VariableType {
    fn clone(&self) -> (r: Self)
        ensures
            r@ == self@,
    {
        match self {
            VariableType::Scalar(e) => VariableType::Scalar(e.clone()),
            VariableType::Vector(list) => VariableType::Vector(clone_expressions(list)),
            VariableType::Matrix(rows) => {
                let mut r: Vec<Vec<Expression>> = Vec::new();
                let mut i: usize = 0;
                while i < rows.len()
                    invariant
                        i <= rows@.len(),
                        r@.len() == i,
                        forall|j: int|
                            0 <= j < i ==> expressions_view((#[trigger] r@[j])@)
                                == expressions_view(rows@[j]@),
                    decreases rows@.len() - i,
                {
                    r.push(clone_expressions(&rows[i]));
                    i = i + 1;
                }
                assert(rows_view(r@) =~= rows_view(rows@));
                VariableType::Matrix(r)
            },
            VariableType::ListComprehension(lc) => VariableType::ListComprehension(lc.clone()),
        }
    }
}

/// A `let` statement: a name bound to a value.
#[derive(Debug, PartialEq, Eq)]
pub struct VariableBinding {
    pub name: Identifier,
    pub value: VariableType,
}

impl View for VariableBinding {
    type V = (Seq<char>, VariableTypeView);

    open spec fn view(&self) -> (Seq<char>, VariableTypeView) {
        (self.name@, self.value@)
    }
}

impl Clone for VariableBinding {
    fn clone(&self) -> (r: Self)
        ensures
            r@ == self@,
    {
        VariableBinding { name: self.name.clone(), value: self.value.clone() }
    }
}

impl VariableBinding {
    /// Creates the binding of `value` to `name`.
    pub fn new(name: Identifier, value: VariableType) -> (r: Self)
        ensures
            r == (VariableBinding { name, value }),
    {
        VariableBinding { name, value }
    }

    /// Returns the name of the variable.
    pub fn name(&self) -> (r: &str)
        ensures
            r@ == self.name@,
    {
        self.name.name()
    }

    /// Returns the value bound to the variable.
    pub fn value(&self) -> (r: &VariableType)
        ensures
            *r == self.value,
    {
        &self.value
    }
}

/// The value of a named constant.
#[derive(Debug, PartialEq, Eq)]
pub enum ConstantType {
    Scalar(u64),
    Vector(Vec<u64>),
    Matrix(Vec<Vec<u64>>),
}

/// The mathematical value of a [`ConstantType`].
pub enum ConstantTypeView {
    Scalar(u64),
    Vector(Seq<u64>),
    Matrix(Seq<Seq<u64>>),
}

/// The rows of a matrix of numbers as sequences.
pub open spec fn number_rows_view(rows: Seq<Vec<u64>>) -> Seq<Seq<u64>> {
    rows.map_values(|row: Vec<u64>| row@)
}

impl View for ConstantType {
    type V = ConstantTypeView;

    open spec fn view(&self) -> ConstantTypeView {
        match *self {
            ConstantType::Scalar(v) => ConstantTypeView::Scalar(v),
            ConstantType::Vector(list) => ConstantTypeView::Vector(list@),
            ConstantType::Matrix(rows) => ConstantTypeView::Matrix(number_rows_view(rows@)),
        }
    }
}

/// Returns a copy of a list of numbers.
pub fn clone_numbers(list: &Vec<u64>) -> (r: Vec<u64>)
    ensures
        r@ == list@,
{
    let mut r: Vec<u64> = Vec::new();
    let mut i: usize = 0;
    while i < list.len()
        invariant
            i <= list@.len(),
            r@ == list@.take(i as int),
        decreases list@.len() - i,
    {
        r.push(list[i]);
        assert(r@ =~= list@.take(i + 1));
        i = i + 1;
    }
    assert(list@.take(i as int) == list@);
    r
}

impl Clone for ConstantType {
    fn clone(&self) -> (r: Self)
        ensures
            r@ == self@,
    {
        match self {
            ConstantType::Scalar(v) => ConstantType::Scalar(*v),
            ConstantType::Vector(list) => ConstantType::Vector(clone_numbers(list)),
            ConstantType::Matrix(rows) => {
                let mut r: Vec<Vec<u64>> = Vec::new();
                let mut i: usize = 0;
                while i < rows.len()
                    invariant
                        i <= rows@.len(),
                        r@.len() == i,
                        forall|j: int| 0 <= j < i ==> (#[trigger] r@[j])@ == rows@[j]@,
                    decreases rows@.len() - i,
                {
                    r.push(clone_numbers(&rows[i]));
                    i = i + 1;
                }
                assert(number_rows_view(r@) =~= number_rows_view(rows@));
                ConstantType::Matrix(r)
            },
        }
    }
}

/// A group of adjacent trace columns declared under one name.
#[derive(Debug, PartialEq, Eq)]
pub struct TraceCols {
    pub name: Identifier,
    pub size: u64,
}

impl Clone for TraceCols {
    fn clone(&self) -> (r: Self)
        ensures
            r == *self,
    {
        TraceCols { name: self.name.clone(), size: self.size }
    }
}

impl TraceCols {
    /// Creates a group of `size` columns.
    pub fn new(name: Identifier, size: u64) -> (r: Self)
        ensures
            r == (TraceCols { name, size }),
    {
        TraceCols { name, size }
    }

    /// Returns the name of the group.
    pub fn name(&self) -> (r: &str)
        ensures
            r@ == self.name@,
    {
        self.name.name()
    }

    /// Returns the number of columns in the group.
    pub fn size(&self) -> (r: u64)
        ensures
            r == self.size,
    {
        self.size
    }
}

} // verus!
