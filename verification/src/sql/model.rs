//! The statements that the services send, as plain values.
//!
//! Each exec type has a view of the same shape over `Seq<char>` and `Seq`,
//! in which the contracts of the statement builders are written.
use vstd::prelude::*;

verus! {

/// A literal value.
pub enum SqlValue {
    Text(String),
    Int(i64),
    Null,
}

pub enum SqlValueView {
    Text(Seq<char>),
    Int(i64),
    Null,
}

impl View for SqlValue {
    type V = SqlValueView;

    open spec fn view(&self) -> SqlValueView {
        match self {
            SqlValue::Text(s) => SqlValueView::Text(s@),
            SqlValue::Int(i) => SqlValueView::Int(*i),
            SqlValue::Null => SqlValueView::Null,
        }
    }
}

/// A column, possibly qualified by a table name or alias.
pub struct ColumnRef {
    pub table: Option<String>,
    pub column: String,
}

pub struct ColumnRefView {
    pub table: Option<Seq<char>>,
    pub column: Seq<char>,
}

impl View for ColumnRef {
    type V = ColumnRefView;

    open spec fn view(&self) -> ColumnRefView {
        ColumnRefView {
            table: match self.table {
                Some(t) => Some(t@),
                None => None,
            },
            column: self.column@,
        }
    }
}

/// An operand without inner expressions: a column, a literal, or SQL text
/// written as it stands.
pub enum Term {
    Column(ColumnRef),
    Value(SqlValue),
    Raw(String),
}

pub enum TermView {
    Column(ColumnRefView),
    Value(SqlValueView),
    Raw(Seq<char>),
}

impl View for Term {
    type V = TermView;

    open spec fn view(&self) -> TermView {
        match self {
            Term::Column(c) => TermView::Column(c@),
            Term::Value(v) => TermView::Value(v@),
            Term::Raw(r) => TermView::Raw(r@),
        }
    }
}

/// A binary operator.
#[derive(Clone, Copy, PartialEq, Eq)]
pub enum BinOp {
    Eq,
    Lt,
    Gt,
    Lte,
    And,
    Or,
    Add,
}

/// One `WHEN column ILIKE pattern THEN result` arm of a `CASE`.
pub struct CaseArm {
    pub column: ColumnRef,
    pub pattern: String,
    pub result: SqlValue,
}

pub struct CaseArmView {
    pub column: ColumnRefView,
    pub pattern: Seq<char>,
    pub result: SqlValueView,
}

impl View for CaseArm {
    type V = CaseArmView;

    open spec fn view(&self) -> CaseArmView {
        CaseArmView { column: self.column@, pattern: self.pattern@, result: self.result@ }
    }
}

/// An expression.
pub enum SqlExpr {
    Term(Term),
    Binary(Box<SqlExpr>, BinOp, Box<SqlExpr>),
    ILike(Box<SqlExpr>, String),
    IsNull(Box<SqlExpr>),
    /// `column IN (values)`
    InValues(ColumnRef, Vec<SqlValue>),
    /// `(columns) IN ((row), (row), ...)`
    TupleIn(Vec<ColumnRef>, Vec<Vec<SqlValue>>),
    /// A call of a database function by its name.
    Function(String, Vec<Term>),
    Min(ColumnRef),
    Case(Vec<CaseArm>, SqlValue),
}

pub enum SqlExprView {
    Term(TermView),
    Binary(Box<SqlExprView>, BinOp, Box<SqlExprView>),
    ILike(Box<SqlExprView>, Seq<char>),
    IsNull(Box<SqlExprView>),
    InValues(ColumnRefView, Seq<SqlValueView>),
    TupleIn(Seq<ColumnRefView>, Seq<Seq<SqlValueView>>),
    Function(Seq<char>, Seq<TermView>),
    Min(ColumnRefView),
    Case(Seq<CaseArmView>, SqlValueView),
}

pub open spec fn values_view(v: Seq<SqlValue>) -> Seq<SqlValueView> {
    v.map_values(|x: SqlValue| x@)
}

pub open spec fn columns_view(v: Seq<ColumnRef>) -> Seq<ColumnRefView> {
    v.map_values(|x: ColumnRef| x@)
}

pub open spec fn rows_view(v: Seq<Vec<SqlValue>>) -> Seq<Seq<SqlValueView>> {
    v.map_values(|r: Vec<SqlValue>| values_view(r@))
}

pub open spec fn texts_view(v: Seq<String>) -> Seq<Seq<char>> {
    v.map_values(|s: String| s@)
}

pub open spec fn pairs_view(v: Seq<(String, String)>) -> Seq<(Seq<char>, Seq<char>)> {
    v.map_values(|p: (String, String)| (p.0@, p.1@))
}

impl View for SqlExpr {
    type V = SqlExprView;

    open spec fn view(&self) -> SqlExprView
        decreases self,
    {
        match self {
            SqlExpr::Term(t) => SqlExprView::Term(t@),
            SqlExpr::Binary(a, op, b) => SqlExprView::Binary(
                Box::new((**a).view()),
                *op,
                Box::new((**b).view()),
            ),
            SqlExpr::ILike(a, p) => SqlExprView::ILike(Box::new((**a).view()), p@),
            SqlExpr::IsNull(a) => SqlExprView::IsNull(Box::new((**a).view())),
            SqlExpr::InValues(c, vs) => SqlExprView::InValues(c@, values_view(vs@)),
            SqlExpr::TupleIn(cs, rows) => SqlExprView::TupleIn(columns_view(cs@), rows_view(rows@)),
            SqlExpr::Function(name, args) => SqlExprView::Function(
                name@,
                args@.map_values(|t: Term| t@),
            ),
            SqlExpr::Min(c) => SqlExprView::Min(c@),
            SqlExpr::Case(arms, other) => SqlExprView::Case(
                arms@.map_values(|a: CaseArm| a@),
                other@,
            ),
        }
    }
}

/// A table in a `FROM` clause, possibly under an alias.
pub struct TableRef {
    pub table: String,
    pub alias: Option<String>,
}

pub struct TableRefView {
    pub table: Seq<char>,
    pub alias: Option<Seq<char>>,
}

impl View for TableRef {
    type V = TableRefView;

    open spec fn view(&self) -> TableRefView {
        TableRefView {
            table: self.table@,
            alias: match self.alias {
                Some(a) => Some(a@),
                None => None,
            },
        }
    }
}

/// The kind of a join.
#[derive(Clone, Copy, PartialEq, Eq)]
pub enum JoinKind {
    /// `INNER JOIN`
    Inner,
    /// `JOIN`
    Plain,
    /// `LEFT JOIN`
    Left,
}

/// `kind table AS alias ON on`
pub struct Join {
    pub kind: JoinKind,
    pub table: String,
    pub alias: String,
    pub on: SqlExpr,
}

pub struct JoinView {
    pub kind: JoinKind,
    pub table: Seq<char>,
    pub alias: Seq<char>,
    pub on: SqlExprView,
}

impl View for Join {
    type V = JoinView;

    open spec fn view(&self) -> JoinView {
        JoinView { kind: self.kind, table: self.table@, alias: self.alias@, on: self.on@ }
    }
}

/// One selected expression, possibly under an alias.
pub struct SelectItem {
    pub expr: SqlExpr,
    pub alias: Option<String>,
}

pub struct SelectItemView {
    pub expr: SqlExprView,
    pub alias: Option<Seq<char>>,
}

impl View for SelectItem {
    type V = SelectItemView;

    open spec fn view(&self) -> SelectItemView {
        SelectItemView {
            expr: self.expr@,
            alias: match self.alias {
                Some(a) => Some(a@),
                None => None,
            },
        }
    }
}

/// A `SELECT` statement. Its conditions are joined by `AND`; its rows are
/// ordered by the columns of `order_by`, each ascending.
pub struct SelectQuery {
    pub items: Vec<SelectItem>,
    pub from: TableRef,
    pub joins: Vec<Join>,
    pub conditions: Vec<SqlExpr>,
    pub group_by: Vec<ColumnRef>,
    pub order_by: Vec<ColumnRef>,
    pub limit: Option<u64>,
}

pub struct SelectQueryView {
    pub items: Seq<SelectItemView>,
    pub from: TableRefView,
    pub joins: Seq<JoinView>,
    pub conditions: Seq<SqlExprView>,
    pub group_by: Seq<ColumnRefView>,
    pub order_by: Seq<ColumnRefView>,
    pub limit: Option<u64>,
}

pub open spec fn exprs_view(v: Seq<SqlExpr>) -> Seq<SqlExprView> {
    v.map_values(|e: SqlExpr| e@)
}

impl View for SelectQuery {
    type V = SelectQueryView;

    open spec fn view(&self) -> SelectQueryView {
        SelectQueryView {
            items: self.items@.map_values(|i: SelectItem| i@),
            from: self.from@,
            joins: self.joins@.map_values(|j: Join| j@),
            conditions: exprs_view(self.conditions@),
            group_by: columns_view(self.group_by@),
            order_by: columns_view(self.order_by@),
            limit: self.limit,
        }
    }
}

/// An `INSERT` of rows of literals. With `ignore_conflicts` it ends in
/// `ON CONFLICT DO NOTHING`; `returning` names the column of a
/// `RETURNING` clause, if any.
pub struct InsertQuery {
    pub table: String,
    pub columns: Vec<String>,
    pub rows: Vec<Vec<SqlValue>>,
    pub ignore_conflicts: bool,
    pub returning: Option<String>,
}

pub struct InsertQueryView {
    pub table: Seq<char>,
    pub columns: Seq<Seq<char>>,
    pub rows: Seq<Seq<SqlValueView>>,
    pub ignore_conflicts: bool,
    pub returning: Option<Seq<char>>,
}

impl View for InsertQuery {
    type V = InsertQueryView;

    open spec fn view(&self) -> InsertQueryView {
        InsertQueryView {
            table: self.table@,
            columns: texts_view(self.columns@),
            rows: rows_view(self.rows@),
            ignore_conflicts: self.ignore_conflicts,
            returning: match self.returning {
                Some(c) => Some(c@),
                None => None,
            },
        }
    }
}

/// One `column = expression` of an `UPDATE`.
pub struct Assignment {
    pub column: String,
    pub value: SqlExpr,
}

pub struct AssignmentView {
    pub column: Seq<char>,
    pub value: SqlExprView,
}

impl View for Assignment {
    type V = AssignmentView;

    open spec fn view(&self) -> AssignmentView {
        AssignmentView { column: self.column@, value: self.value@ }
    }
}

/// An `UPDATE` whose conditions are joined by `AND`.
pub struct UpdateQuery {
    pub table: String,
    pub assignments: Vec<Assignment>,
    pub conditions: Vec<SqlExpr>,
}

pub struct UpdateQueryView {
    pub table: Seq<char>,
    pub assignments: Seq<AssignmentView>,
    pub conditions: Seq<SqlExprView>,
}

impl View for UpdateQuery {
    type V = UpdateQueryView;

    open spec fn view(&self) -> UpdateQueryView {
        UpdateQueryView {
            table: self.table@,
            assignments: self.assignments@.map_values(|a: Assignment| a@),
            conditions: exprs_view(self.conditions@),
        }
    }
}

/// A `DELETE` whose conditions are joined by `AND`.
pub struct DeleteQuery {
    pub table: String,
    pub conditions: Vec<SqlExpr>,
}

pub struct DeleteQueryView {
    pub table: Seq<char>,
    pub conditions: Seq<SqlExprView>,
}

impl View for DeleteQuery {
    type V = DeleteQueryView;

    open spec fn view(&self) -> DeleteQueryView {
        DeleteQueryView { table: self.table@, conditions: exprs_view(self.conditions@) }
    }
}

} // verus!
