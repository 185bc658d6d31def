//! PostgreSQL text of the statement models, written by sea-query.
//!
//! Each kind of statement is written by one trusted call, whose text is
//! named after sea-query and tied to exactly the model that it is given
//! (`postgres_select`, `postgres_update`, `postgres_delete` and the four
//! forms of insert). Inside that call the model's parts reach sea-query
//! through verified converters (`select_into`, `expr_to_sea`, ...) that
//! call one sea-query constructor per trusted item below; sea-query's
//! values are opaque here, so what each part becomes is not stated: the
//! named text is a function of the model alone. A few plain lookups and
//! one update are written from plain values by one trusted call each.
use vstd::prelude::*;
use sea_query::{
    Alias, CaseStatement, Expr, Func, JoinType, OnConflict,
    Order, OrderedStatement, PostgresQueryBuilder, Query, QueryStatementWriter, SelectStatement,
    SimpleExpr, Value, ValueTuple,
};
use sea_query::extension::postgres::PgExpr;
use crate::sql::model::{
    Assignment, BinOp, ColumnRef, InsertQuery, InsertQueryView, JoinKind, SelectQuery, SqlExpr, SqlValue,
    SqlValueView, Term, UpdateQuery, UpdateQueryView, DeleteQuery, DeleteQueryView, SelectQueryView, pairs_view,
    texts_view,
};

verus! {

/// sea-query's `SimpleExpr`, carried through opaque.
#[verifier::external_type_specification]
#[verifier::external_body]
pub struct ExSeaSimpleExpr(SimpleExpr);

/// sea-query's `Value`, carried through opaque.
#[verifier::external_type_specification]
#[verifier::external_body]
pub struct ExSeaValue(Value);

/// sea-query's `CaseStatement`, carried through opaque.
#[verifier::external_type_specification]
#[verifier::external_body]
pub struct ExSeaCaseStatement(CaseStatement);

/// sea-query's `SelectStatement`, carried through opaque.
#[verifier::external_type_specification]
#[verifier::external_body]
pub struct ExSeaSelectStatement(SelectStatement);

/// `Value::from(String)`: a text literal.
#[verifier::external_body]
fn sea_text_value(s: &str) -> Value {
    Value::from(s.to_string())
}

/// `Value::from(i64)`: an integer literal.
#[verifier::external_body]
fn sea_int_value(i: i64) -> Value {
    Value::from(i)
}

/// `Value::from(None::<String>)`: `NULL`.
#[verifier::external_body]
fn sea_null_value() -> Value {
    Value::from(Option::<String>::None)
}

/// `SimpleExpr::from(Value)`: a literal as an expression.
#[verifier::external_body]
fn sea_value_expr(v: Value) -> SimpleExpr {
    SimpleExpr::from(v)
}

/// `Expr::col(Alias::new(column))`.
#[verifier::external_body]
fn sea_column(column: &str) -> SimpleExpr {
    Expr::col(Alias::new(column)).into()
}

/// `Expr::col((Alias::new(table), Alias::new(column)))`.
#[verifier::external_body]
fn sea_qualified_column(table: &str, column: &str) -> SimpleExpr {
    Expr::col((Alias::new(table), Alias::new(column))).into()
}

/// `Expr::cust(text)`: SQL text written as it stands.
#[verifier::external_body]
fn sea_raw(text: &str) -> SimpleExpr {
    Expr::cust(text)
}

/// `Expr::expr(a).eq(b)`.
#[verifier::external_body]
fn sea_eq(a: SimpleExpr, b: SimpleExpr) -> SimpleExpr {
    Expr::expr(a).eq(b)
}

/// `Expr::expr(a).lt(b)`.
#[verifier::external_body]
fn sea_lt(a: SimpleExpr, b: SimpleExpr) -> SimpleExpr {
    Expr::expr(a).lt(b)
}

/// `Expr::expr(a).gt(b)`.
#[verifier::external_body]
fn sea_gt(a: SimpleExpr, b: SimpleExpr) -> SimpleExpr {
    Expr::expr(a).gt(b)
}

/// `Expr::expr(a).lte(b)`.
#[verifier::external_body]
fn sea_lte(a: SimpleExpr, b: SimpleExpr) -> SimpleExpr {
    Expr::expr(a).lte(b)
}

/// `Expr::expr(a).add(b)`.
#[verifier::external_body]
fn sea_add(a: SimpleExpr, b: SimpleExpr) -> SimpleExpr {
    Expr::expr(a).add(b)
}

/// `SimpleExpr::and`.
#[verifier::external_body]
fn sea_and(a: SimpleExpr, b: SimpleExpr) -> SimpleExpr {
    a.and(b)
}

/// `SimpleExpr::or`.
#[verifier::external_body]
fn sea_or(a: SimpleExpr, b: SimpleExpr) -> SimpleExpr {
    a.or(b)
}

/// `PgExpr::ilike` with a text pattern.
#[verifier::external_body]
fn sea_ilike(a: SimpleExpr, pattern: &str) -> SimpleExpr {
    Expr::expr(a).ilike(pattern)
}

/// `Expr::is_null`.
#[verifier::external_body]
fn sea_is_null(a: SimpleExpr) -> SimpleExpr {
    Expr::expr(a).is_null()
}

/// `Expr::is_in` over literals.
#[verifier::external_body]
fn sea_is_in(a: SimpleExpr, values: Vec<Value>) -> SimpleExpr {
    Expr::expr(a).is_in(values)
}

/// `Expr::tuple(columns).in_tuples(rows)`.
#[verifier::external_body]
fn sea_tuple_in(columns: Vec<SimpleExpr>, rows: Vec<Vec<Value>>) -> SimpleExpr {
    Expr::tuple(columns).in_tuples(rows.into_iter().map(ValueTuple::Many))
}

/// `Func::cust(Alias::new(name)).args(args)`.
#[verifier::external_body]
fn sea_function(name: &str, args: Vec<SimpleExpr>) -> SimpleExpr {
    Func::cust(Alias::new(name)).args(args).into()
}

/// `Func::min(a)`.
#[verifier::external_body]
fn sea_min(a: SimpleExpr) -> SimpleExpr {
    Func::min(a).into()
}

/// `CaseStatement::new()`.
#[verifier::external_body]
fn sea_case() -> CaseStatement {
    CaseStatement::new()
}

/// `CaseStatement::case`.
#[verifier::external_body]
fn sea_case_when(c: CaseStatement, cond: SimpleExpr, result: SimpleExpr) -> CaseStatement {
    c.case(cond, result)
}

/// `CaseStatement::finally`, as an expression.
#[verifier::external_body]
fn sea_case_else(c: CaseStatement, result: SimpleExpr) -> SimpleExpr {
    c.finally(result).into()
}

/// `SelectStatement::expr`.
#[verifier::external_body]
fn sea_select_expr(s: &mut SelectStatement, e: SimpleExpr) {
    s.expr(e);
}

/// `SelectStatement::expr_as`.
#[verifier::external_body]
fn sea_select_expr_as(s: &mut SelectStatement, e: SimpleExpr, alias: &str) {
    s.expr_as(e, Alias::new(alias));
}

/// `SelectStatement::from`.
#[verifier::external_body]
fn sea_select_from(s: &mut SelectStatement, table: &str) {
    s.from(Alias::new(table));
}

/// `SelectStatement::from_as`.
#[verifier::external_body]
fn sea_select_from_as(s: &mut SelectStatement, table: &str, alias: &str) {
    s.from_as(Alias::new(table), Alias::new(alias));
}

/// `SelectStatement::join_as` with `JoinType::InnerJoin`.
#[verifier::external_body]
fn sea_select_inner_join(s: &mut SelectStatement, table: &str, alias: &str, on: SimpleExpr) {
    s.join_as(JoinType::InnerJoin, Alias::new(table), Alias::new(alias), on);
}

/// `SelectStatement::join_as` with `JoinType::Join`.
#[verifier::external_body]
fn sea_select_join(s: &mut SelectStatement, table: &str, alias: &str, on: SimpleExpr) {
    s.join_as(JoinType::Join, Alias::new(table), Alias::new(alias), on);
}

/// `SelectStatement::join_as` with `JoinType::LeftJoin`.
#[verifier::external_body]
fn sea_select_left_join(s: &mut SelectStatement, table: &str, alias: &str, on: SimpleExpr) {
    s.join_as(JoinType::LeftJoin, Alias::new(table), Alias::new(alias), on);
}

/// `SelectStatement::and_where`.
#[verifier::external_body]
fn sea_select_where(s: &mut SelectStatement, cond: SimpleExpr) {
    s.and_where(cond);
}

/// `SelectStatement::add_group_by` with one expression.
#[verifier::external_body]
fn sea_select_group_by(s: &mut SelectStatement, e: SimpleExpr) {
    s.add_group_by([e]);
}

/// `OrderedStatement::order_by_expr` with `Order::Asc`.
#[verifier::external_body]
fn sea_select_order_asc(s: &mut SelectStatement, e: SimpleExpr) {
    s.order_by_expr(e, Order::Asc);
}

/// `SelectStatement::limit`.
#[verifier::external_body]
fn sea_select_limit(s: &mut SelectStatement, n: u64) {
    s.limit(n);
}

/// What sea-query writes for `INSERT INTO table (columns) VALUES rows`.
pub uninterp spec fn postgres_insert(
    table: Seq<char>,
    columns: Seq<Seq<char>>,
    rows: Seq<Seq<SqlValueView>>,
) -> Seq<char>;

/// What sea-query writes for the same insert ended by
/// `ON CONFLICT DO NOTHING`.
pub uninterp spec fn postgres_insert_or_skip(
    table: Seq<char>,
    columns: Seq<Seq<char>>,
    rows: Seq<Seq<SqlValueView>>,
) -> Seq<char>;

/// What sea-query writes for the same insert ended by `RETURNING column`.
pub uninterp spec fn postgres_insert_returning(
    table: Seq<char>,
    columns: Seq<Seq<char>>,
    rows: Seq<Seq<SqlValueView>>,
    column: Seq<char>,
) -> Seq<char>;

/// What sea-query writes for the same insert ended by
/// `ON CONFLICT DO NOTHING RETURNING column`.
pub uninterp spec fn postgres_insert_or_skip_returning(
    table: Seq<char>,
    columns: Seq<Seq<char>>,
    rows: Seq<Seq<SqlValueView>>,
    column: Seq<char>,
) -> Seq<char>;

/// One literal as a sea-query expression.
fn value_expr(v: &SqlValue) -> SimpleExpr {
    sea_value_expr(value_to_sea(v))
}

/// `Query::insert()` into the table with the columns, one `values_panic`
/// per row (each literal made by `value_expr`), written by
/// `to_string(PostgresQueryBuilder)`. The text is sea-query's, named
/// `postgres_insert`; `values_panic` does not panic, as each row has one
/// value per column.
#[verifier::external_body]
fn sea_insert_sql(q: &InsertQuery) -> (s: String)
    requires
        rows_fit(q@),
    ensures
        s@ == postgres_insert(q@.table, q@.columns, q@.rows),
{
    let mut s = Query::insert();
    s.into_table(Alias::new(q.table.as_str())).columns(q.columns.iter().map(Alias::new));
    for row in q.rows.iter() {
        s.values_panic(row.iter().map(value_expr));
    }
    s.to_string(PostgresQueryBuilder)
}

/// As `sea_insert_sql`, with
/// `on_conflict(OnConflict::new().do_nothing())`; the text is named
/// `postgres_insert_or_skip`.
#[verifier::external_body]
fn sea_insert_or_skip_sql(q: &InsertQuery) -> (s: String)
    requires
        rows_fit(q@),
    ensures
        s@ == postgres_insert_or_skip(q@.table, q@.columns, q@.rows),
{
    let mut s = Query::insert();
    s.into_table(Alias::new(q.table.as_str())).columns(q.columns.iter().map(Alias::new));
    for row in q.rows.iter() {
        s.values_panic(row.iter().map(value_expr));
    }
    s.on_conflict(OnConflict::new().do_nothing().to_owned());
    s.to_string(PostgresQueryBuilder)
}

/// As `sea_insert_sql`, with `returning_col(Alias::new(column))`; the text
/// is named `postgres_insert_returning`.
#[verifier::external_body]
fn sea_insert_returning_sql(q: &InsertQuery, column: &str) -> (s: String)
    requires
        rows_fit(q@),
    ensures
        s@ == postgres_insert_returning(q@.table, q@.columns, q@.rows, column@),
{
    let mut s = Query::insert();
    s.into_table(Alias::new(q.table.as_str())).columns(q.columns.iter().map(Alias::new));
    for row in q.rows.iter() {
        s.values_panic(row.iter().map(value_expr));
    }
    s.returning_col(Alias::new(column));
    s.to_string(PostgresQueryBuilder)
}

/// As `sea_insert_or_skip_sql`, with `returning_col(Alias::new(column))`;
/// the text is named `postgres_insert_or_skip_returning`.
#[verifier::external_body]
fn sea_insert_or_skip_returning_sql(q: &InsertQuery, column: &str) -> (s: String)
    requires
        rows_fit(q@),
    ensures
        s@ == postgres_insert_or_skip_returning(q@.table, q@.columns, q@.rows, column@),
{
    let mut s = Query::insert();
    s.into_table(Alias::new(q.table.as_str())).columns(q.columns.iter().map(Alias::new));
    for row in q.rows.iter() {
        s.values_panic(row.iter().map(value_expr));
    }
    s.on_conflict(OnConflict::new().do_nothing().to_owned());
    s.returning_col(Alias::new(column));
    s.to_string(PostgresQueryBuilder)
}

/// What sea-query writes for `SELECT columns FROM table WHERE` each
/// `(column, value)` of `conditions` as `column = 'value'`, joined by
/// `AND`.
pub uninterp spec fn postgres_select_where_equal(
    table: Seq<char>,
    columns: Seq<Seq<char>>,
    conditions: Seq<(Seq<char>, Seq<char>)>,
) -> Seq<char>;

/// What sea-query writes for the same select with one more condition,
/// `column IN ('value', ...)` over `values`.
pub uninterp spec fn postgres_select_where_equal_in(
    table: Seq<char>,
    columns: Seq<Seq<char>>,
    conditions: Seq<(Seq<char>, Seq<char>)>,
    column: Seq<char>,
    values: Seq<Seq<char>>,
) -> Seq<char>;

/// What sea-query writes for `UPDATE table SET` each `(column, text)` of
/// `assignments` as `column = text`, the text written as it stands,
/// `WHERE column = 'value'`.
pub uninterp spec fn postgres_update_raw_where_equal(
    table: Seq<char>,
    assignments: Seq<(Seq<char>, Seq<char>)>,
    column: Seq<char>,
    value: Seq<char>,
) -> Seq<char>;

/// `Query::select()` of the columns from the table, with one
/// `and_where(Expr::col(column).eq(value))` per condition, written by
/// `to_string(PostgresQueryBuilder)`; the text is sea-query's, named
/// `postgres_select_where_equal`.
#[verifier::external_body]
pub(crate) fn sea_select_where_equal_sql(
    table: &str,
    columns: &Vec<String>,
    conditions: &Vec<(String, String)>,
) -> (s: String)
    ensures
        s@ == postgres_select_where_equal(table@, texts_view(columns@), pairs_view(conditions@)),
{
    let mut s = Query::select();
    s.columns(columns.iter().map(Alias::new)).from(Alias::new(table));
    for (c, v) in conditions.iter() {
        s.and_where(Expr::col(Alias::new(c)).eq(v.as_str()));
    }
    s.to_string(PostgresQueryBuilder)
}

/// As `sea_select_where_equal_sql`, then
/// `and_where(Expr::col(column).is_in(values))`; the text is named
/// `postgres_select_where_equal_in`.
#[verifier::external_body]
pub(crate) fn sea_select_where_equal_in_sql(
    table: &str,
    columns: &Vec<String>,
    conditions: &Vec<(String, String)>,
    column: &str,
    values: &Vec<String>,
) -> (s: String)
    ensures
        s@ == postgres_select_where_equal_in(
            table@,
            texts_view(columns@),
            pairs_view(conditions@),
            column@,
            texts_view(values@),
        ),
{
    let mut s = Query::select();
    s.columns(columns.iter().map(Alias::new)).from(Alias::new(table));
    for (c, v) in conditions.iter() {
        s.and_where(Expr::col(Alias::new(c)).eq(v.as_str()));
    }
    s.and_where(Expr::col(Alias::new(column)).is_in(values.iter().cloned()));
    s.to_string(PostgresQueryBuilder)
}

/// `Query::update()` of the table with one `value(column, Expr::cust(text))`
/// per assignment and `and_where(Expr::col(column).eq(value))`, written by
/// `to_string(PostgresQueryBuilder)`; the text is sea-query's, named
/// `postgres_update_raw_where_equal`.
#[verifier::external_body]
pub(crate) fn sea_update_raw_where_equal_sql(
    table: &str,
    assignments: &Vec<(String, String)>,
    column: &str,
    value: &str,
) -> (s: String)
    ensures
        s@ == postgres_update_raw_where_equal(table@, pairs_view(assignments@), column@, value@),
{
    let mut s = Query::update();
    s.table(Alias::new(table));
    for (c, v) in assignments.iter() {
        s.value(Alias::new(c), Expr::cust(v.as_str()));
    }
    s.and_where(Expr::col(Alias::new(column)).eq(value));
    s.to_string(PostgresQueryBuilder)
}

/// sea-query's `Alias`, carried through opaque.
#[verifier::external_type_specification]
#[verifier::external_body]
pub struct ExSeaAlias(Alias);

/// `Alias::new(name)`.
#[verifier::external_body]
fn sea_alias(name: &str) -> Alias {
    Alias::new(name)
}

/// What sea-query writes for a select, its parts added by `select_into`.
pub uninterp spec fn postgres_select(q: SelectQueryView) -> Seq<char>;

/// What sea-query writes for an update, each assignment made by
/// `assignment_to_sea` and each condition by `expr_to_sea`.
pub uninterp spec fn postgres_update(q: UpdateQueryView) -> Seq<char>;

/// What sea-query writes for a delete, each condition made by
/// `expr_to_sea`.
pub uninterp spec fn postgres_delete(q: DeleteQueryView) -> Seq<char>;

/// `Query::select()`, then `SelectStatement::apply` with `select_into`,
/// written by `to_string(PostgresQueryBuilder)`; the text is sea-query's,
/// named `postgres_select`.
#[verifier::external_body]
fn sea_select_sql(q: &SelectQuery) -> (s: String)
    ensures
        s@ == postgres_select(q@),
{
    Query::select().apply(|s| select_into(s, q)).to_string(PostgresQueryBuilder)
}

/// One `column = expression` of an update.
fn assignment_to_sea(a: &Assignment) -> (Alias, SimpleExpr) {
    (sea_alias(a.column.as_str()), expr_to_sea(&a.value))
}

/// `Query::update()` of the table with `values` over the assignments and
/// one `and_where` per condition, written by
/// `to_string(PostgresQueryBuilder)`; the text is sea-query's, named
/// `postgres_update`.
#[verifier::external_body]
fn sea_update_sql(q: &UpdateQuery) -> (s: String)
    ensures
        s@ == postgres_update(q@),
{
    let mut s = Query::update();
    s.table(Alias::new(q.table.as_str())).values(q.assignments.iter().map(assignment_to_sea));
    for e in q.conditions.iter().map(expr_to_sea) {
        s.and_where(e);
    }
    s.to_string(PostgresQueryBuilder)
}

/// `Query::delete()` from the table with one `and_where` per condition,
/// written by `to_string(PostgresQueryBuilder)`; the text is sea-query's,
/// named `postgres_delete`.
#[verifier::external_body]
fn sea_delete_sql(q: &DeleteQuery) -> (s: String)
    ensures
        s@ == postgres_delete(q@),
{
    let mut s = Query::delete();
    s.from_table(Alias::new(q.table.as_str()));
    for e in q.conditions.iter().map(expr_to_sea) {
        s.and_where(e);
    }
    s.to_string(PostgresQueryBuilder)
}

fn value_to_sea(v: &SqlValue) -> Value {
    match v {
        SqlValue::Text(s) => sea_text_value(s.as_str()),
        SqlValue::Int(i) => sea_int_value(*i),
        SqlValue::Null => sea_null_value(),
    }
}

fn values_to_sea(vs: &Vec<SqlValue>) -> Vec<Value> {
    let mut out: Vec<Value> = Vec::new();
    for i in 0..vs.len() {
        out.push(value_to_sea(&vs[i]));
    }
    out
}

fn column_to_sea(c: &ColumnRef) -> SimpleExpr {
    match &c.table {
        Some(t) => sea_qualified_column(t.as_str(), c.column.as_str()),
        None => sea_column(c.column.as_str()),
    }
}

fn term_to_sea(t: &Term) -> SimpleExpr {
    match t {
        Term::Column(c) => column_to_sea(c),
        Term::Value(v) => sea_value_expr(value_to_sea(v)),
        Term::Raw(r) => sea_raw(r.as_str()),
    }
}

fn expr_to_sea(e: &SqlExpr) -> SimpleExpr
    decreases e,
{
    match e {
        SqlExpr::Term(t) => term_to_sea(t),
        SqlExpr::Binary(a, op, b) => {
            let x = expr_to_sea(a);
            let y = expr_to_sea(b);
            match op {
                BinOp::Eq => sea_eq(x, y),
                BinOp::Lt => sea_lt(x, y),
                BinOp::Gt => sea_gt(x, y),
                BinOp::Lte => sea_lte(x, y),
                BinOp::And => sea_and(x, y),
                BinOp::Or => sea_or(x, y),
                BinOp::Add => sea_add(x, y),
            }
        },
        SqlExpr::ILike(a, pattern) => sea_ilike(expr_to_sea(a), pattern.as_str()),
        SqlExpr::IsNull(a) => sea_is_null(expr_to_sea(a)),
        SqlExpr::InValues(c, vs) => sea_is_in(column_to_sea(c), values_to_sea(vs)),
        SqlExpr::TupleIn(cs, rows) => {
            let mut columns: Vec<SimpleExpr> = Vec::new();
            for i in 0..cs.len() {
                columns.push(column_to_sea(&cs[i]));
            }
            let mut tuples: Vec<Vec<Value>> = Vec::new();
            for i in 0..rows.len() {
                tuples.push(values_to_sea(&rows[i]));
            }
            sea_tuple_in(columns, tuples)
        },
        SqlExpr::Function(name, args) => {
            let mut xs: Vec<SimpleExpr> = Vec::new();
            for i in 0..args.len() {
                xs.push(term_to_sea(&args[i]));
            }
            sea_function(name.as_str(), xs)
        },
        SqlExpr::Min(c) => sea_min(column_to_sea(c)),
        SqlExpr::Case(arms, other) => {
            let mut c = sea_case();
            for i in 0..arms.len() {
                let arm = &arms[i];
                let cond = sea_ilike(column_to_sea(&arm.column), arm.pattern.as_str());
                c = sea_case_when(c, cond, sea_value_expr(value_to_sea(&arm.result)));
            }
            sea_case_else(c, sea_value_expr(value_to_sea(other)))
        },
    }
}

/// Adds the parts of a select to a sea-query select: each item, the
/// table, each join, each condition (joined by `AND`), each grouping
/// column, each ordering column (ascending) and the limit.
fn select_into(s: &mut SelectStatement, q: &SelectQuery) {
    for i in 0..q.items.len() {
        let item = &q.items[i];
        let e = expr_to_sea(&item.expr);
        match &item.alias {
            Some(a) => sea_select_expr_as(s, e, a.as_str()),
            None => sea_select_expr(s, e),
        }
    }
    match &q.from.alias {
        Some(a) => sea_select_from_as(s, q.from.table.as_str(), a.as_str()),
        None => sea_select_from(s, q.from.table.as_str()),
    }
    for i in 0..q.joins.len() {
        let j = &q.joins[i];
        let on = expr_to_sea(&j.on);
        match j.kind {
            JoinKind::Inner => sea_select_inner_join(s, j.table.as_str(), j.alias.as_str(), on),
            JoinKind::Plain => sea_select_join(s, j.table.as_str(), j.alias.as_str(), on),
            JoinKind::Left => sea_select_left_join(s, j.table.as_str(), j.alias.as_str(), on),
        }
    }
    for i in 0..q.conditions.len() {
        sea_select_where(s, expr_to_sea(&q.conditions[i]));
    }
    for i in 0..q.group_by.len() {
        sea_select_group_by(s, column_to_sea(&q.group_by[i]));
    }
    for i in 0..q.order_by.len() {
        sea_select_order_asc(s, column_to_sea(&q.order_by[i]));
    }
    match q.limit {
        Some(n) => sea_select_limit(s, n),
        None => {},
    }
}

/// The PostgreSQL text of a select, written by sea-query.
pub fn select_sql(q: &SelectQuery) -> (s: String)
    ensures
        s@ == postgres_select(q@),
{
    sea_select_sql(q)
}

/// Every row of the insert has one value per column.
pub open spec fn rows_fit(q: InsertQueryView) -> bool {
    forall|i: int| 0 <= i < q.rows.len() ==> (#[trigger] q.rows[i]).len() == q.columns.len()
}

/// The PostgreSQL text that sea-query writes for an insert.
pub open spec fn insert_text(q: InsertQueryView) -> Seq<char> {
    match q.returning {
        Some(c) => if q.ignore_conflicts {
            postgres_insert_or_skip_returning(q.table, q.columns, q.rows, c)
        } else {
            postgres_insert_returning(q.table, q.columns, q.rows, c)
        },
        None => if q.ignore_conflicts {
            postgres_insert_or_skip(q.table, q.columns, q.rows)
        } else {
            postgres_insert(q.table, q.columns, q.rows)
        },
    }
}

/// The PostgreSQL text of an insert, written by sea-query.
pub fn insert_sql(q: &InsertQuery) -> (s: String)
    requires
        rows_fit(q@),
    ensures
        s@ == insert_text(q@),
{
    match &q.returning {
        Some(c) => if q.ignore_conflicts {
            sea_insert_or_skip_returning_sql(q, c.as_str())
        } else {
            sea_insert_returning_sql(q, c.as_str())
        },
        None => if q.ignore_conflicts {
            sea_insert_or_skip_sql(q)
        } else {
            sea_insert_sql(q)
        },
    }
}

/// The PostgreSQL text of an update, written by sea-query.
pub fn update_sql(q: &UpdateQuery) -> (s: String)
    ensures
        s@ == postgres_update(q@),
{
    sea_update_sql(q)
}

/// The PostgreSQL text of a delete, written by sea-query.
pub fn delete_sql(q: &DeleteQuery) -> (s: String)
    ensures
        s@ == postgres_delete(q@),
{
    sea_delete_sql(q)
}

} // verus!
