//! What a statement model means for the rows of a table, as far as the
//! laws of the services need it: the value of an operand and the truth of
//! a condition on one row, in SQL's three-valued logic, and what an insert
//! leaves in a table whose rows are told apart by the inserted columns.
use vstd::prelude::*;
use crate::sql::model::{BinOp, ColumnRefView, InsertQueryView, SelectQueryView, SqlExprView, SqlValueView, TermView};

verus! {

/// The value of a column on a row, by the column's name; a column that the
/// row does not hold reads as `NULL`.
pub open spec fn column_value(row: Map<Seq<char>, SqlValueView>, c: ColumnRefView) -> SqlValueView {
    if row.contains_key(c.column) {
        row[c.column]
    } else {
        SqlValueView::Null
    }
}

/// The value of an operand on a row: a column, a literal, or the call of a
/// database function, whose value on the row `functions` gives. Other
/// operands (raw text, sums, aggregates) are not given a value here and
/// read as `NULL`.
pub open spec fn value_of(
    e: SqlExprView,
    row: Map<Seq<char>, SqlValueView>,
    functions: spec_fn(Seq<char>, Seq<TermView>, Map<Seq<char>, SqlValueView>) -> SqlValueView,
) -> SqlValueView {
    match e {
        SqlExprView::Term(TermView::Column(c)) => column_value(row, c),
        SqlExprView::Term(TermView::Value(v)) => v,
        SqlExprView::Function(name, args) => functions(name, args, row),
        _ => SqlValueView::Null,
    }
}

/// `a = b`: unknown (`None`) when either is `NULL` or they are of
/// different kinds.
pub open spec fn equal3(a: SqlValueView, b: SqlValueView) -> Option<bool> {
    match (a, b) {
        (SqlValueView::Text(x), SqlValueView::Text(y)) => Some(x == y),
        (SqlValueView::Int(x), SqlValueView::Int(y)) => Some(x == y),
        _ => None,
    }
}

/// `a < b`, `a > b` or `a <= b` of two integers; unknown otherwise.
pub open spec fn order3(a: SqlValueView, op: BinOp, b: SqlValueView) -> Option<bool> {
    match (a, b) {
        (SqlValueView::Int(x), SqlValueView::Int(y)) => match op {
            BinOp::Lt => Some(x < y),
            BinOp::Gt => Some(x > y),
            BinOp::Lte => Some(x <= y),
            _ => None,
        },
        _ => None,
    }
}

/// `AND` of SQL: false if either is false, true if both are true, else
/// unknown.
pub open spec fn and3(a: Option<bool>, b: Option<bool>) -> Option<bool> {
    if a == Some(false) || b == Some(false) {
        Some(false)
    } else if a == Some(true) && b == Some(true) {
        Some(true)
    } else {
        None
    }
}

/// `OR` of SQL: true if either is true, false if both are false, else
/// unknown.
pub open spec fn or3(a: Option<bool>, b: Option<bool>) -> Option<bool> {
    if a == Some(true) || b == Some(true) {
        Some(true)
    } else if a == Some(false) && b == Some(false) {
        Some(false)
    } else {
        None
    }
}

/// The truth of a condition on a row: `Some(true)`, `Some(false)`, or
/// `None` for unknown. Comparisons, `AND`, `OR` and `IS NULL` are given a
/// truth; any other condition is unknown here.
pub open spec fn truth(
    e: SqlExprView,
    row: Map<Seq<char>, SqlValueView>,
    functions: spec_fn(Seq<char>, Seq<TermView>, Map<Seq<char>, SqlValueView>) -> SqlValueView,
) -> Option<bool>
    decreases e,
{
    match e {
        SqlExprView::Binary(a, op, b) => match op {
            BinOp::And => and3(truth(*a, row, functions), truth(*b, row, functions)),
            BinOp::Or => or3(truth(*a, row, functions), truth(*b, row, functions)),
            BinOp::Eq => equal3(value_of(*a, row, functions), value_of(*b, row, functions)),
            BinOp::Add => None,
            _ => order3(value_of(*a, row, functions), op, value_of(*b, row, functions)),
        },
        SqlExprView::IsNull(a) => Some(value_of(*a, row, functions) is Null),
        _ => None,
    }
}

/// A select from one table, without joins, keeps a row of it when every
/// condition is true on the row.
pub open spec fn selects(
    q: SelectQueryView,
    row: Map<Seq<char>, SqlValueView>,
    functions: spec_fn(Seq<char>, Seq<TermView>, Map<Seq<char>, SqlValueView>) -> SqlValueView,
) -> bool {
    forall|i: int| 0 <= i < q.conditions.len() ==> truth(#[trigger] q.conditions[i], row, functions) == Some(true)
}

/// What an insert leaves in a table whose rows are told apart by the
/// inserted columns (the table seen as the set of those columns' values):
/// with `ON CONFLICT DO NOTHING`, the rows before and every inserted row;
/// without it, the same where no inserted row is there already nor given
/// twice, and `None` (the statement fails and the table stays) otherwise.
pub open spec fn after_insert(table: Set<Seq<SqlValueView>>, q: InsertQueryView) -> Option<Set<Seq<SqlValueView>>> {
    if q.ignore_conflicts || (q.rows.no_duplicates() && forall|i: int| 0 <= i < q.rows.len() ==> !table.contains(#[trigger] q.rows[i])) {
        Some(table.union(q.rows.to_set()))
    } else {
        None
    }
}

} // verus!
