//! Constructors of statement parts, each with the view it builds.
use vstd::prelude::*;
use crate::sql::model::{
    BinOp, ColumnRef, ColumnRefView, SelectItem, SelectItemView, SqlExpr, SqlExprView, SqlValue,
    SqlValueView, Term, TermView,
};

verus! {

pub open spec fn cref_v(table: Option<Seq<char>>, column: Seq<char>) -> ColumnRefView {
    ColumnRefView { table, column }
}

/// A column by its bare name.
pub open spec fn col_v(column: Seq<char>) -> SqlExprView {
    SqlExprView::Term(TermView::Column(cref_v(None, column)))
}

/// A column qualified by a table or alias.
pub open spec fn qcol_v(table: Seq<char>, column: Seq<char>) -> SqlExprView {
    SqlExprView::Term(TermView::Column(cref_v(Some(table), column)))
}

pub open spec fn text_v(t: Seq<char>) -> SqlExprView {
    SqlExprView::Term(TermView::Value(SqlValueView::Text(t)))
}

pub open spec fn int_v(i: i64) -> SqlExprView {
    SqlExprView::Term(TermView::Value(SqlValueView::Int(i)))
}

pub open spec fn raw_v(t: Seq<char>) -> SqlExprView {
    SqlExprView::Term(TermView::Raw(t))
}

pub open spec fn bin_v(a: SqlExprView, op: BinOp, b: SqlExprView) -> SqlExprView {
    SqlExprView::Binary(Box::new(a), op, Box::new(b))
}

pub open spec fn ilike_v(a: SqlExprView, pattern: Seq<char>) -> SqlExprView {
    SqlExprView::ILike(Box::new(a), pattern)
}

pub open spec fn item_v(e: SqlExprView) -> SelectItemView {
    SelectItemView { expr: e, alias: None }
}

pub open spec fn item_as_v(e: SqlExprView, alias: Seq<char>) -> SelectItemView {
    SelectItemView { expr: e, alias: Some(alias) }
}

pub fn cref(table: Option<&str>, column: &str) -> (c: ColumnRef)
    ensures
        c@ == cref_v(
            match table {
                Some(t) => Some(t@),
                None => None,
            },
            column@,
        ),
{
    ColumnRef {
        table: match table {
            Some(t) => Some(String::from_str(t)),
            None => None,
        },
        column: String::from_str(column),
    }
}

pub fn col(column: &str) -> (e: SqlExpr)
    ensures
        e@ == col_v(column@),
{
    SqlExpr::Term(Term::Column(ColumnRef { table: None, column: String::from_str(column) }))
}

pub fn qcol(table: &str, column: &str) -> (e: SqlExpr)
    ensures
        e@ == qcol_v(table@, column@),
{
    SqlExpr::Term(
        Term::Column(ColumnRef { table: Some(String::from_str(table)), column: String::from_str(column) }),
    )
}

pub fn text(t: String) -> (e: SqlExpr)
    ensures
        e@ == text_v(t@),
{
    SqlExpr::Term(Term::Value(SqlValue::Text(t)))
}

pub fn integer(i: i64) -> (e: SqlExpr)
    ensures
        e@ == int_v(i),
{
    SqlExpr::Term(Term::Value(SqlValue::Int(i)))
}

pub fn raw(t: String) -> (e: SqlExpr)
    ensures
        e@ == raw_v(t@),
{
    SqlExpr::Term(Term::Raw(t))
}

pub fn bin(a: SqlExpr, op: BinOp, b: SqlExpr) -> (e: SqlExpr)
    ensures
        e@ == bin_v(a@, op, b@),
{
    SqlExpr::Binary(Box::new(a), op, Box::new(b))
}

pub fn ilike(a: SqlExpr, pattern: String) -> (e: SqlExpr)
    ensures
        e@ == ilike_v(a@, pattern@),
{
    SqlExpr::ILike(Box::new(a), pattern)
}

pub fn item(e: SqlExpr) -> (i: SelectItem)
    ensures
        i@ == item_v(e@),
{
    SelectItem { expr: e, alias: None }
}

pub fn item_as(e: SqlExpr, alias: &str) -> (i: SelectItem)
    ensures
        i@ == item_as_v(e@, alias@),
{
    SelectItem { expr: e, alias: Some(String::from_str(alias)) }
}

} // verus!
