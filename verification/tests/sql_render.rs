use flights::sql::model::{InsertQuery, SqlValue};
use flights::sql::render::insert_sql;
use flights::time::{add_days, rfc3339, sub_hours, Timestamp};
use sea_query::{Alias, OnConflict, PostgresQueryBuilder, Query, SimpleExpr};

fn s(x: &str) -> String {
    x.to_string()
}

#[test]
fn insert_or_skip_returning_text() {
    let q = InsertQuery {
        table: s("routes"),
        columns: vec![s("from_location_id"), s("to_location_id")],
        rows: vec![
            vec![SqlValue::Text(s("OTP")), SqlValue::Int(3)],
            vec![SqlValue::Null, SqlValue::Text(s("it's"))],
        ],
        ignore_conflicts: true,
        returning: Some(s("id")),
    };
    let expected = Query::insert()
        .into_table(Alias::new("routes"))
        .columns([Alias::new("from_location_id"), Alias::new("to_location_id")])
        .values_panic([SimpleExpr::from("OTP"), SimpleExpr::from(3i64)])
        .values_panic([SimpleExpr::from(Option::<String>::None), SimpleExpr::from("it's")])
        .on_conflict(OnConflict::new().do_nothing().to_owned())
        .returning_col(Alias::new("id"))
        .to_string(PostgresQueryBuilder);
    assert_eq!(insert_sql(&q), expected);
    let plain = InsertQuery { ignore_conflicts: false, returning: None, ..q };
    assert_ne!(insert_sql(&plain), expected);
}

#[test]
fn plain_insert_text() {
    let base = InsertQuery {
        table: s("t"),
        columns: vec![s("c")],
        rows: vec![vec![SqlValue::Int(1)]],
        ignore_conflicts: false,
        returning: None,
    };
    let plain = insert_sql(&base);
    assert_eq!(plain, "INSERT INTO \"t\" (\"c\") VALUES (1)");
}

#[test]
fn chrono_gives_instants_in_its_range() {
    let far = Timestamp { secs: 7_000_000_000_000, nanos: 5 };
    assert!(rfc3339(far).is_some());
    let later = add_days(Timestamp { secs: 1_700_000_000, nanos: 0 }, 160).unwrap();
    assert_eq!(later, Timestamp { secs: 1_700_000_000 + 86400 * 160, nanos: 0 });
    let earlier = sub_hours(Timestamp { secs: -7_000_000_000_000, nanos: 9 }, -10).unwrap();
    assert_eq!(earlier, Timestamp { secs: -7_000_000_000_000 + 36000, nanos: 9 });
    assert!(rfc3339(Timestamp { secs: 9_000_000_000_000, nanos: 0 }).is_none());
}

use flights::sql::model::{
    Assignment, BinOp, DeleteQuery, Join, JoinKind, SelectQuery, TableRef, UpdateQuery,
};
use flights::sql::parts::{bin, col, integer, item, qcol, text};
use flights::sql::render::{delete_sql, select_sql, update_sql};
use sea_query::{Expr, JoinType};

#[test]
fn every_operator_and_join_renders_as_sea_query_writes_it() {
    let q = SelectQuery {
        items: vec![item(qcol("r", "a"))],
        from: TableRef { table: s("routes"), alias: Some(s("r")) },
        joins: vec![
            Join { kind: JoinKind::Inner, table: s("t1"), alias: s("x"), on: bin(qcol("x", "id"), BinOp::Eq, qcol("r", "a")) },
            Join { kind: JoinKind::Plain, table: s("t2"), alias: s("y"), on: bin(qcol("y", "id"), BinOp::Eq, qcol("r", "a")) },
            Join { kind: JoinKind::Left, table: s("t3"), alias: s("z"), on: bin(qcol("z", "id"), BinOp::Eq, qcol("r", "a")) },
        ],
        conditions: vec![
            bin(col("a"), BinOp::Lt, integer(1)),
            bin(col("b"), BinOp::Gt, integer(2)),
            bin(bin(col("c"), BinOp::Lte, integer(3)), BinOp::Or, bin(col("d"), BinOp::Eq, text(s("q")))),
            bin(bin(col("e"), BinOp::Add, integer(4)), BinOp::Lt, col("f")),
            bin(bin(col("g"), BinOp::Eq, integer(5)), BinOp::And, bin(col("h"), BinOp::Eq, integer(6))),
        ],
        group_by: vec![],
        order_by: vec![],
        limit: None,
    };
    let c = |n: &str| Expr::col(Alias::new(n));
    let qc = |t: &str, n: &str| Expr::col((Alias::new(t), Alias::new(n)));
    let expected = Query::select()
        .expr(qc("r", "a"))
        .from_as(Alias::new("routes"), Alias::new("r"))
        .join_as(JoinType::InnerJoin, Alias::new("t1"), Alias::new("x"), qc("x", "id").eq(qc("r", "a")))
        .join_as(JoinType::Join, Alias::new("t2"), Alias::new("y"), qc("y", "id").eq(qc("r", "a")))
        .join_as(JoinType::LeftJoin, Alias::new("t3"), Alias::new("z"), qc("z", "id").eq(qc("r", "a")))
        .and_where(c("a").lt(1i64))
        .and_where(c("b").gt(2i64))
        .and_where(c("c").lte(3i64).or(c("d").eq(s("q"))))
        .and_where(Expr::expr(c("e").add(4i64)).lt(c("f")))
        .and_where(c("g").eq(5i64).and(c("h").eq(6i64)))
        .to_string(PostgresQueryBuilder);
    assert_eq!(select_sql(&q), expected);
    assert!(expected.contains("\"a\" < 1") && expected.contains("\"b\" > 2") && expected.contains("\"c\" <= 3"));

    let u = UpdateQuery {
        table: s("routes"),
        assignments: vec![Assignment { column: s("last_scan"), value: text(s("now")) }],
        conditions: vec![bin(col("a"), BinOp::Lt, integer(1)), bin(col("b"), BinOp::Gt, integer(2))],
    };
    let expected_u = Query::update()
        .table(Alias::new("routes"))
        .value(Alias::new("last_scan"), s("now"))
        .and_where(c("a").lt(1i64))
        .and_where(c("b").gt(2i64))
        .to_string(PostgresQueryBuilder);
    assert_eq!(update_sql(&u), expected_u);

    let d = DeleteQuery { table: s("itineraries"), conditions: vec![bin(col("inserted_at"), BinOp::Lt, text(s("t")))] };
    let expected_d = Query::delete()
        .from_table(Alias::new("itineraries"))
        .and_where(c("inserted_at").lt(s("t")))
        .to_string(PostgresQueryBuilder);
    assert_eq!(delete_sql(&d), expected_d);
}
