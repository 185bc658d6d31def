//! The location searches behind the search boxes: cities and countries by a
//! piece of their name, subdivisions by country.
use vstd::prelude::*;
use crate::data::db_schema::{Locations, LocationTypeEnum};
use crate::sql::model::{
    BinOp, CaseArm, CaseArmView, ColumnRefView, SelectItemView, JoinKind, Join, JoinView, SelectQuery, TermView,
    SelectQueryView, SqlExpr, SqlExprView, SqlValue, SqlValueView, TableRef, TableRefView,
    pairs_view, texts_view,
};
use crate::sql::parts::{
    bin, bin_v, col, col_v, cref, cref_v, ilike, ilike_v, item, item_as, item_as_v, item_v, qcol,
    qcol_v, text, text_v,
};
use crate::sql::render::{postgres_select, postgres_select_where_equal, sea_select_where_equal_sql, select_sql};

verus! {

/// The query of the city search.
pub struct CityQuery {
    pub term: String,
}

/// The query of the country search.
pub struct CountryQuery {
    pub term: String,
}

/// The query of the subdivision list.
pub struct SubdivisionQuery {
    pub country_id: String,
}

/// A query for locations of one kind, optionally by a piece of their name.
pub struct LocationsQuery {
    pub ltype: LocationTypeEnum,
    pub term: Option<String>,
}

/// A city found, with its country.
pub struct City {
    pub id: String,
    pub name: String,
    pub country_id: String,
    pub country_name: String,
}

/// A country found.
pub struct Country {
    pub id: String,
    pub name: String,
}

/// A subdivision of a country.
pub struct Subdivision {
    pub id: String,
    pub name: String,
}

/// `term%`: names that start with the term.
pub open spec fn prefix_pattern(term: Seq<char>) -> Seq<char> {
    term + "%"@
}

/// `%term%`: names that hold the term.
pub open spec fn infix_pattern(term: Seq<char>) -> Seq<char> {
    "%"@ + term + "%"@
}

fn prefix_pattern_of(term: &String) -> (p: String)
    ensures
        p@ == prefix_pattern(term@),
{
    let mut p = term.clone();
    p.append("%");
    p
}

fn infix_pattern_of(term: &String) -> (p: String)
    ensures
        p@ == infix_pattern(term@),
{
    let mut p = String::from_str("%");
    p.append(term.as_str());
    p.append("%");
    p
}

/// `CASE WHEN name ILIKE term THEN 1 WHEN name ILIKE 'term%' THEN 2 ELSE 3 END`:
/// exact matches first, then names that start with the term, then the rest.
pub open spec fn rank_v(table: Option<Seq<char>>, term: Seq<char>) -> SqlExprView {
    SqlExprView::Case(
        seq![
            CaseArmView { column: cref_v(table, Locations::Name.spec_name()), pattern: term, result: SqlValueView::Int(1) },
            CaseArmView { column: cref_v(table, Locations::Name.spec_name()), pattern: prefix_pattern(term), result: SqlValueView::Int(2) },
        ],
        SqlValueView::Int(3),
    )
}

fn rank(table: Option<&str>, term: &String) -> (e: SqlExpr)
    ensures
        e@ == rank_v(
            match table {
                Some(t) => Some(t@),
                None => None,
            },
            term@,
        ),
{
    let arms = vec![
        CaseArm { column: cref(table, Locations::Name.name()), pattern: term.clone(), result: SqlValue::Int(1) },
        CaseArm { column: cref(table, Locations::Name.name()), pattern: prefix_pattern_of(term), result: SqlValue::Int(2) },
    ];
    let e = SqlExpr::Case(arms, SqlValue::Int(3));
    assert(e@ == rank_v(
        match table {
            Some(t) => Some(t@),
            None => None,
        },
        term@,
    )) by {
        let ghost tv = match table {
            Some(t) => Some(t@),
            None => None,
        };
        assert(arms@.map_values(|a: CaseArm| a@) =~= rank_v(tv, term@)->Case_0);
    }
    e
}

/// The city search: cities whose name holds the term, with their country,
/// exact matches first, then names that start with the term; at most 25.
pub open spec fn cities_view(term: Seq<char>) -> SelectQueryView {
    SelectQueryView {
        items: seq![
            item_v(qcol_v("l"@, Locations::Id.spec_name())),
            item_v(qcol_v("l"@, Locations::Name.spec_name())),
            item_v(qcol_v("l"@, Locations::CountryId.spec_name())),
            item_as_v(qcol_v("c"@, Locations::Name.spec_name()), "country_name"@),
            item_as_v(rank_v(Some("l"@), term), "order_column"@),
        ],
        from: TableRefView { table: Locations::Table.spec_name(), alias: Some("l"@) },
        joins: seq![
            JoinView {
                kind: JoinKind::Inner,
                table: Locations::Table.spec_name(),
                alias: "c"@,
                on: bin_v(qcol_v("l"@, Locations::CountryId.spec_name()), BinOp::Eq, qcol_v("c"@, Locations::Id.spec_name())),
            },
        ],
        conditions: seq![
            bin_v(qcol_v("l"@, Locations::LocationType.spec_name()), BinOp::Eq, text_v(LocationTypeEnum::City.text())),
            ilike_v(qcol_v("l"@, Locations::Name.spec_name()), infix_pattern(term)),
        ],
        group_by: seq![],
        order_by: seq![cref_v(None, "order_column"@)],
        limit: Some(25),
    }
}

/// The statement of the city search.
pub fn cities_query(term: &String) -> (q: SelectQuery)
    ensures
        q@ == cities_view(term@),
{
    let ghost v = cities_view(term@);
    let items = vec![
        item(qcol("l", Locations::Id.name())),
        item(qcol("l", Locations::Name.name())),
        item(qcol("l", Locations::CountryId.name())),
        item_as(qcol("c", Locations::Name.name()), "country_name"),
        item_as(rank(Some("l"), term), "order_column"),
    ];
    let joins = vec![
        Join {
            kind: JoinKind::Inner,
            table: String::from_str(Locations::Table.name()),
            alias: String::from_str("c"),
            on: bin(qcol("l", Locations::CountryId.name()), BinOp::Eq, qcol("c", Locations::Id.name())),
        },
    ];
    let conditions = vec![
        bin(qcol("l", Locations::LocationType.name()), BinOp::Eq, text(LocationTypeEnum::City.to_string())),
        ilike(qcol("l", Locations::Name.name()), infix_pattern_of(term)),
    ];
    let order_by = vec![cref(None, "order_column")];
    let q = SelectQuery {
        items,
        from: TableRef { table: String::from_str(Locations::Table.name()), alias: Some(String::from_str("l")) },
        joins,
        conditions,
        group_by: Vec::new(),
        order_by,
        limit: Some(25),
    };
    assert(q@.items =~= v.items);
    assert(q@.joins =~= v.joins);
    assert(q@.conditions =~= v.conditions);
    assert(q@.group_by =~= v.group_by);
    assert(q@.order_by =~= v.order_by);
    q
}

/// The SQL of the city search.
pub fn fetch_cities(query: &CityQuery) -> (s: String)
    ensures
        s@ == postgres_select(cities_view(query.term@)),
{
    select_sql(&cities_query(&query.term))
}

/// The country search: countries whose name holds the term, exact matches
/// first, then names that start with the term; at most 25.
pub open spec fn countries_view(term: Seq<char>) -> SelectQueryView {
    SelectQueryView {
        items: seq![
            item_v(col_v(Locations::Id.spec_name())),
            item_v(col_v(Locations::Name.spec_name())),
            item_as_v(rank_v(None, term), "order_column"@),
        ],
        from: TableRefView { table: Locations::Table.spec_name(), alias: None },
        joins: seq![],
        conditions: seq![
            bin_v(col_v(Locations::LocationType.spec_name()), BinOp::Eq, text_v(LocationTypeEnum::Country.text())),
            ilike_v(col_v(Locations::Name.spec_name()), infix_pattern(term)),
        ],
        group_by: seq![],
        order_by: seq![cref_v(None, "order_column"@)],
        limit: Some(25),
    }
}

/// The statement of the country search.
pub fn countries_query(term: &String) -> (q: SelectQuery)
    ensures
        q@ == countries_view(term@),
{
    let ghost v = countries_view(term@);
    let items = vec![
        item(col(Locations::Id.name())),
        item(col(Locations::Name.name())),
        item_as(rank(None, term), "order_column"),
    ];
    let conditions = vec![
        bin(col(Locations::LocationType.name()), BinOp::Eq, text(LocationTypeEnum::Country.to_string())),
        ilike(col(Locations::Name.name()), infix_pattern_of(term)),
    ];
    let q = SelectQuery {
        items,
        from: TableRef { table: String::from_str(Locations::Table.name()), alias: None },
        joins: Vec::new(),
        conditions,
        group_by: Vec::new(),
        order_by: vec![cref(None, "order_column")],
        limit: Some(25),
    };
    assert(q@.items =~= v.items);
    assert(q@.joins =~= v.joins);
    assert(q@.conditions =~= v.conditions);
    assert(q@.group_by =~= v.group_by);
    assert(q@.order_by =~= v.order_by);
    q
}

/// The SQL of the country search.
pub fn fetch_countries(query: &CountryQuery) -> (s: String)
    ensures
        s@ == postgres_select(countries_view(query.term@)),
{
    select_sql(&countries_query(&query.term))
}

/// The SQL of the subdivision list: the id and name of every subdivision
/// of the country.
pub fn fetch_subdivisions(query: &SubdivisionQuery) -> (s: String)
    ensures
        s@ == postgres_select_where_equal(
            Locations::Table.spec_name(),
            seq![Locations::Id.spec_name(), Locations::Name.spec_name()],
            seq![
                (Locations::LocationType.spec_name(), LocationTypeEnum::Subdivision.text()),
                (Locations::CountryId.spec_name(), query.country_id@),
            ],
        ),
{
    let columns = vec![String::from_str(Locations::Id.name()), String::from_str(Locations::Name.name())];
    let conditions = vec![
        (String::from_str(Locations::LocationType.name()), LocationTypeEnum::Subdivision.to_string()),
        (String::from_str(Locations::CountryId.name()), query.country_id.clone()),
    ];
    assert(texts_view(columns@) =~= seq![Locations::Id.spec_name(), Locations::Name.spec_name()]);
    assert(pairs_view(conditions@) =~= seq![
        (Locations::LocationType.spec_name(), LocationTypeEnum::Subdivision.text()),
        (Locations::CountryId.spec_name(), query.country_id@),
    ]);
    sea_select_where_equal_sql(Locations::Table.name(), &columns, &conditions)
}

/// The city and country searches find a name that holds the term
/// anywhere, at its start, middle or end: among their conditions is the
/// name `ILIKE` the term between two `%` wildcards, for every term. The
/// city search reads the locations as `l`.
pub proof fn lemma_search_matches_anywhere(term: Seq<char>)
    ensures
        cities_view(term).from == (TableRefView { table: Locations::Table.spec_name(), alias: Some("l"@) }),
        cities_view(term).conditions.contains(SqlExprView::ILike(
            Box::new(SqlExprView::Term(TermView::Column(ColumnRefView { table: Some("l"@), column: Locations::Name.spec_name() }))),
            seq!['%'] + term + seq!['%'],
        )),
        countries_view(term).conditions.contains(SqlExprView::ILike(
            Box::new(SqlExprView::Term(TermView::Column(ColumnRefView { table: None, column: Locations::Name.spec_name() }))),
            seq!['%'] + term + seq!['%'],
        )),
{
    reveal_strlit("%");
    assert("%"@ =~= seq!['%']);
    assert(cities_view(term).conditions[1] == SqlExprView::ILike(
        Box::new(SqlExprView::Term(TermView::Column(ColumnRefView { table: Some("l"@), column: Locations::Name.spec_name() }))),
        seq!['%'] + term + seq!['%'],
    ));
    assert(countries_view(term).conditions[1] == SqlExprView::ILike(
        Box::new(SqlExprView::Term(TermView::Column(ColumnRefView { table: None, column: Locations::Name.spec_name() }))),
        seq!['%'] + term + seq!['%'],
    ));
}

/// The rank of a name in a search: 1 where it is the term (`ILIKE`, so
/// without regard to case), 2 where it starts with the term, 3 otherwise.
pub open spec fn search_rank(table: Option<Seq<char>>, term: Seq<char>) -> SqlExprView {
    SqlExprView::Case(
        seq![
            CaseArmView {
                column: ColumnRefView { table, column: Locations::Name.spec_name() },
                pattern: term,
                result: SqlValueView::Int(1),
            },
            CaseArmView {
                column: ColumnRefView { table, column: Locations::Name.spec_name() },
                pattern: term + seq!['%'],
                result: SqlValueView::Int(2),
            },
        ],
        SqlValueView::Int(3),
    )
}

/// Both searches list exact matches first, then names that start with the
/// term, then the rest, and at most 25 of them: each selects the rank as
/// `order_column`, orders by it alone, and is limited to 25 rows.
pub proof fn lemma_search_ranks_exact_then_prefix(term: Seq<char>)
    ensures
        cities_view(term).items.contains(SelectItemView { expr: search_rank(Some("l"@), term), alias: Some("order_column"@) }),
        countries_view(term).items.contains(SelectItemView { expr: search_rank(None, term), alias: Some("order_column"@) }),
        cities_view(term).order_by == seq![ColumnRefView { table: None, column: "order_column"@ }],
        countries_view(term).order_by == seq![ColumnRefView { table: None, column: "order_column"@ }],
        cities_view(term).limit == Some(25u64),
        countries_view(term).limit == Some(25u64),
{
    reveal_strlit("%");
    assert(prefix_pattern(term) =~= term + seq!['%']);
    assert(rank_v(Some("l"@), term) =~~= search_rank(Some("l"@), term));
    assert(rank_v(None, term) =~~= search_rank(None, term));
    assert(cities_view(term).items[4] == SelectItemView { expr: search_rank(Some("l"@), term), alias: Some("order_column"@) });
    assert(countries_view(term).items[2] == SelectItemView { expr: search_rank(None, term), alias: Some("order_column"@) });
}

} // verus!
