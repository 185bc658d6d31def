//! The statements that load harvested locations into the `locations`
//! table, one per kind of location, and the pick of `.sql` files.
use vstd::prelude::*;
use crate::data::db_schema::{Locations, LocationTypeEnum};
use crate::data::locations::{
    Airport, AutonomousTerritory, City, Continent, Country, Region, Subdivision,
};
use crate::sql::model::{InsertQuery, InsertQueryView, SqlValue, SqlValueView, values_view, rows_view, texts_view};
use crate::sql::render::{insert_sql, insert_text, rows_fit};
use crate::text::{ends_with, has_suffix};

verus! {

/// The column of a location's continent: its id, or `NULL`.
pub open spec fn continent_value(c: Option<Continent>) -> SqlValueView {
    match c {
        Some(c) => SqlValueView::Text(c.id@),
        None => SqlValueView::Null,
    }
}

/// The column of a location's region: its id, or `NULL`.
pub open spec fn region_value(r: Option<Region>) -> SqlValueView {
    match r {
        Some(r) => SqlValueView::Text(r.id@),
        None => SqlValueView::Null,
    }
}

/// The column of a location's country: its id, or `NULL`.
pub open spec fn country_value(c: Option<Country>) -> SqlValueView {
    match c {
        Some(c) => SqlValueView::Text(c.id@),
        None => SqlValueView::Null,
    }
}

/// The column of a city's country: its id, or `NULL` when there is none
/// or the API names it `ZZ` (unknown or disputed).
pub open spec fn listed_country_value(c: Option<Country>) -> SqlValueView {
    match c {
        Some(c) => if c.id@ == "ZZ"@ { SqlValueView::Null } else { SqlValueView::Text(c.id@) },
        None => SqlValueView::Null,
    }
}

/// The column of a location's subdivision: its id, or `NULL`.
pub open spec fn subdivision_value(s: Option<Subdivision>) -> SqlValueView {
    match s {
        Some(s) => SqlValueView::Text(s.id@),
        None => SqlValueView::Null,
    }
}

fn continent_sql(c: &Option<Continent>) -> (v: SqlValue)
    ensures
        v@ == continent_value(*c),
{
    match c {
        Some(c) => SqlValue::Text(c.id.clone()),
        None => SqlValue::Null,
    }
}

fn region_sql(r: &Option<Region>) -> (v: SqlValue)
    ensures
        v@ == region_value(*r),
{
    match r {
        Some(r) => SqlValue::Text(r.id.clone()),
        None => SqlValue::Null,
    }
}

fn country_sql(c: &Option<Country>) -> (v: SqlValue)
    ensures
        v@ == country_value(*c),
{
    match c {
        Some(c) => SqlValue::Text(c.id.clone()),
        None => SqlValue::Null,
    }
}

fn listed_country_sql(c: &Option<Country>) -> (v: SqlValue)
    ensures
        v@ == listed_country_value(*c),
{
    match c {
        Some(c) => {
            let zz = String::from_str("ZZ");
            if c.id == zz {
                SqlValue::Null
            } else {
                SqlValue::Text(c.id.clone())
            }
        },
        None => SqlValue::Null,
    }
}

fn subdivision_sql(s: &Option<Subdivision>) -> (v: SqlValue)
    ensures
        v@ == subdivision_value(*s),
{
    match s {
        Some(s) => SqlValue::Text(s.id.clone()),
        None => SqlValue::Null,
    }
}

fn kind_sql(kind: LocationTypeEnum) -> (v: SqlValue)
    ensures
        v@ == SqlValueView::Text(kind.text()),
{
    SqlValue::Text(kind.to_string())
}

/// A location that becomes one row of the `locations` table.
pub trait LocationRow: Sized {
    /// The values of the row.
    spec fn row(self) -> Seq<SqlValueView>;

    fn to_row(&self) -> (r: Vec<SqlValue>)
        ensures
            values_view(r@) == self.row();
}

pub open spec fn continent_row(c: Continent) -> Seq<SqlValueView> {
    seq![
        SqlValueView::Text(c.id@),
        SqlValueView::Text(c.name@),
        SqlValueView::Text(LocationTypeEnum::Continent.text()),
    ]
}

pub open spec fn region_row(r: Region) -> Seq<SqlValueView> {
    seq![
        SqlValueView::Text(r.id@),
        SqlValueView::Text(r.name@),
        continent_value(r.continent),
        SqlValueView::Text(LocationTypeEnum::Region.text()),
    ]
}

pub open spec fn country_row(c: Country) -> Seq<SqlValueView> {
    seq![
        SqlValueView::Text(c.id@),
        SqlValueView::Text(c.name@),
        continent_value(c.continent),
        region_value(c.region),
        SqlValueView::Text(LocationTypeEnum::Country.text()),
    ]
}

pub open spec fn territory_row(t: AutonomousTerritory) -> Seq<SqlValueView> {
    seq![
        SqlValueView::Text(t.id@),
        SqlValueView::Text(t.name@),
        continent_value(t.continent),
        region_value(t.region),
        country_value(t.country),
        SqlValueView::Text(LocationTypeEnum::AutonomousTerritory.text()),
    ]
}

pub open spec fn subdivision_row(s: Subdivision) -> Seq<SqlValueView> {
    seq![
        SqlValueView::Text(s.id@),
        SqlValueView::Text(s.name@),
        continent_value(s.continent),
        region_value(s.region),
        country_value(s.country),
        SqlValueView::Text(LocationTypeEnum::Subdivision.text()),
    ]
}

pub open spec fn city_row(c: City) -> Seq<SqlValueView> {
    seq![
        SqlValueView::Text(c.id@),
        SqlValueView::Text(c.name@),
        continent_value(c.continent),
        region_value(c.region),
        listed_country_value(c.country),
        subdivision_value(c.subdivision),
        SqlValueView::Text(LocationTypeEnum::City.text()),
    ]
}

/// An airport's row takes its continent, region, country, subdivision and
/// city from the city it belongs to (all `NULL` without one), and not from
/// the airport's own fields.
pub open spec fn airport_row(a: Airport) -> Seq<SqlValueView> {
    match a.city {
        Some(c) => seq![
            SqlValueView::Text(a.id@),
            SqlValueView::Text(a.name@),
            continent_value(c.continent),
            region_value(c.region),
            listed_country_value(c.country),
            subdivision_value(c.subdivision),
            SqlValueView::Text(c.id@),
            SqlValueView::Text(LocationTypeEnum::Airport.text()),
        ],
        None => seq![
            SqlValueView::Text(a.id@),
            SqlValueView::Text(a.name@),
            SqlValueView::Null,
            SqlValueView::Null,
            SqlValueView::Null,
            SqlValueView::Null,
            SqlValueView::Null,
            SqlValueView::Text(LocationTypeEnum::Airport.text()),
        ],
    }
}

impl LocationRow for Continent {
    open spec fn row(self) -> Seq<SqlValueView> {
        continent_row(self)
    }

    fn to_row(&self) -> (r: Vec<SqlValue>) {
        let r = vec![
            SqlValue::Text(self.id.clone()),
            SqlValue::Text(self.name.clone()),
            kind_sql(LocationTypeEnum::Continent),
        ];
        assert(values_view(r@) =~= self.row());
        r
    }
}

impl LocationRow for Region {
    open spec fn row(self) -> Seq<SqlValueView> {
        region_row(self)
    }

    fn to_row(&self) -> (r: Vec<SqlValue>) {
        let r = vec![
            SqlValue::Text(self.id.clone()),
            SqlValue::Text(self.name.clone()),
            continent_sql(&self.continent),
            kind_sql(LocationTypeEnum::Region),
        ];
        assert(values_view(r@) =~= self.row());
        r
    }
}

impl LocationRow for Country {
    open spec fn row(self) -> Seq<SqlValueView> {
        country_row(self)
    }

    fn to_row(&self) -> (r: Vec<SqlValue>) {
        let r = vec![
            SqlValue::Text(self.id.clone()),
            SqlValue::Text(self.name.clone()),
            continent_sql(&self.continent),
            region_sql(&self.region),
            kind_sql(LocationTypeEnum::Country),
        ];
        assert(values_view(r@) =~= self.row());
        r
    }
}

impl LocationRow for AutonomousTerritory {
    open spec fn row(self) -> Seq<SqlValueView> {
        territory_row(self)
    }

    fn to_row(&self) -> (r: Vec<SqlValue>) {
        let r = vec![
            SqlValue::Text(self.id.clone()),
            SqlValue::Text(self.name.clone()),
            continent_sql(&self.continent),
            region_sql(&self.region),
            country_sql(&self.country),
            kind_sql(LocationTypeEnum::AutonomousTerritory),
        ];
        assert(values_view(r@) =~= self.row());
        r
    }
}

impl LocationRow for Subdivision {
    open spec fn row(self) -> Seq<SqlValueView> {
        subdivision_row(self)
    }

    fn to_row(&self) -> (r: Vec<SqlValue>) {
        let r = vec![
            SqlValue::Text(self.id.clone()),
            SqlValue::Text(self.name.clone()),
            continent_sql(&self.continent),
            region_sql(&self.region),
            country_sql(&self.country),
            kind_sql(LocationTypeEnum::Subdivision),
        ];
        assert(values_view(r@) =~= self.row());
        r
    }
}

impl LocationRow for City {
    open spec fn row(self) -> Seq<SqlValueView> {
        city_row(self)
    }

    fn to_row(&self) -> (r: Vec<SqlValue>) {
        let r = vec![
            SqlValue::Text(self.id.clone()),
            SqlValue::Text(self.name.clone()),
            continent_sql(&self.continent),
            region_sql(&self.region),
            listed_country_sql(&self.country),
            subdivision_sql(&self.subdivision),
            kind_sql(LocationTypeEnum::City),
        ];
        assert(values_view(r@) =~= self.row());
        r
    }
}

impl LocationRow for Airport {
    open spec fn row(self) -> Seq<SqlValueView> {
        airport_row(self)
    }

    fn to_row(&self) -> (r: Vec<SqlValue>) {
        let r = match &self.city {
            Some(c) => vec![
                SqlValue::Text(self.id.clone()),
                SqlValue::Text(self.name.clone()),
                continent_sql(&c.continent),
                region_sql(&c.region),
                listed_country_sql(&c.country),
                subdivision_sql(&c.subdivision),
                SqlValue::Text(c.id.clone()),
                kind_sql(LocationTypeEnum::Airport),
            ],
            None => vec![
                SqlValue::Text(self.id.clone()),
                SqlValue::Text(self.name.clone()),
                SqlValue::Null,
                SqlValue::Null,
                SqlValue::Null,
                SqlValue::Null,
                SqlValue::Null,
                kind_sql(LocationTypeEnum::Airport),
            ],
        };
        assert(values_view(r@) =~= self.row());
        r
    }
}

/// The names of some columns.
pub open spec fn column_names(columns: Seq<Locations>) -> Seq<Seq<char>> {
    columns.map_values(|c: Locations| c.spec_name())
}

/// `INSERT INTO locations (columns) VALUES rows`.
pub open spec fn locations_insert_view(
    columns: Seq<Locations>,
    rows: Seq<Seq<SqlValueView>>,
) -> InsertQueryView {
    InsertQueryView {
        table: Locations::Table.spec_name(),
        columns: column_names(columns),
        rows,
        ignore_conflicts: false,
        returning: None,
    }
}

/// The rows of some locations.
pub open spec fn rows_of<T: LocationRow>(items: Seq<T>) -> Seq<Seq<SqlValueView>> {
    items.map_values(|t: T| t.row())
}

fn names_of(columns: &Vec<Locations>) -> (r: Vec<String>)
    ensures
        texts_view(r@) == column_names(columns@),
{
    let mut r: Vec<String> = Vec::new();
    for i in 0..columns.len()
        invariant
            texts_view(r@) == column_names(columns@.take(i as int)),
    {
        r.push(String::from_str(columns[i].name()));
        assert(column_names(columns@.take(i + 1)) =~= column_names(columns@.take(i as int)).push(
            columns@[i as int].spec_name(),
        ));
        assert(texts_view(r@) =~= column_names(columns@.take(i + 1)));
    }
    assert(columns@.take(columns.len() as int) =~= columns@);
    r
}

fn locations_insert<T: LocationRow>(columns: Vec<Locations>, items: &Vec<T>) -> (q: InsertQuery)
    ensures
        q@ == locations_insert_view(columns@, rows_of(items@)),
{
    let mut rows: Vec<Vec<SqlValue>> = Vec::new();
    for i in 0..items.len()
        invariant
            rows_view(rows@) == rows_of(items@.take(i as int)),
    {
        rows.push(items[i].to_row());
        assert(rows_of(items@.take(i + 1)) =~= rows_of(items@.take(i as int)).push(
            items@[i as int].row(),
        ));
        assert(rows_view(rows@) =~= rows_of(items@.take(i + 1)));
    }
    assert(items@.take(items.len() as int) =~= items@);
    InsertQuery {
        table: String::from_str(Locations::Table.name()),
        columns: names_of(&columns),
        rows,
        ignore_conflicts: false,
        returning: None,
    }
}

pub open spec fn continent_columns() -> Seq<Locations> {
    seq![Locations::Id, Locations::Name, Locations::LocationType]
}

pub open spec fn region_columns() -> Seq<Locations> {
    seq![Locations::Id, Locations::Name, Locations::ContinentId, Locations::LocationType]
}

pub open spec fn country_columns() -> Seq<Locations> {
    seq![
        Locations::Id,
        Locations::Name,
        Locations::ContinentId,
        Locations::RegionId,
        Locations::LocationType,
    ]
}

/// The columns of territories and of subdivisions.
pub open spec fn territory_columns() -> Seq<Locations> {
    seq![
        Locations::Id,
        Locations::Name,
        Locations::ContinentId,
        Locations::RegionId,
        Locations::CountryId,
        Locations::LocationType,
    ]
}

pub open spec fn city_columns() -> Seq<Locations> {
    seq![
        Locations::Id,
        Locations::Name,
        Locations::ContinentId,
        Locations::RegionId,
        Locations::CountryId,
        Locations::SubdivisionId,
        Locations::LocationType,
    ]
}

pub open spec fn airport_columns() -> Seq<Locations> {
    seq![
        Locations::Id,
        Locations::Name,
        Locations::ContinentId,
        Locations::RegionId,
        Locations::CountryId,
        Locations::SubdivisionId,
        Locations::CityId,
        Locations::LocationType,
    ]
}

/// The insert of all continents.
pub fn continents_insert(continents: &Vec<Continent>) -> (q: InsertQuery)
    ensures
        q@ == locations_insert_view(continent_columns(), rows_of(continents@)),
{
    let q = locations_insert(vec![Locations::Id, Locations::Name, Locations::LocationType], continents);
    assert(column_names(seq![Locations::Id, Locations::Name, Locations::LocationType]) =~= column_names(continent_columns()));
    q
}

/// The insert of all regions.
pub fn regions_insert(regions: &Vec<Region>) -> (q: InsertQuery)
    ensures
        q@ == locations_insert_view(region_columns(), rows_of(regions@)),
{
    let cols = vec![Locations::Id, Locations::Name, Locations::ContinentId, Locations::LocationType];
    assert(cols@ =~= region_columns());
    locations_insert(cols, regions)
}

/// The insert of all countries.
pub fn countries_insert(countries: &Vec<Country>) -> (q: InsertQuery)
    ensures
        q@ == locations_insert_view(country_columns(), rows_of(countries@)),
{
    let cols = vec![
        Locations::Id,
        Locations::Name,
        Locations::ContinentId,
        Locations::RegionId,
        Locations::LocationType,
    ];
    assert(cols@ =~= country_columns());
    locations_insert(cols, countries)
}

fn territory_column_list() -> (cols: Vec<Locations>)
    ensures
        cols@ == territory_columns(),
{
    let cols = vec![
        Locations::Id,
        Locations::Name,
        Locations::ContinentId,
        Locations::RegionId,
        Locations::CountryId,
        Locations::LocationType,
    ];
    assert(cols@ =~= territory_columns());
    cols
}

/// The insert of all autonomous territories.
pub fn territories_insert(territories: &Vec<AutonomousTerritory>) -> (q: InsertQuery)
    ensures
        q@ == locations_insert_view(territory_columns(), rows_of(territories@)),
{
    locations_insert(territory_column_list(), territories)
}

/// The insert of all subdivisions.
pub fn subdivisions_insert(subdivisions: &Vec<Subdivision>) -> (q: InsertQuery)
    ensures
        q@ == locations_insert_view(territory_columns(), rows_of(subdivisions@)),
{
    locations_insert(territory_column_list(), subdivisions)
}

/// The insert of all cities.
pub fn cities_insert(cities: &Vec<City>) -> (q: InsertQuery)
    ensures
        q@ == locations_insert_view(city_columns(), rows_of(cities@)),
{
    let cols = vec![
        Locations::Id,
        Locations::Name,
        Locations::ContinentId,
        Locations::RegionId,
        Locations::CountryId,
        Locations::SubdivisionId,
        Locations::LocationType,
    ];
    assert(cols@ =~= city_columns());
    locations_insert(cols, cities)
}

/// The insert of all airports.
pub fn airports_insert(airports: &Vec<Airport>) -> (q: InsertQuery)
    ensures
        q@ == locations_insert_view(airport_columns(), rows_of(airports@)),
{
    let cols = vec![
        Locations::Id,
        Locations::Name,
        Locations::ContinentId,
        Locations::RegionId,
        Locations::CountryId,
        Locations::SubdivisionId,
        Locations::CityId,
        Locations::LocationType,
    ];
    assert(cols@ =~= airport_columns());
    locations_insert(cols, airports)
}

/// The statement that loads rows into the `locations` table, as
/// sea-query writes it, ended by `;`.
pub open spec fn locations_insert_text(columns: Seq<Locations>, rows: Seq<Seq<SqlValueView>>) -> Seq<char> {
    insert_text(locations_insert_view(columns, rows)) + ";"@
}

/// The text of an insert, ended by `;`.
fn statement_text(q: &InsertQuery) -> (s: String)
    requires
        rows_fit(q@),
    ensures
        s@ == insert_text(q@) + ";"@,
{
    let mut s = insert_sql(q);
    s.append(";");
    s
}

/// The SQL that loads all continents.
pub fn build_insert_continents_query(continents: &Vec<Continent>) -> (s: String)
    ensures
        s@ == locations_insert_text(continent_columns(), rows_of(continents@)),
{
    let q = continents_insert(continents);
    assert(rows_fit(q@));
    statement_text(&q)
}

/// The SQL that loads all regions.
pub fn build_insert_regions_query(regions: &Vec<Region>) -> (s: String)
    ensures
        s@ == locations_insert_text(region_columns(), rows_of(regions@)),
{
    let q = regions_insert(regions);
    assert(rows_fit(q@));
    statement_text(&q)
}

/// The SQL that loads all countries.
pub fn build_insert_countries_query(countries: &Vec<Country>) -> (s: String)
    ensures
        s@ == locations_insert_text(country_columns(), rows_of(countries@)),
{
    let q = countries_insert(countries);
    assert(rows_fit(q@));
    statement_text(&q)
}

/// The SQL that loads all autonomous territories.
pub fn build_insert_autonomous_territories_query(territories: &Vec<AutonomousTerritory>) -> (s: String)
    ensures
        s@ == locations_insert_text(territory_columns(), rows_of(territories@)),
{
    let q = territories_insert(territories);
    assert(rows_fit(q@));
    statement_text(&q)
}

/// The SQL that loads all subdivisions.
pub fn build_insert_subdivisions_query(subdivisions: &Vec<Subdivision>) -> (s: String)
    ensures
        s@ == locations_insert_text(territory_columns(), rows_of(subdivisions@)),
{
    let q = subdivisions_insert(subdivisions);
    assert(rows_fit(q@));
    statement_text(&q)
}

/// The SQL that loads all cities.
pub fn build_insert_cities_query(cities: &Vec<City>) -> (s: String)
    ensures
        s@ == locations_insert_text(city_columns(), rows_of(cities@)),
{
    let q = cities_insert(cities);
    assert(rows_fit(q@));
    statement_text(&q)
}

/// The SQL that loads all airports.
pub fn build_insert_airports_query(airports: &Vec<Airport>) -> (s: String)
    ensures
        s@ == locations_insert_text(airport_columns(), rows_of(airports@)),
{
    let q = airports_insert(airports);
    assert(rows_fit(q@));
    statement_text(&q)
}

/// The name of a directory entry that is a file whose name ends in `.sql`;
/// `None` for anything else, and for a name that is not valid Unicode.
pub open spec fn sql_file(is_file: bool, name: Option<Seq<char>>) -> Option<Seq<char>> {
    match name {
        Some(n) => if is_file && has_suffix(n, ".sql"@) { Some(n) } else { None },
        None => None,
    }
}

/// The name of a directory entry if it is an `.sql` file: `is_file` tells
/// whether the entry is a file, `name` is its name where it is valid
/// Unicode.
pub fn get_name_if_sql(is_file: bool, name: Option<String>) -> (r: Option<String>)
    ensures
        crate::time::opt_text_view(r) == sql_file(is_file, crate::time::opt_text_view(name)),
{
    match name {
        Some(n) => {
            if is_file && ends_with(n.as_str(), ".sql") {
                Some(n)
            } else {
                None
            }
        },
        None => None,
    }
}

/// A city's row never stores the country `ZZ`, which the API sends for
/// cities of unknown or disputed country.
pub proof fn lemma_city_row_skips_unknown_country(c: City)
    ensures
        city_row(c)[4] != SqlValueView::Text("ZZ"@),
        c.country is Some && c.country->Some_0.id@ != "ZZ"@ ==> city_row(c)[4] == SqlValueView::Text(c.country->Some_0.id@),
{
}

/// Every location's row has one value per column of its kind.
pub proof fn lemma_rows_match_columns(
    c: Continent,
    r: Region,
    k: Country,
    t: AutonomousTerritory,
    s: Subdivision,
    y: City,
    a: Airport,
)
    ensures
        continent_row(c).len() == continent_columns().len(),
        region_row(r).len() == region_columns().len(),
        country_row(k).len() == country_columns().len(),
        territory_row(t).len() == territory_columns().len(),
        subdivision_row(s).len() == territory_columns().len(),
        city_row(y).len() == city_columns().len(),
        airport_row(a).len() == airport_columns().len(),
{
}

} // verus!
