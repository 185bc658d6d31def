//! Which migrations to run, and in what order; and the coordinates
//! migration's statements and the file they make.
use vstd::prelude::*;
use crate::data::db_schema::Locations;
use crate::data::locations::{Airport, City, Location};
use crate::sql::model::pairs_view;
use crate::sql::render::{postgres_update_raw_where_equal, sea_update_raw_where_equal_sql};
use crate::text::{text_less, less_than, lemma_text_less_transitive, lemma_text_less_total};

verus! {

/// The view of a list of names.
pub open spec fn names_view(v: Seq<String>) -> Seq<Seq<char>> {
    v.map_values(|s: String| s@)
}

/// Migration `i` has to run: its output file is not among the existing ones.
pub open spec fn is_pending(names: Seq<Seq<char>>, existing: Seq<Seq<char>>, i: int) -> bool {
    0 <= i < names.len() && !existing.contains(names[i])
}

/// Migration `i` runs before migration `j`: its name sorts first, or the
/// names are equal and it was registered first (the sort is stable).
pub open spec fn runs_before(names: Seq<Seq<char>>, i: int, j: int) -> bool {
    text_less(names[i], names[j]) || (names[i] == names[j] && i < j)
}

/// `order` lists each pending migration once, sorted by name, stably.
pub open spec fn is_run_order(
    names: Seq<Seq<char>>,
    existing: Seq<Seq<char>>,
    order: Seq<usize>,
) -> bool {
    &&& forall|k: int| 0 <= k < order.len() ==> is_pending(names, existing, #[trigger] order[k] as int)
    &&& forall|i: int| is_pending(names, existing, i) ==> #[trigger] order.contains(i as usize)
    &&& forall|a: int, b: int|
        0 <= a < b < order.len() ==> runs_before(names, #[trigger] order[a] as int, #[trigger] order[b] as int)
}

fn contains_name(existing: &Vec<String>, name: &String) -> (r: bool)
    ensures
        r == names_view(existing@).contains(name@),
{
    for k in 0..existing.len()
        invariant
            forall|j: int| 0 <= j < k ==> existing@[j]@ != name@,
    {
        if existing[k] == *name {
            assert(names_view(existing@)[k as int] == name@);
            return true;
        }
    }
    assert forall|j: int| 0 <= j < names_view(existing@).len() implies names_view(existing@)[j] != name@ by {
        assert(names_view(existing@)[j] == existing@[j]@);
    }
    false
}

/// The migrations to run, by their place in `names`: those whose output
/// file name is not in `existing`, sorted by that name (two with the same
/// name keep their order).
pub fn pending_migrations(names: &Vec<String>, existing: &Vec<String>) -> (order: Vec<usize>)
    ensures
        is_run_order(names_view(names@), names_view(existing@), order@),
{
    let ghost ns = names_view(names@);
    let ghost ex = names_view(existing@);
    let mut order: Vec<usize> = Vec::new();
    for i in 0..names.len()
        invariant
            ns == names_view(names@),
            ex == names_view(existing@),
            forall|k: int| 0 <= k < order@.len() ==> is_pending(ns, ex, #[trigger] order@[k] as int) && order@[k] < i,
            forall|j: int| 0 <= j < i && is_pending(ns, ex, j) ==> #[trigger] order@.contains(j as usize),
            forall|a: int, b: int|
                0 <= a < b < order@.len() ==> runs_before(ns, #[trigger] order@[a] as int, #[trigger] order@[b] as int),
    {
        assert(ns[i as int] == names@[i as int]@);
        if !contains_name(existing, &names[i]) {
            let mut pos: usize = 0;
            while pos < order.len() && !less_than(names[i].as_str(), names[order[pos]].as_str())
                invariant
                    ns == names_view(names@),
                    i < names@.len(),
                    pos <= order@.len(),
                    forall|k: int| 0 <= k < order@.len() ==> #[trigger] order@[k] < i,
                    forall|k: int| 0 <= k < order@.len() ==> is_pending(ns, ex, #[trigger] order@[k] as int),
                    forall|k: int| 0 <= k < pos ==> !text_less(ns[i as int], #[trigger] ns[order@[k] as int]),
                decreases order@.len() - pos,
            {
                assert(ns[order@[pos as int] as int] == names@[order@[pos as int] as int]@);
                pos = pos + 1;
            }
            let ghost old_order = order@;
            proof {
                if pos < order@.len() {
                    assert(ns[order@[pos as int] as int] == names@[order@[pos as int] as int]@);
                }
                // what stands before `pos` runs before `i`; what stands from `pos` on runs after
                assert forall|k: int| 0 <= k < pos implies runs_before(ns, #[trigger] old_order[k] as int, i as int) by {
                    let o = old_order[k] as int;
                    if ns[o] != ns[i as int] {
                        lemma_text_less_total(ns[o], ns[i as int]);
                    }
                }
                assert forall|k: int| pos <= k < old_order.len() implies runs_before(ns, i as int, #[trigger] old_order[k] as int) by {
                    let p = old_order[pos as int] as int;
                    let o = old_order[k] as int;
                    if k > pos {
                        assert(runs_before(ns, old_order[pos as int] as int, old_order[k] as int));
                        if text_less(ns[p], ns[o]) {
                            lemma_text_less_transitive(ns[i as int], ns[p], ns[o]);
                        }
                    }
                }
            }
            order.insert(pos, i);
            proof {
                assert forall|a: int, b: int| 0 <= a < b < order@.len() implies runs_before(ns, #[trigger] order@[a] as int, #[trigger] order@[b] as int) by {
                    if b < pos {
                        assert(order@[a] == old_order[a] && order@[b] == old_order[b]);
                    } else if b == pos {
                        assert(order@[a] == old_order[a]);
                    } else if a < pos {
                        assert(order@[a] == old_order[a] && order@[b] == old_order[b - 1]);
                        assert(runs_before(ns, old_order[a] as int, old_order[b - 1] as int));
                    } else if a == pos {
                        assert(order@[b] == old_order[b - 1]);
                    } else {
                        assert(order@[a] == old_order[a - 1] && order@[b] == old_order[b - 1]);
                        assert(runs_before(ns, old_order[a - 1] as int, old_order[b - 1] as int));
                    }
                }
                assert forall|j: int| 0 <= j < i + 1 && is_pending(ns, ex, j) implies #[trigger] order@.contains(j as usize) by {
                    if j == i {
                        assert(order@[pos as int] == i);
                    } else {
                        assert(old_order.contains(j as usize));
                        let k = choose|k: int| 0 <= k < old_order.len() && old_order[k] == j as usize;
                        if k < pos {
                            assert(order@[k] == old_order[k]);
                        } else {
                            assert(order@[k + 1] == old_order[k]);
                        }
                    }
                }
                assert forall|k: int| 0 <= k < order@.len() implies is_pending(ns, ex, #[trigger] order@[k] as int) && order@[k] < i + 1 by {
                    if k < pos {
                        assert(order@[k] == old_order[k]);
                    } else if k > pos {
                        assert(order@[k] == old_order[k - 1]);
                    }
                }
            }
        }
    }
    order
}

/// A migration that sets the coordinates of every city and airport.
pub struct PopulateLocationsMigration {}

impl PopulateLocationsMigration {
    pub open spec fn spec_output_file_name() -> Seq<char> {
        "010_populate_coordinates_columns.sql"@
    }

    /// The file, under `./migrations/`, that this migration writes.
    pub fn output_file_name(&self) -> (s: &'static str)
        ensures
            s@ == Self::spec_output_file_name(),
    {
        "010_populate_coordinates_columns.sql"
    }
}

/// The SQL that sets the coordinates of one location:
/// `UPDATE locations SET latitude = lat, longitude = lon WHERE id = location_id`,
/// with the coordinates written as their decimal text.
pub fn update_coordinates_statement(location_id: &String, location: &Location) -> (s: String)
    ensures
        s@ == postgres_update_raw_where_equal(
            Locations::Table.spec_name(),
            seq![
                (Locations::Latitude.spec_name(), location.lat@),
                (Locations::Longitude.spec_name(), location.lon@),
            ],
            Locations::Id.spec_name(),
            location_id@,
        ),
{
    let assignments = vec![
        (String::from_str(Locations::Latitude.name()), location.lat.clone()),
        (String::from_str(Locations::Longitude.name()), location.lon.clone()),
    ];
    assert(pairs_view(assignments@) =~= seq![
        (Locations::Latitude.spec_name(), location.lat@),
        (Locations::Longitude.spec_name(), location.lon@),
    ]);
    sea_update_raw_where_equal_sql(Locations::Table.name(), &assignments, Locations::Id.name(), location_id.as_str())
}

/// One line of the coordinates file: the update of one location, then `;`
/// and a newline.
pub open spec fn coordinates_line(location_id: Seq<char>, location: Location) -> Seq<char> {
    postgres_update_raw_where_equal(
        Locations::Table.spec_name(),
        seq![
            (Locations::Latitude.spec_name(), location.lat@),
            (Locations::Longitude.spec_name(), location.lon@),
        ],
        Locations::Id.spec_name(),
        location_id,
    ) + ";\n"@
}

/// Every city has coordinates.
pub open spec fn cities_located(cities: Seq<City>) -> bool {
    forall|i: int| 0 <= i < cities.len() ==> (#[trigger] cities[i]).location is Some
}

/// The lines of the coordinates file for some cities, in their order.
pub open spec fn city_lines(cities: Seq<City>) -> Seq<char>
    decreases cities.len(),
{
    if cities.len() == 0 {
        Seq::empty()
    } else {
        city_lines(cities.drop_last()) + coordinates_line(cities.last().id@, cities.last().location->Some_0)
    }
}

/// The lines of the coordinates file for some airports, in their order.
pub open spec fn airport_lines(airports: Seq<Airport>) -> Seq<char>
    decreases airports.len(),
{
    if airports.len() == 0 {
        Seq::empty()
    } else {
        airport_lines(airports.drop_last()) + coordinates_line(airports.last().id@, airports.last().location)
    }
}

/// The part of the coordinates file that sets the coordinates of the
/// cities, each of which has them.
pub fn city_coordinates_text(cities: &Vec<City>) -> (s: String)
    requires
        cities_located(cities@),
    ensures
        s@ == city_lines(cities@),
{
    let mut s = String::new();
    for i in 0..cities.len()
        invariant
            cities_located(cities@),
            s@ == city_lines(cities@.take(i as int)),
    {
        let c = &cities[i];
        assert(cities@.take(i + 1).drop_last() =~= cities@.take(i as int));
        assert(cities@[i as int].location is Some);
        match &c.location {
            Some(l) => {
                let line = update_coordinates_statement(&c.id, l);
                s.append(line.as_str());
                s.append(";\n");
            },
            None => {},
        }
    }
    assert(cities@.take(cities.len() as int) =~= cities@);
    s
}

/// The part of the coordinates file that sets the coordinates of the
/// airports.
pub fn airport_coordinates_text(airports: &Vec<Airport>) -> (s: String)
    ensures
        s@ == airport_lines(airports@),
{
    let mut s = String::new();
    for i in 0..airports.len()
        invariant
            s@ == airport_lines(airports@.take(i as int)),
    {
        let a = &airports[i];
        assert(airports@.take(i + 1).drop_last() =~= airports@.take(i as int));
        let line = update_coordinates_statement(&a.id, &a.location);
        s.append(line.as_str());
        s.append(";\n");
    }
    assert(airports@.take(airports.len() as int) =~= airports@);
    s
}

} // verus!
