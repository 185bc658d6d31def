# flights

The logic of a flight-deal monitor: a data service that loads locations
from a locations API into PostgreSQL, a monitor that searches round trips
for watched routes and stores the itineraries it finds, and a web service
for location search, trip registration and the pages of monitored trips.

- `src/` is the verified library (Verus). The SQL statements the services
  send are built there as plain models (`sql::model`) with exact
  contracts. Each kind of statement is then written by one trusted call
  to sea-query (`sql::render`), and the contract of every function that
  returns SQL states its text as sea-query's text of that exact model
  (`postgres_select(q@)`, `insert_text(q@)`, ...), or, for a few plain
  lookups, of exactly the plain values handed over. How each part of a
  model becomes a sea-query value (`expr_to_sea` and its kin) is verified
  code whose results are opaque, so it is checked by the tests, which
  hold every operator and join against the text sea-query writes.
  `sql::meaning` says what a condition means on a row and what an insert
  leaves in a table, so that laws over the database (a wider search
  radius finds more airports; adding the missing routes twice is adding
  them once) are stated of the statement models and proved.
  Instants are seconds and nanoseconds since the epoch (`time`); chrono
  formats them.
  - `data`: settings, table and column names, location types, the inserts
    of harvested locations, paging through the locations API, which
    migrations to run in which order, and the coordinates file.
  - `monitor`: search parameters, the search window, the choice of the
    departure and return flights of a trip, and the statements that store
    itineraries and flights.
  - `web`: the location searches, trip registration (airports, routes,
    trip name) and the trip pages.
- `app/` is the program around it: configuration, HTTP, the database, the
  async runtime. `flights data [generate]`, `flights monitor` or
  `flights web` starts one service.
- `tests/` runs the library, and holds its SQL against the text sea-query
  writes for the same statements built by hand.
