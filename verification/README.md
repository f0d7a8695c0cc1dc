# hypostats

A PostgreSQL extension that moves planner statistics between database
instances: a table's `pg_class`, `pg_attribute` and `pg_statistic` rows are
dumped to JSON, optionally edited, and loaded into another instance, where a
planner hook makes the planner see the loaded table size.

- `src/` is the verified library (Verus): the rules for editing a
  `pg_statistic` row (`statistic`, `stavalues`), the catalog name encoding
  (`name_data`), the load decisions and relation-size overrides
  (`catalog`), the SQL text and result rendering of the HTTP front end
  (`server`), and text helpers (`text`).
- `app/` is the glue: the pgrx functions that read and write the catalogs,
  the planner hook, the floating-point checks, and the tide/sqlx server.
- `tests/` runs the library on concrete values.
