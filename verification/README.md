# trino_connector

A data connector for Trino whose decisions are verified with Verus.

- `src/` is the verified library. `connector.rs` holds the factory, the
  connector and the two requests that they make: one for a connection pool, one
  for a table provider. `parameters.rs` holds the declared parameters and the
  map of their values, `component.rs` what a connector is made for, `error.rs`
  how it fails, `table_reference.rs` how a dataset's path is read, and `laws.rs`
  what holds of all of it.
- `app/` awaits what the library asks for. `pool.rs` needs a build of
  `datafusion_table_providers` that carries Trino support.
- `tests/` runs the library.
