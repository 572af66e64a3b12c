# indradb_lib

The data model of the graph datastore's fuzzing operations, verified with Verus.

- `src/` (verified): the operation and query types; the decisions that turn
  values drawn from fuzzer input into identifiers (`identifier.rs`), vertex ids
  (`vertex_id.rs`, through `uuid`), timestamps (`timestamp.rs`, through
  `chrono`) and finite floats (`finite_float.rs`, on the IEEE 754 bit pattern,
  with `0.0 == -0.0`); JSON values whose objects hold each key once and compare
  equal whatever the order of their members (`json.rs`); and the plugin
  interface's version record and its text (`version.rs`).
- `app/`: drawing values from `arbitrary::Unstructured`, and handing values to
  `serde_json` (JSON numbers include floats) and `chrono`.
- `tests/`: tests on concrete values.

Not here: converting these types into the datastore's own types, and the
harness that runs each operation against two datastores and compares their
answers. Both need the datastore crate itself, which is not available to this
build.
