# rs_mock_server

The logic of a mock HTTP server driven by a folder of files, verified by
Verus: how files and folders become routes, the in-memory collections and
their queries, and the answers of the routes. The library in `src/` states
what each function returns in `requires`/`ensures` contracts and proves them.
`app/` is a command-line program around it: it runs the generator wizard in
the terminal, maps the mock folder to routes and loads the seed data. It
does not serve HTTP.

## Layout

- `src/build_dyn_routes.rs`, `src/collection_files.rs`, `src/file_types.rs`:
  how file and folder names become routes, collections and content kinds.
- `src/in_memory_collection.rs`, `src/memory_db/`: in-memory JSON collections
  keyed by id, criteria (`WHERE` clauses) and the queries that use them.
- `src/criteria.rs`: single comparisons (`=`, `!=`, `<`, `LIKE`, `IS NULL`, ...).
- `src/handlers/`: the answers of the HTTP routes over plain values
  (errors, login and tokens, collection schemas, uploads, GraphQL plans).
- `src/generator/`: the generator wizard (a state machine over key presses)
  and the files it plans to write.
- `src/json_value.rs`, `src/json_map.rs`, `src/text.rs`: JSON values, JSON
  objects ordered by key, and text helpers.
- `tests/`: tests on concrete values.
