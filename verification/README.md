# AIRA Platform

A small HTTP service that keeps the last known state of entities. An entity is a JSON object with
an id, a type and any other members. It is written with `PUT` or changed with a JSON Merge Patch,
each write counts its version up, and an `If-Match` precondition guards against lost updates.

- `src/` is the library, verified with Verus: entity documents, what reads and writes mean, the
  store in memory, the steps of a write on a database table, header handling, the API key guard and
  the answers. `src/laws.rs`, `src/history.rs` and `src/database.rs` state what holds of them
  together: of a request and an answer, over any sequence of writes, and on a database that may
  fail.
- `app/` is the service round it: routing, the environment, the lock round the store in memory, the
  SQL, and logging.
- `tests/` runs the library on concrete values.

What is trusted stands beside a doc comment that says so: the `serde_json` and `json_patch` items in
`src/json.rs`, the `http` and `uuid` items in `src/headers.rs`, the clock in `src/clock.rs`, and
some text functions of the standard library in `src/text.rs`.
