# meilisearch (verified parts)

- `src/search.rs` — `SearchTiming` (how long each part of a search took) and
  `SearchTimingHierarchy::from_flat_timing`, which arranges those timings under
  `parent > child` paths. Its contract is the map `timing_hierarchy`; the laws
  (`law_*`) state what every hierarchy satisfies.
- `src/routes/tasks_socket.rs` — the decisions of the task-update websocket as a
  state machine (`TaskWs`), with laws on what a connection is sent.
- `src/duration.rs`, `src/timing_map.rs` — the contracts the library relies on
  for `std::time::Duration` and for `BTreeMap<String, Duration>`.
- `app/lib.rs` — the actix websocket endpoint that drives `TaskWs`.
- `tests/` — the timing tests and tests of the laws on concrete values.
