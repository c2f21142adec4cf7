# arena_logic

The rules of a small multiplayer arena game, verified with Verus.

- `src/player.rs` — the player table's reducers on the server: what a
  connection, a disconnection, a name change or a test insertion writes,
  given the caller's row; name validation; laws relating these operations.
- `src/table.rs` — the player table as a map from identity to row, the effect
  of a write on it, and laws: only the caller's row changes, no row is removed,
  a returning player's row is updated in place.
- `src/lookup.rs` — the client's searches: an entity by number, the local
  player by identity, and the reading of a yes/no reply as a connection status.
- `src/link.rs` — the client's connection bookkeeping as a state machine, the
  reported connection status, the process exit codes, and laws of the machine
  over runs of events.
- `app/` — the SpacetimeDB module (tables, reducers, the float vector type) and
  the Godot nodes, which read from the database or the engine, call the
  library and perform its answers.
- `tests/` — tests of the library on concrete values.
