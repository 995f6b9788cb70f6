# RealmChat

A real-time chat service with worlds, locations, friendships and direct
messages, built as a verified core with a thin shell around it.

- `src/` is the verified library: the records and their stored forms, the
  registration and login rules, the sorting of friendships, the request handlers as step machines
  that ask the store one thing at a time, the fan-out hub,
  the server's per-connection session, and the desktop client's state and
  decisions. Verus verifies every function there. The few calls into outside
  crates (uuid, chrono, argon2, tokio's broadcast channels, `str::trim`) sit
  behind small trusted wrappers whose contracts say what those crates
  document; the rest is proved against them.
- `app/` is the shell: the HTTP and WebSocket server over SQLite, the JSON
  forms of the records, and the desktop window. It carries out what the
  library decides: it answers each store call of a handler and hands the
  reply back. `realm_chat server` runs the server; the client runs
  otherwise.
- `tests/` runs the library on concrete values.
