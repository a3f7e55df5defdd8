# warp_server_boilerplate

The logic of a small authentication service (registration, login with
throttling of failed attempts, cookie sessions), written in Verus with its
contracts proved.

- `src/` — the verified library:
  - `time.rs`: instants in UTC as plain integers; the clock and `chrono`'s printing.
  - `string_map.rs`: a map from strings to values, with distinct keys.
  - `errors.rs`: the service's errors and the reply to each refused request.
  - `domain/`: e-mail addresses (`validator`), passwords (grapheme counting,
    argon2 hashing and verification), users, the session pool and login throttling.
  - `routes/`: what the handlers decide — form fields, login steps,
    registration, logout, session renewal.
- `tests/` — tests of the library on concrete values.
- `app/` — the warp server around the library: configuration, PostgreSQL,
  shared state behind `tokio` locks, filters and handlers.
