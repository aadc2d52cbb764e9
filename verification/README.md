# shinning_trapezohedron

Daemon for the Milk-V Duo S: it samples `/proc`, serves the status and the
configuration as a JSON API, and serves the embedded web front end.

- `src/` is the verified library (Verus):
  - `config/model.rs`: the configuration model, its validation and the
    sampling period (never zero).
  - `config/manager.rs`: the configuration actor as a state machine:
    validate, persist, then publish; a failed replacement keeps the snapshot.
  - `status/model.rs`: status snapshots, memory accounting, revisions.
  - `status/linux.rs`: the sampler as a state machine, and the clock.
  - `web/api.rs`: API bodies, error answers and the apply mode of each field.
  - `web/frontend.rs`: which embedded file answers a path, and its caching.
- `app/` is the runtime around it: TOML and JSON through serde, file I/O,
  `/proc` reads, the tokio tasks and channels, and the axum router.
- `tests/` exercises the library on concrete values.
