# opencode_ui

The verified core of a small desktop shell for the local OpenCode web UI.
The shell checks for an `opencode` binary, reuses a server that already
answers on `http://127.0.0.1:<port>/`, or starts `opencode web` and waits for
it to answer, then watches the process it started.

Layout:

- `src/` — the library, verified with Verus.
  - `boot.rs`: the bootstrap as a state machine (probe, launch claim, launch
    lock, binary, shims, spawn, wait, timeout) and its laws.
  - `monitor.rs`, `update.rs`: the process watch and the update check.
  - `config.rs`, `paths.rs`, `binary.rs`, `launch.rs`, `probe.rs`,
    `events.rs`, `error.rs`, `text.rs`: configuration, path layout, binary
    search, launch command, probe verdict, reported events, text primitives.
- `tests/` — tests of the library on concrete values.
- `app/` — the Tauri program: window, commands, HTTP, files, processes and
  the loops that drive the state machines.
