# vasal

A host agent: it takes tasks from a control plane, runs them in a shell or
hands them to sidecars, looks after managed units, and reports back. The rules
of the agent are a library verified with Verus; the programs are a thin layer of
ordinary Rust around it.

- `src/protocol/` has the messages: tasks, chains, results, heartbeats, JSON-RPC,
  each with its JSON form and the proof that it is read as it was written.
- `src/sdk/` frames messages for Unix sockets, serves requests for a sidecar and
  keeps its responses within the size of a message.
- `src/agent/` decides: configuration, tokens, credentials, running and chaining
  tasks, installing and upgrading units, forwarding the audit log, the main loop.
- `src/sidecars/` has the rules of `echo-ctrl`, `sql-ctrl` and `ebpf-observer`.
- `src/json.rs`, `src/wire.rs`, `src/refusal.rs`, `src/text.rs`, `src/ids.rs` and
  `src/string_map.rs` are what the others stand on.
- `app/` is the agent and the sidecars as one program: sockets, files,
  processes, HTTP, gRPC and SQLite.

What waits for the world is a state machine in the library. A machine says what
is to be done; the program does it and reports what came of it. Contracts say
where each event leads, and public proof functions named `law_...` say what holds
of whole runs.

Calls into other crates stand behind small functions whose contracts are trusted:
JSON and TOML texts, SHA-256 and hexadecimal digits, byte buffers, UUIDs and the
clock. Each says in its comment what it takes from the crate.
