# buck2_logic

Verified decision logic of a build tool's client, daemon commands and cancellation
machinery, written in Verus.

- `src/cancellation.rs` — the cancellation state shared by a cancellable future and the
  code it runs (critical sections, structured cancellation, disabling, notification
  waiters) and the decisions taken on each poll.
- `src/task_critical.rs` — the registries of dependants and termination observers of a
  computation task.
- `src/associated.rs` — insertion-ordered sets of associated artifacts and their union.
- `src/console.rs` — console styling and terminal hyperlink detection.
- `src/memory.rs` — the high-memory-pressure check and warning.
- `src/commands.rs` — client commands (`set-log-filter`, `hydration`, `log what-up`).
- `src/server_commands.rs` — `audit output`, `complete` and transition attribute equality.
- `src/attrs.rs` — reading an attribute's JSON value as a string.
- `src/slabs.rs` — the trusted interface to `slab::Slab`.
- `app/` — I/O around the library: environment, stderr, command-line definitions, locks,
  wakers and polling.
