# ara2_bridge_plugin

Verified core of an ARA 2 plug-in runtime: the document model graph, the document-controller
state machine, model-update coalescing, analysis bookkeeping, factory lifecycle and plug-in
extension roles, with their contracts proved by Verus.

Layout:

- `src/` — the verified library.
  - `runtime.rs` — document runtime and edit sessions: typed identities, parent/child counts,
    undo-history activation, creation and leaf-first destruction of the model graph.
  - `controller.rs` — document-controller state: host identities of live objects, ARA 1
    internal region sequences, content readers, archive sessions, analysis requests and the
    `notifyModelUpdates` delivery order.
  - `updates.rs` — per-object coalescing of persistent model changes and their batch order.
  - `analysis.rs` — analysis jobs and queued progress.
  - `builder.rs`, `entry.rs`, `slots.rs` — factory validation, registries, per-factory
    initialization and shared assert-function registration.
  - `extension.rs` — renderer/view role resolution and assignment bookkeeping.
  - `vtable.rs` — the document-controller interface prefix per generation and capability.
  - `host.rs` — host service validation, content scopes and audio-reader revocation.
  - `graph.rs`, `seqset.rs` — lemmas about child sets and keyed sequences.
- `tests/` — scenario and regression tests of the library.
- `app/` — process-level services around the library: shared update and analysis queues,
  floating-point time ranges and progress values, target detection and the realtime
  head/tail snapshot adapter.
