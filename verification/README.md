# opto_sync_desktop

Native desktop shell whose sync ownership is controlled by one fail-closed
lifecycle machine, verified with Verus.

- `src/lifecycle.rs`: phases, events, snapshots, the total reducer
  (`SyncLifecycleMachine::reduce`) with its specification `spec_reduce`, the
  machine that only ever holds a valid snapshot, and the proved laws
  (`lemma_*`).
- `src/ui.rs`: the status text, specified character by character.
- `src/app.rs`: one probe cycle as two verified steps (`begin_sync_cycle`,
  `SyncCycle::complete`) and the error type.
- `src/config.rs`, `src/state.rs`: the configuration and probe result types.
- `app/`: the executable; it performs the network probe between the two steps.
- `tests/`: scenario tests run against the compiled library.
