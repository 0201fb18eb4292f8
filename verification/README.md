# light_sync

Light client header synchronization, verified with Verus.

- `src/` decides: it keeps track of peers, searches for a common ancestor of our chain and the
  network's, moves between search and sync rounds, imports headers and dispatches requests. Every
  function states what it does; `laws.rs` and `runs.rs` state what holds of the whole.
- `app/` acts: it locks the manager, asks the light client and the network, drives the rounds and
  hands the results back.
- `tests/` runs the library on concrete values.

Trusted are two calls into `rand`, in `src/rng.rs`: opening the operating system's generator and
shuffling the list of peers.
