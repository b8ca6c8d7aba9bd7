# receiver_core

The control core of a desktop screen-mirroring receiver (AirPlay, Google Cast,
Miracast), written in Verus with its behaviour stated in contracts and proved.

## Layout

- `src/` — the verified library
  - `model.rs` — protocols, sessions, recordings, policy, operator settings,
    pairing, signed profiles, and the request and reply shapes of the API
  - `sessions.rs` — counting and finding sessions, admission of new sessions,
    the choice of the session an accepted one displaces
  - `policy.rs` — policy defaults, validation and partial updates, operator
    settings, the performance report
  - `receiver.rs` — the state as the contracts see it and the rule of each
    operation
  - `state.rs` — `AppState` and the operations of the control API
  - `signature.rs` — FNV-1a signatures of configuration profiles
  - `net.rs` — the listening address and the local API URL
  - `text.rs` — digit rendering and blank-text detection
  - `ids.rs`, `clock.rs` — UUIDs (`uuid` crate) and the wall clock (`chrono`)
  - `laws.rs` — properties that span operations
  - `contracts.rs` — interfaces for platform back ends
- `tests/` — scenario tests and tests of the rules on concrete values
- `app/` — the HTTP service (axum, tokio): routing, JSON shapes, header and
  address extraction, profile serialization, and `main`
