# portunus

Bounded framed-session infrastructure and control-plane policy for the Portunus
data orchestrator, with its decisions proved by Verus.

- `src/time.rs` — monotonic instants (`Moment`) and saturating spans (`Span`).
- `src/transport/` — buffer budgets and peak accounting, the session lifecycle,
  heartbeat/idle/deadline timing, capped exponential reconnection, request
  correlation, the bounded buffer-pool ledger, the BitTorrent peer-wire
  handshake and codec over `bytes::BytesMut`, and the per-session driver that
  takes every decision of the session runtime.
- `src/daemon/` — admission, bearer authentication, engine-failure
  classification, fault injection, logging-filter selection, telemetry
  configuration, and the offline reference workload's configuration.
- `app/` — the daemon binary: the async session runtime, the shared pool with
  RAII returns, gRPC interceptors, subscriber and exporter installation.
- `tests/` — scenario tests of the library.
