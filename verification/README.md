# chargemesh

A verified core for EV charging infrastructure: the protocol-independent
charging model (stations, EVSEs, connectors, sessions, transactions and
their state machines), OCPP 1.6 framing, session tracking, client and
server decisions, timeline analysis, an observability layer (structured
logs, metric series, correlation graph, dashboard text) and the decisions
of the simulator (faults, scenarios, simulated EV and EVSE).

Layout:

- `src/` — the library, written in Verus. Its functions are proved
  against their contracts, except a few small trusted functions that call
  outside crates (the clock and RFC 3339 text from `chrono`, random numbers
  from `rand`, identifiers from `uuid`, JSON reading from `serde_json`):
  their contracts are assumed, and their doc comments say what they claim.
  `ir` is the charging model, `ocpp` the protocol
  layer, `timeline` the analysis of captured message sequences,
  `observability` the logs, metrics, correlations and widgets, `simulator`
  the simulation logic, `text` the string helpers the rest builds on.
- `tests/` — ordinary Rust tests of the library.
- `app/` — the parts around the library that do I/O, run async loops or
  compute with floating point: JSON text, WebSockets, the OCPP client and
  server loops, the metric registry, battery physics, the dashboard
  renderer, the simulation loops and the functions behind the web
  inspector's WebAssembly bindings.
