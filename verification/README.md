# clawops

The fleet-operations library of ClawOps, written in Verus: the node agent's
stores and commands, its gateway handshake, health scoring and auto-heal
and failover decisions, incident triage, the commander's intent routing and
safety rules, audit trails, metrics stores, briefings and cost
classifications. Every function in `src/` carries a contract, which Verus
proves for all but the small trusted wrappers around outside calls; the
laws that tie several functions together are public proof functions next
to them (`lemma_*`).

Layout:

- `src/` — the verified library, one module per concern (`lib.rs` lists them).
  Calls into outside crates (SHA-256, HMAC, Ed25519, base64url, hex, UUIDs,
  JSON parsing, path joining, the clock) go through small trusted wrappers
  whose contracts are stated next to them.
- `tests/` — tests run against the compiled library.
- `app/` — the `clawnode` command line: files, process execution, the
  node's own measurements (`/proc`, `df`, the service CLIs), and the
  floating-point figures (spend, averages, percentiles, usage) that the
  library leaves to its caller. The gateway session itself (a WebSocket
  client) is not part of it; commands are served one at a time with
  `exec` and `node-exec`.
