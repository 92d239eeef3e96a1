# scp — Sovereign Communication Protocol, verified core

A consent-based cryptographic relationship protocol: sovereign identities on a
ledger, ephemeral encrypted bursts through blind relays, and a provider pool
that decides which relays and state providers a burst goes through.

## Layout

- `src/` — the library, verified with Verus:
  - `wire_format` — transcripts, signing messages, TCP and Noise framing.
  - `crypto`, `identity`, `ledger` — keys and hashing behind the outside
    crates, identity genesis and rotation, the ledger state machine
    (registration, rotation, revocation, bilateral tunnels).
  - `transport` — replay window, v1/v2 session-key derivation, sealing and
    receiving a burst, provider quorums, the development harness format.
  - `relay` — payload normalization and jitter, warm cache, mailbox relay
    store and wire encodings, relay schemes and bootstrap list.
  - `pool` — admission, eviction, liveness, reputation, receipt-bound
    outcome accounting and the integer selection and rotation engine.
  - `agent` — command-line flags, contact cards, signed agent envelopes and
    the receiver's checks.
- `tests/` — tests of the library against the real outside crates.
- `app/` — the `scp` program: the endpoint commands, the relay daemon,
  network I/O, and the floating-point exposure statistics and weighted
  strategies of the provider pool.
