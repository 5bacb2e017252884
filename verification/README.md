# peerx

The logic of the PeerX Soroban contracts and of the PeerX cache-metrics
exporter, written in Verus with its contracts proved.

- `src/` is the verified library: the error catalog and its codes, the KYC
  state machine, the treasury with its timelocked withdrawals, swap
  distribution buckets and badge events, the query cache, the pool's integer
  square root and liquidity arithmetic, swap fees and pre-flight checks,
  access control, batch admission, and the exporter's settings and poll
  bookkeeping. Public proof functions named `law_*` state the properties that
  hold across calls.
- `tests/` runs the library on concrete values.
- `app/` is the ordinary Rust around it: the exporter's HTTP server, RPC
  polling and Prometheus gauges, and Soroban glue for the state the library
  models in full (access control, cache statistics, treasury): loading and
  storing it and publishing events. The swap, liquidity and batch decisions
  depend on portfolio, rate-limit and risk state that is not part of this
  project, so no entry point applies them yet.
