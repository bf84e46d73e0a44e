# sigma_racer_vehicle

Verified core of the Sigma Racer vehicle daemon, which reads the M7
safety-bus signals (SocketCAN, RPMsg, or a built-in simulator), keeps the
vehicle state, and publishes NDJSON telemetry to clients on a Unix socket.

- `src/` — the library, verified with Verus: environment-variable
  resolution (`env`), line framing and the bounded per-client backlog
  (`fanout`), the telemetry loop's cadence and sequence numbers
  (`schedule`), signal-source selection and per-sample plan (`source`),
  CAN frame payloads and demo frames (`can`), recording targets and
  timestamps (`can_log`), RPMsg packet acceptance and device resolution
  (`rpmsg`), signal liveness (`liveness`), and string helpers (`text`).
- `tests/` — tests of the library on concrete values.
- `app/` — the daemon around it: sockets, buses, threads, clocks, the MDF4
  recorder and the floating-point ride simulator.
