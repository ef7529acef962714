# Satellite onboard control system

A library, verified with [Verus](https://github.com/verus-lang/verus), for the
real-time control of a small satellite, and a program around it.

| Module | What it holds |
|--------|---------------|
| `types` | sensors, readings, and the events recorded about them |
| `buffer` | the bounded buffer between sensors and downlink, ordered by priority |
| `sensor` | sensor acquisition: drift, jitter budgets, misses, safety alerts |
| `metrics` | running statistics of drift, latency and jitter |
| `scheduler` | rate-monotonic tasks, preemption, deadline violations |
| `downlink` | telemetry packets, alerts, heartbeats, degraded mode |
| `faults`, `benchmark` | fault injection, recovery times, mission abort |
| `logger`, `final_report` | the performance log and the report at its end |
| `ground`, `wire` | what the ground reads of a packet, and that it reads what was sent |
| `mission` | banner and summary of a run |
| `clock`, `report`, `sums`, `text` | time, reports, sums of samples, text |

The library neither reads clocks nor does I/O. Its functions take clock readings as
arguments, and hand back what is to be printed, logged or sent. Real numbers are
kept as the integers they are computed from (`report::Quantity`); `app/` works them
out when it prints them.

`app/` holds the threads, the network, the files and the serialised form of the
packets. Started with the argument `gcs`, the program is a mock of the ground
control station.
