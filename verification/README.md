# rpc-perf core

The verified core of rpc-perf, a tool that measures the performance of
network services (caches, stores, publish-subscribe systems, OLTP databases
and leaderboards) by driving them with a configured workload.

## Layout

- `src/facade/`: the metrics facade. Percentiles, timestamps and intervals,
  metric values, and the registry of counters, gauges and histograms by name
  (`State`), with the recording rules for each kind of metric.
- `src/metrics_core.rs`: the core counter and gauge interfaces.
- `src/config/workload/`: the workload configuration (keyspaces, stores,
  topics, OLTP, leaderboards, ratelimit) and its validation.
- `src/workload/`: the request generators. Key pools of distinct
  alphanumeric keys, value buffers, the distributions keys are drawn with,
  each component's request generator, the weighted `Generator` over them,
  and the dynamic ratelimit schedule.
- `src/clients/`: the decisions of the protocol clients: the replies each
  RESP command accepts, the command of each work item, and the step a
  client task takes on each event of its connection (with the proof that its
  counters agree over any run).
- `app/`: what runs around the library: the tokio runtime and channels,
  clocks and ratelimiters, the gzip estimate of random bytes and the other
  floating-point settings.
- `tests/`: tests of the library on concrete values.

Randomness comes from `rand_xoshiro`'s generators, seeded from the
configuration; the library states what holds of every draw.
