# iggy_server

The decision core of a replicated message server, written and proved in Verus,
with the asynchronous shell that runs it.

- `src/` is the core. Everything in it is a function from plain values to plain
  values, with its behaviour stated in `requires` / `ensures` and proved.
  - `boot/`: what a starting shard decides: which partitions it serves and
    routes, how metadata consensus is restored, when a failing superblock stops
    the process.
  - `dispatch/`: what a client request comes to: the per-client queues, the
    request funnel, login and logout with the hop to the primary, partition reads
    and writes, segment deletion.
  - `offset_recovery.rs`: loading consumer offsets from their directory.
  - `partition_helpers/`: loading, fencing and building partitions.
  - `shell.rs`: configured intervals as consensus ticks.
  - `time.rs`: durations as whole nanoseconds.
- `app/` is the shell: it performs what the core decides (files, frames, tasks,
  timers) and hands back what came of it. What it needs of the node around it is
  named by traits.
- `tests/` runs the core on concrete values.

Proof functions whose names begin with `law_` state what holds of the core as a
whole: that a client's requests are neither lost nor reordered, that a transport
without a session reaches nothing but a login, that no peerless replica rebuilds
over data, and the like.

What rests on trust is small and marked in place: `std::time::Duration` (two
functions), the `ahash` tables behind the queues, `bytes::Bytes` and the random
number behind an incarnation.
