# gannonlinux

A traffic-management demonstration of Linux threads, split into a verified
library and a thin program around it.

- `src/` (verified with Verus)
  - `command.rs`: the command line (which demonstrations run, in which order)
    and the usage text.
  - `sensors.rs`: the five traffic-control threads and what each reports.
  - `counter.rs`: the road sensors that update a shared vehicle counter, with
    separate reads and writes or under a lock; the comparison of the recorded
    total with the expected one; and proofs over every interleaving of the
    sensors' steps (lost updates never overcount and do happen; the lock
    counts exactly).
  - `scheduling.rs`: the analysis tasks and their nice values, the worker that
    competes for CPU time step by step, the report of a thread's scheduling
    policy, and the stable ordering of the results by actual nice value.
  - `affinity.rs`: the first CPU that an affinity mask allows.
  - `text.rs`: decimal formatting of integers.
- `app/main.rs`: threads, atomics, mutexes, barriers, clocks, the Linux system
  calls (through `libc`) and printing.
- `tests/`: tests of the library on concrete values.
