# axwatchdog

The logic of a watchdog for AArch64 systems, verified with Verus. It finds CPUs that are stuck:

- a *softlockup*: interrupts work, but the watchdog thread is no longer scheduled;
- a *hardlockup*: even timer interrupts have stopped, which an NMI (SDEI or PMU overflow) notices;
- a *possible deadlock*: locks are held for too long;

and registered tasks that fail their health checks.

## Layout

- `src/` is the library. It has no global state and does no I/O: what it works on is handed in,
  and what it finds is handed back as alerts.
  - `detection`: the entry points for the timer interrupt, the NMI and the watchdog thread
  - `monitor`, `config`, `error`: the watchdog with its configuration and statistics
  - `percpu`: what is recorded of each CPU, and its diagnosis
  - `task`: the registry of monitored tasks
  - `nmi`: NMI sources and their handlers
  - `snapshot`, `text`: CPU snapshots, and snapshots as text
  - `lockfree`: a ring buffer, a bitmap and a sequence counter
  - `watchdog`: a polling watchdog that freezes all CPUs
- `tests/` runs the library on concrete values.
- `app/` keeps the state of a running system, logs what the library reports, and talks to the
  hardware. The parts that need AArch64 hardware are only compiled for it.

Each public function states in its contract what it returns and changes, over a mathematical
model of the data (`CpuModel`, `WatchdogModel`, the sequence of items in a ring buffer, ...). What
holds across several operations stands in proof functions whose names begin with `law_`.
