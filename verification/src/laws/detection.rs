//! Laws on detection: what a timer interrupt, an NMI and the watchdog thread make of a CPU.

use vstd::prelude::*;

use crate::detection::{
    handle_hardlockup, handle_possible_deadlock, handle_softlockup, handle_task_timeout,
    nmi_checked, notify_tasks, watchdog_nmi_check, watchdog_nmi_handler, watchdog_thread_tick,
    watchdog_timer_handler, Alert, NmiReport,
};
use crate::monitor::{Watchdog, WatchdogModel};
use crate::nmi::NmiContext;
use crate::percpu::{CpuHealth, CpuModel, PerCpuArray, WatchdogState};
use crate::task::{slot_failed, slot_passed, slots_checked, TaskRegistry, WatchdogTask};

verus! {

/// The watchdog thread's run is recorded for its CPU, if that exists, and changes nothing else.
pub proof fn law_thread_run(cpus: &mut PerCpuArray, cpu_id: usize, now_ns: u64)
    requires
        call_ensures(watchdog_thread_tick, (cpus, cpu_id, now_ns), ()),
    ensures
        cpu_id >= 64 ==> final(cpus)@ == old(cpus)@,
        cpu_id < 64 ==> final(cpus)@ == old(cpus)@.update(
            cpu_id as int,
            (CpuModel { soft_timestamp: now_ns, ..old(cpus)@[cpu_id as int] }),
        ),
{
}

/// A timer interrupt of a running watchdog counts as a tick of its CPU. If the CPU's thread, once
/// it has run, last did so more than the softlockup threshold ago, that is a failure, whatever the
/// panic settings are: it is counted, for the watchdog and for the CPU; and from the threshold's
/// number of failures on it leaves an active CPU triggered, and gives an alert with the CPU, the
/// milliseconds since the thread ran, and the panic setting. There is no other alert.
pub proof fn law_timer_finds_softlockups(
    watchdog: &mut Watchdog,
    cpus: &mut PerCpuArray,
    cpu_id: usize,
    now_ns: u64,
    alert: Option<Alert>,
)
    requires
        call_ensures(watchdog_timer_handler, (watchdog, cpus, cpu_id, now_ns), alert),
        old(watchdog)@.running,
        cpu_id < 64,
    ensures
        ({
            let w = old(watchdog)@;
            let c = old(cpus)@[cpu_id as int];
            let late = c.soft_timestamp > 0 && now_ns - c.soft_timestamp > w.softlockup_thresh_ns;
            let fails = c.fail_count.wrapping_add(1);
            let reached = fails >= w.fail_threshold;
            &&& alert is Some <==> late && reached
            &&& alert matches Some(found) ==> {
                &&& found matches Alert::SoftLockup { cpu_id: id, elapsed_ms, panic }
                &&& id == cpu_id
                &&& elapsed_ms == (now_ns - c.soft_timestamp) / 1_000_000
                &&& panic == w.panic_on_softlockup
            }
            &&& !late ==> {
                &&& final(watchdog)@ == w
                &&& final(cpus)@ == old(cpus)@.update(
                    cpu_id as int,
                    (CpuModel { ticks: c.ticks.wrapping_add(1), ..c }),
                )
            }
            &&& late ==> {
                &&& final(watchdog)@ == (WatchdogModel {
                    softlockup_count: w.softlockup_count.wrapping_add(1),
                    total_failures: w.total_failures.wrapping_add(1),
                    ..w
                })
                &&& final(cpus)@ == old(cpus)@.update(
                    cpu_id as int,
                    (CpuModel {
                        ticks: c.ticks.wrapping_add(1),
                        fail_count: fails,
                        state: if reached && c.state == WatchdogState::Active {
                            WatchdogState::Triggered
                        } else {
                            c.state
                        },
                        ..c
                    }),
                )
            }
        }),
{
}

/// A timer interrupt does nothing where the watchdog is not running or there is no such CPU.
pub proof fn law_timer_elsewhere(
    watchdog: &mut Watchdog,
    cpus: &mut PerCpuArray,
    cpu_id: usize,
    now_ns: u64,
    alert: Option<Alert>,
)
    requires
        call_ensures(watchdog_timer_handler, (watchdog, cpus, cpu_id, now_ns), alert),
        !old(watchdog)@.running || cpu_id >= 64,
    ensures
        alert is None,
        final(watchdog)@ == old(watchdog)@,
        final(cpus)@ == old(cpus)@,
{
}

/// A hardlockup is counted, also as a failure, whatever the settings are. The first one, with no
/// warning standing, leaves an active CPU triggered and any other state as it is, makes the
/// warning stand, and gives an alert with the CPU, where it was interrupted, and the panic
/// setting. While the warning stands there is no alert and nothing of the CPU changes. On a CPU
/// that does not exist it is counted and reported.
pub proof fn law_handling_hardlockups(
    watchdog: &mut Watchdog,
    cpus: &mut PerCpuArray,
    cpu_id: usize,
    ctx: &NmiContext,
    alert: Option<Alert>,
)
    requires
        call_ensures(handle_hardlockup, (watchdog, cpus, cpu_id, ctx), alert),
    ensures
        final(watchdog)@ == (WatchdogModel {
            hardlockup_count: old(watchdog)@.hardlockup_count.wrapping_add(1),
            total_failures: old(watchdog)@.total_failures.wrapping_add(1),
            ..old(watchdog)@
        }),
        alert is None <==> cpu_id < 64 && old(cpus)@[cpu_id as int].hardlockup_warned,
        alert matches Some(found) ==> {
            &&& found matches Alert::HardLockup { cpu_id: id, pc, sp, lr, panic }
            &&& id == cpu_id
            &&& pc == ctx.pc
            &&& sp == ctx.sp
            &&& lr == ctx.lr
            &&& panic == old(watchdog)@.panic_on_hardlockup
        },
        cpu_id >= 64 ==> final(cpus)@ == old(cpus)@,
        cpu_id < 64 ==> {
            let c = old(cpus)@[cpu_id as int];
            &&& final(cpus)@.len() == old(cpus)@.len()
            &&& forall|i: int|
                0 <= i < 64 && i != cpu_id ==> #[trigger] final(cpus)@[i] == old(cpus)@[i]
            &&& final(cpus)@[cpu_id as int] == (CpuModel {
                hardlockup_warned: true,
                state: if c.state == WatchdogState::Active && !c.hardlockup_warned {
                    WatchdogState::Triggered
                } else {
                    c.state
                },
                ..c
            })
        },
{
}

/// A softlockup is counted, also as a failure and for its CPU, whatever the settings are. From the
/// threshold's number of failures on it leaves an active CPU triggered, and gives an alert with
/// the CPU, the milliseconds since its thread ran (none if that lies ahead), and the panic
/// setting.
pub proof fn law_handling_softlockups(
    watchdog: &mut Watchdog,
    cpus: &mut PerCpuArray,
    cpu_id: usize,
    now_ns: u64,
    alert: Option<Alert>,
)
    requires
        call_ensures(handle_softlockup, (watchdog, cpus, cpu_id, now_ns), alert),
    ensures
        final(watchdog)@ == (WatchdogModel {
            softlockup_count: old(watchdog)@.softlockup_count.wrapping_add(1),
            total_failures: old(watchdog)@.total_failures.wrapping_add(1),
            ..old(watchdog)@
        }),
        cpu_id >= 64 ==> alert is None && final(cpus)@ == old(cpus)@,
        cpu_id < 64 ==> {
            let c = old(cpus)@[cpu_id as int];
            let fails = c.fail_count.wrapping_add(1);
            let reached = fails >= old(watchdog)@.fail_threshold;
            &&& alert is Some <==> reached
            &&& alert matches Some(found) ==> {
                &&& found matches Alert::SoftLockup { cpu_id: id, elapsed_ms, panic }
                &&& id == cpu_id
                &&& now_ns >= c.soft_timestamp ==> elapsed_ms == (now_ns - c.soft_timestamp)
                    / 1_000_000
                &&& now_ns < c.soft_timestamp ==> elapsed_ms == 0
                &&& panic == old(watchdog)@.panic_on_softlockup
            }
            &&& final(cpus)@ == old(cpus)@.update(
                cpu_id as int,
                (CpuModel {
                    fail_count: fails,
                    state: if reached && c.state == WatchdogState::Active {
                        WatchdogState::Triggered
                    } else {
                        c.state
                    },
                    ..c
                }),
            )
        },
{
}

/// A possible deadlock is counted as a failure and reported for every CPU that exists, whatever
/// number of locks it holds: with the CPU, that number, and the milliseconds since its thread ran
/// (none if that lies ahead).
pub proof fn law_handling_deadlocks(
    watchdog: &mut Watchdog,
    cpus: &PerCpuArray,
    cpu_id: usize,
    now_ns: u64,
    alert: Option<Alert>,
)
    requires
        call_ensures(handle_possible_deadlock, (watchdog, cpus, cpu_id, now_ns), alert),
    ensures
        final(watchdog)@ == (WatchdogModel {
            total_failures: old(watchdog)@.total_failures.wrapping_add(1),
            ..old(watchdog)@
        }),
        alert is Some <==> cpu_id < 64,
        alert matches Some(found) ==> {
            let since_ns = cpus@[cpu_id as int].soft_timestamp;
            &&& found matches Alert::PossibleDeadlock { cpu_id: id, locks_held, elapsed_ms }
            &&& id == cpu_id
            &&& locks_held == cpus@[cpu_id as int].locks_held
            &&& now_ns >= since_ns ==> elapsed_ms == (now_ns - since_ns) / 1_000_000
            &&& now_ns < since_ns ==> elapsed_ms == 0
        },
{
}

/// A failure of the tasks is counted for the CPU that found it. From the threshold's number of
/// failures on, on a CPU that is active, it gives an alert with the CPU and where it was
/// interrupted; the CPU is then like a new one that is active, where a restart is configured, and
/// triggered otherwise.
pub proof fn law_handling_task_timeouts(
    watchdog: &Watchdog,
    cpus: &mut PerCpuArray,
    cpu_id: usize,
    ctx: &NmiContext,
    alert: Option<Alert>,
    fresh: crate::percpu::PerCpuState,
)
    requires
        call_ensures(handle_task_timeout, (watchdog, cpus, cpu_id, ctx), alert),
        call_ensures(crate::percpu::PerCpuState::new, (), fresh),
    ensures
        cpu_id >= 64 ==> alert is None && final(cpus)@ == old(cpus)@,
        cpu_id < 64 ==> {
            let c = old(cpus)@[cpu_id as int];
            let fails = c.fail_count.wrapping_add(1);
            let expired = fails >= watchdog@.fail_threshold && c.state == WatchdogState::Active;
            &&& alert is Some <==> expired
            &&& alert matches Some(found) ==> {
                &&& found matches Alert::TaskTimeout { cpu_id: id, pc, sp }
                &&& id == cpu_id
                &&& pc == ctx.pc
                &&& sp == ctx.sp
            }
            &&& final(cpus)@ == old(cpus)@.update(
                cpu_id as int,
                if expired && watchdog@.auto_restart {
                    (CpuModel { state: WatchdogState::Active, ..fresh@ })
                } else {
                    (CpuModel {
                        fail_count: fails,
                        state: if expired {
                            WatchdogState::Triggered
                        } else {
                            c.state
                        },
                        ..c
                    })
                },
            )
        },
{
}

/// An NMI does nothing where the watchdog is not running. Where it runs, the NMI is counted, and a
/// failure of the tasks is; on a CPU that does not exist that is all.
pub proof fn law_nmi_elsewhere(
    watchdog: &mut Watchdog,
    cpus: &mut PerCpuArray,
    cpu_id: usize,
    ctx: &NmiContext,
    tasks_healthy: bool,
    report: NmiReport,
)
    requires
        call_ensures(watchdog_nmi_check, (watchdog, cpus, cpu_id, ctx, tasks_healthy), report),
        !old(watchdog)@.running || cpu_id >= 64,
    ensures
        report.cpu is None,
        report.tasks is None,
        final(cpus)@ == old(cpus)@,
        !old(watchdog)@.running ==> final(watchdog)@ == old(watchdog)@,
        old(watchdog)@.running ==> final(watchdog)@ == (WatchdogModel {
            total_checks: old(watchdog)@.total_checks.wrapping_add(1),
            total_failures: if tasks_healthy {
                old(watchdog)@.total_failures
            } else {
                old(watchdog)@.total_failures.wrapping_add(1)
            },
            ..old(watchdog)@
        }),
{
}

/// What an NMI counts on a CPU that exists: the check; a hardlockup, where the ticks have stopped,
/// or else a softlockup, where the thread has; and as failures each of these, a possible deadlock
/// where there is neither, and a failure of the tasks.
pub proof fn law_nmi_counts(
    watchdog: &mut Watchdog,
    cpus: &mut PerCpuArray,
    cpu_id: usize,
    ctx: &NmiContext,
    tasks_healthy: bool,
    report: NmiReport,
)
    requires
        call_ensures(watchdog_nmi_check, (watchdog, cpus, cpu_id, ctx, tasks_healthy), report),
        old(watchdog)@.running,
        cpu_id < 64,
    ensures
        ({
            let w = old(watchdog)@;
            let c = old(cpus)@[cpu_id as int];
            let now_ns = ctx.timestamp_ns;
            let hard = c.ticks > 0 && c.ticks == c.ticks_saved;
            let soft = c.soft_timestamp > 0 && now_ns > c.soft_timestamp + w.softlockup_thresh_ns;
            let dead = c.locks_held > 0 && c.earliest_lock_time > 0 && now_ns
                > c.earliest_lock_time + w.lock_timeout_ns;
            let of_cpu = if hard || soft || dead {
                w.total_failures.wrapping_add(1)
            } else {
                w.total_failures
            };
            final(watchdog)@ == (WatchdogModel {
                total_checks: w.total_checks.wrapping_add(1),
                hardlockup_count: if hard {
                    w.hardlockup_count.wrapping_add(1)
                } else {
                    w.hardlockup_count
                },
                softlockup_count: if soft && !hard {
                    w.softlockup_count.wrapping_add(1)
                } else {
                    w.softlockup_count
                },
                total_failures: if tasks_healthy {
                    of_cpu
                } else {
                    of_cpu.wrapping_add(1)
                },
                ..w
            })
        }),
{
}

/// What an NMI reports about a CPU that exists: a hardlockup that no warning stands for; or else a
/// softlockup, from the threshold's number of failures on; or else a possible deadlock, for any
/// number of locks. Nothing of a healthy CPU.
pub proof fn law_nmi_reports(
    watchdog: &mut Watchdog,
    cpus: &mut PerCpuArray,
    cpu_id: usize,
    ctx: &NmiContext,
    tasks_healthy: bool,
    report: NmiReport,
)
    requires
        call_ensures(watchdog_nmi_check, (watchdog, cpus, cpu_id, ctx, tasks_healthy), report),
        old(watchdog)@.running,
        cpu_id < 64,
    ensures
        ({
            let w = old(watchdog)@;
            let c = old(cpus)@[cpu_id as int];
            let now_ns = ctx.timestamp_ns;
            let hard = c.ticks > 0 && c.ticks == c.ticks_saved;
            let soft = c.soft_timestamp > 0 && now_ns > c.soft_timestamp + w.softlockup_thresh_ns;
            let dead = c.locks_held > 0 && c.earliest_lock_time > 0 && now_ns
                > c.earliest_lock_time + w.lock_timeout_ns;
            &&& hard ==> (report.cpu is Some <==> !c.hardlockup_warned)
            &&& hard && report.cpu is Some ==> report.cpu == Some(
                Alert::HardLockup {
                    cpu_id,
                    pc: ctx.pc,
                    sp: ctx.sp,
                    lr: ctx.lr,
                    panic: w.panic_on_hardlockup,
                },
            )
            &&& soft && !hard ==> (report.cpu is Some <==> c.fail_count.wrapping_add(1)
                >= w.fail_threshold)
            &&& soft && !hard && report.cpu is Some ==> report.cpu == Some(
                Alert::SoftLockup {
                    cpu_id,
                    elapsed_ms: ((now_ns - c.soft_timestamp) / 1_000_000) as u64,
                    panic: w.panic_on_softlockup,
                },
            )
            &&& dead && !soft && !hard ==> {
                &&& report.cpu matches Some(found)
                &&& found matches Alert::PossibleDeadlock { cpu_id: id, locks_held, elapsed_ms }
                &&& id == cpu_id
                &&& locks_held == c.locks_held
                &&& now_ns >= c.soft_timestamp ==> elapsed_ms == (now_ns - c.soft_timestamp)
                    / 1_000_000
                &&& now_ns < c.soft_timestamp ==> elapsed_ms == 0
            }
            &&& !dead && !soft && !hard ==> report.cpu is None
        }),
{
}

/// What an NMI makes of a CPU that exists, and what it reports about the tasks.
///
/// It takes note of the ticks and the diagnosis. The warning about a hardlockup is made to stand by
/// one, and to fall by a healthy CPU. The failures go up by one with a softlockup and by one with
/// a failure of the tasks, and to zero where the CPU and the tasks are healthy. An active CPU is
/// triggered by a hardlockup without a standing warning, and by a softlockup with failures enough.
/// If it is still active, the tasks fail and there are failures enough, that is reported, and the
/// CPU starts over or is triggered, as configured. No other CPU changes.
pub proof fn law_nmi_on_cpu(
    watchdog: &mut Watchdog,
    cpus: &mut PerCpuArray,
    cpu_id: usize,
    ctx: &NmiContext,
    tasks_healthy: bool,
    report: NmiReport,
    fresh: crate::percpu::PerCpuState,
)
    requires
        call_ensures(watchdog_nmi_check, (watchdog, cpus, cpu_id, ctx, tasks_healthy), report),
        call_ensures(crate::percpu::PerCpuState::new, (), fresh),
        old(watchdog)@.running,
        cpu_id < 64,
    ensures
        ({
            let w = old(watchdog)@;
            let c = old(cpus)@[cpu_id as int];
            let now_ns = ctx.timestamp_ns;
            let hard = c.ticks > 0 && c.ticks == c.ticks_saved;
            let soft = !hard && c.soft_timestamp > 0 && now_ns > c.soft_timestamp
                + w.softlockup_thresh_ns;
            let dead = !hard && !soft && c.locks_held > 0 && c.earliest_lock_time > 0 && now_ns
                > c.earliest_lock_time + w.lock_timeout_ns;
            let fails = if soft {
                c.fail_count.wrapping_add(1)
            } else if !hard && !dead && tasks_healthy {
                0
            } else {
                c.fail_count
            };
            let still_active = c.state == WatchdogState::Active && !(hard && !c.hardlockup_warned)
                && !(soft && fails >= w.fail_threshold);
            let all_fails = if tasks_healthy {
                fails
            } else {
                fails.wrapping_add(1)
            };
            let expired = !tasks_healthy && still_active && all_fails >= w.fail_threshold;
            &&& report.tasks == (if expired {
                Some(Alert::TaskTimeout { cpu_id, pc: ctx.pc, sp: ctx.sp })
            } else {
                None
            })
            &&& final(cpus)@ == old(cpus)@.update(
                cpu_id as int,
                if expired && w.auto_restart {
                    (CpuModel { state: WatchdogState::Active, ..fresh@ })
                } else {
                    (CpuModel {
                        ticks_saved: c.ticks,
                        last_health: if hard {
                            CpuHealth::HardLockup
                        } else if soft {
                            CpuHealth::SoftLockup
                        } else if dead {
                            CpuHealth::PossibleDeadlock
                        } else {
                            CpuHealth::Healthy
                        },
                        hardlockup_warned: hard || ((soft || dead) && c.hardlockup_warned),
                        fail_count: all_fails,
                        state: if c.state == WatchdogState::Active && (!still_active || expired) {
                            WatchdogState::Triggered
                        } else {
                            c.state
                        },
                        ..c
                    })
                },
            )
        }),
{
}

/// An NMI asks the tasks in order, up to the first that fails, and goes by their answer: it comes
/// out as the check of the CPU does that is told that the tasks are healthy, if every task passed,
/// and as the one that is told that they are not, if one failed. Where the watchdog is not running
/// no task is asked.
pub proof fn law_nmi_goes_by_tasks<T: WatchdogTask>(
    watchdog: &mut Watchdog,
    cpus: &mut PerCpuArray,
    registry: &mut TaskRegistry<T>,
    cpu_id: usize,
    ctx: &NmiContext,
    report: NmiReport,
    watchdog_if_healthy: &mut Watchdog,
    cpus_if_healthy: &mut PerCpuArray,
    report_if_healthy: NmiReport,
    watchdog_if_not: &mut Watchdog,
    cpus_if_not: &mut PerCpuArray,
    report_if_not: NmiReport,
)
    requires
        call_ensures(watchdog_nmi_handler::<T>, (watchdog, cpus, registry, cpu_id, ctx), report),
        old(registry).wf(),
        old(watchdog_if_healthy)@ == old(watchdog)@,
        old(cpus_if_healthy)@ == old(cpus)@,
        call_ensures(
            watchdog_nmi_check,
            (watchdog_if_healthy, cpus_if_healthy, cpu_id, ctx, true),
            report_if_healthy,
        ),
        old(watchdog_if_not)@ == old(watchdog)@,
        old(cpus_if_not)@ == old(cpus)@,
        call_ensures(
            watchdog_nmi_check,
            (watchdog_if_not, cpus_if_not, cpu_id, ctx, false),
            report_if_not,
        ),
    ensures
        old(registry)@.len() == 32,
        final(registry)@.len() == 32,
        !old(watchdog)@.running ==> {
            &&& final(registry)@ == old(registry)@
            &&& final(watchdog)@ == old(watchdog)@
            &&& final(cpus)@ == old(cpus)@
            &&& report.cpu is None
            &&& report.tasks is None
        },
        old(watchdog)@.running ==> {
            ||| {
                &&& final(watchdog)@ == final(watchdog_if_healthy)@
                &&& final(cpus)@ == final(cpus_if_healthy)@
                &&& report == report_if_healthy
                &&& forall|i: int|
                    0 <= i < 32 ==> {
                        let pre = old(registry)@[i];
                        let post = #[trigger] final(registry)@[i];
                        &&& post.generation == pre.generation
                        &&& pre.task is None ==> post.task is None
                        &&& pre.task matches Some(before) ==> {
                            &&& post.task matches Some(after)
                            &&& T::check_step(before, after, true)
                        }
                    }
            }
            ||| {
                &&& final(watchdog)@ == final(watchdog_if_not)@
                &&& final(cpus)@ == final(cpus_if_not)@
                &&& report == report_if_not
                &&& exists|failed: int|
                    {
                        &&& 0 <= failed < 32
                        &&& (#[trigger] final(registry)@[failed]).generation == old(
                            registry,
                        )@[failed].generation
                        &&& old(registry)@[failed].task matches Some(before)
                        &&& final(registry)@[failed].task matches Some(after)
                        &&& T::check_step(before, after, false)
                        &&& forall|i: int|
                            0 <= i < failed ==> {
                                let pre = old(registry)@[i];
                                let post = #[trigger] final(registry)@[i];
                                &&& post.generation == pre.generation
                                &&& pre.task is None ==> post.task is None
                                &&& pre.task matches Some(earlier) ==> {
                                    &&& post.task matches Some(later)
                                    &&& T::check_step(earlier, later, true)
                                }
                            }
                        &&& forall|i: int|
                            failed < i < 32 ==> #[trigger] final(registry)@[i] == old(registry)@[i]
                    }
            }
        },
{
    if old(watchdog)@.running {
        let healthy = choose|healthy: bool|
            {
                &&& #[trigger] slots_checked(old(registry)@, final(registry)@, healthy)
                &&& nmi_checked(
                    old(watchdog)@,
                    old(cpus)@,
                    cpu_id,
                    *ctx,
                    healthy,
                    final(watchdog)@,
                    final(cpus)@,
                    report,
                )
            };
        if healthy {
            assert forall|i: int| 0 <= i < 32 implies ({
                let pre = old(registry)@[i];
                let post = #[trigger] final(registry)@[i];
                &&& post.generation == pre.generation
                &&& pre.task is None ==> post.task is None
                &&& pre.task matches Some(before) ==> {
                    &&& post.task matches Some(after)
                    &&& T::check_step(before, after, true)
                }
            }) by {
                assert(slot_passed(old(registry)@[i], final(registry)@[i]));
            }
        } else {
            let failed = choose|failed: int|
                {
                    &&& 0 <= failed < old(registry)@.len()
                    &&& #[trigger] slot_failed(old(registry)@[failed], final(registry)@[failed])
                    &&& forall|i: int|
                        0 <= i < failed ==> #[trigger] slot_passed(
                            old(registry)@[i],
                            final(registry)@[i],
                        )
                    &&& forall|i: int|
                        failed < i < old(registry)@.len() ==> #[trigger] final(registry)@[i] == old(
                            registry,
                        )@[i]
                };
            assert forall|i: int| 0 <= i < failed implies ({
                let pre = old(registry)@[i];
                let post = #[trigger] final(registry)@[i];
                &&& post.generation == pre.generation
                &&& pre.task is None ==> post.task is None
                &&& pre.task matches Some(earlier) ==> {
                    &&& post.task matches Some(later)
                    &&& T::check_step(earlier, later, true)
                }
            }) by {
                assert(slot_passed(old(registry)@[i], final(registry)@[i]));
            }
            assert(final(registry)@[failed].generation == old(registry)@[failed].generation);
        }
    }
}

/// The tasks are notified just where an NMI reported a timeout of theirs: each one is checked once
/// more, and called back with the CPU that found it if it fails. Otherwise nothing happens to them.
pub proof fn law_notification<T: WatchdogTask>(report: &NmiReport, registry: &mut TaskRegistry<T>)
    requires
        call_ensures(notify_tasks::<T>, (report, registry), ()),
        old(registry).wf(),
    ensures
        report.tasks is None ==> final(registry)@ == old(registry)@,
        report.tasks matches Some(Alert::TaskTimeout { cpu_id, .. }) ==> forall|i: int|
            0 <= i < 32 ==> {
                let pre = old(registry)@[i];
                let post = #[trigger] final(registry)@[i];
                &&& post.generation == pre.generation
                &&& pre.task is None ==> post.task is None
                &&& pre.task matches Some(before) ==> {
                    &&& post.task is Some
                    &&& exists|checked: T, healthy: bool|
                        {
                            &&& #[trigger] T::check_step(before, checked, healthy)
                            &&& healthy ==> post.task == Some(checked)
                            &&& !healthy ==> exists|notified: &mut T|
                                {
                                    &&& *notified == checked
                                    &&& Some(*final(notified)) == post.task
                                    &&& #[trigger] call_ensures(
                                        T::on_timeout,
                                        (notified, cpu_id),
                                        (),
                                    )
                                }
                        }
                }
            },
{
}

} // verus!
