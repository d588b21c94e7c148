//! Detection entry points.
//!
//! The timer interrupt, the NMI and the watchdog thread of each CPU call in here. What they
//! find they count and, where it calls for attention, hand back as an [`Alert`]; to log it, or
//! to panic where it asks for that, is up to the caller.

use vstd::prelude::*;

use crate::monitor::{Watchdog, WatchdogModel};
use crate::nmi::NmiContext;
use crate::percpu::{
    timer_tick, touch_softlockup, with_cpu, CpuHealth, CpuModel, PerCpuArray, WatchdogState,
    MAX_CPUS,
};
use crate::task::{slots_checked, TaskRegistry, WatchdogTask, MAX_WATCHDOG_TASKS};

verus! {

/// A condition that calls for attention.
#[derive(Debug, Clone, Copy, PartialEq, Eq, Structural)]
pub enum Alert {
    /// Timer interrupts stopped: the CPU is completely unresponsive.
    HardLockup {
        /// The CPU.
        cpu_id: usize,
        /// Program counter at interrupt.
        pc: usize,
        /// Stack pointer at interrupt.
        sp: usize,
        /// Link register at interrupt.
        lr: usize,
        /// The watchdog is configured to panic on this.
        panic: bool,
    },
    /// Interrupts work but tasks cannot be scheduled.
    SoftLockup {
        /// The CPU.
        cpu_id: usize,
        /// How long the watchdog thread has not been scheduled.
        elapsed_ms: u64,
        /// The watchdog is configured to panic on this.
        panic: bool,
    },
    /// Locks are held for too long.
    PossibleDeadlock {
        /// The CPU.
        cpu_id: usize,
        /// Number of locks held.
        locks_held: u32,
        /// Time since the watchdog thread last ran, which stands for the time the locks have
        /// been held.
        elapsed_ms: u64,
    },
    /// A registered task failed its health check too often.
    TaskTimeout {
        /// The CPU that found it.
        cpu_id: usize,
        /// Program counter at interrupt.
        pc: usize,
        /// Stack pointer at interrupt.
        sp: usize,
    },
}

/// What an NMI found.
#[derive(Debug, Clone, Copy, PartialEq, Eq, Structural)]
pub struct NmiReport {
    /// About the CPU.
    pub cpu: Option<Alert>,
    /// About the registered tasks. Where there is an alert, the tasks are to be notified, from
    /// normal context: see [`notify_tasks`].
    pub tasks: Option<Alert>,
}

/// The watchdog and a CPU after something was handled, and the alert it gave.
pub struct Outcome {
    /// The watchdog.
    pub watchdog: WatchdogModel,
    /// The CPU.
    pub cpu: CpuModel,
    /// The alert, if any.
    pub alert: Option<Alert>,
}

/// Milliseconds from `since_ns` to `now_ns`, zero if that lies in the future.
pub open spec fn elapsed_ms(now_ns: u64, since_ns: u64) -> u64 {
    if now_ns < since_ns {
        0
    } else {
        ((now_ns - since_ns) / 1_000_000) as u64
    }
}

/// The CPU, triggered if its watchdog was active.
pub open spec fn triggered(cpu: CpuModel) -> CpuModel {
    if cpu.state == WatchdogState::Active {
        CpuModel { state: WatchdogState::Triggered, ..cpu }
    } else {
        cpu
    }
}

/// The CPU after one more failed check.
pub open spec fn failed_once_more(cpu: CpuModel) -> CpuModel {
    CpuModel { fail_count: cpu.fail_count.wrapping_add(1), ..cpu }
}

/// Handling a hardlockup of a CPU: it is counted, and the first time triggers the CPU's watchdog
/// and gives an alert.
pub open spec fn hardlockup_handled(
    watchdog: WatchdogModel,
    cpu: CpuModel,
    cpu_id: usize,
    ctx: NmiContext,
) -> Outcome {
    Outcome {
        watchdog: watchdog.hardlockup_counted(),
        cpu: if cpu.hardlockup_warned {
            cpu
        } else {
            triggered(CpuModel { hardlockup_warned: true, ..cpu })
        },
        alert: if cpu.hardlockup_warned {
            None
        } else {
            Some(
                Alert::HardLockup {
                    cpu_id,
                    pc: ctx.pc,
                    sp: ctx.sp,
                    lr: ctx.lr,
                    panic: watchdog.panic_on_hardlockup,
                },
            )
        },
    }
}

/// Handling a softlockup of a CPU: it is counted, and once there have been as many consecutive
/// failures as the threshold says, triggers the CPU's watchdog and gives an alert.
pub open spec fn softlockup_handled(
    watchdog: WatchdogModel,
    cpu: CpuModel,
    cpu_id: usize,
    now_ns: u64,
) -> Outcome {
    let failed = failed_once_more(cpu);
    let enough = failed.fail_count >= watchdog.fail_threshold;
    Outcome {
        watchdog: watchdog.softlockup_counted(),
        cpu: if enough {
            triggered(failed)
        } else {
            failed
        },
        alert: if enough {
            Some(
                Alert::SoftLockup {
                    cpu_id,
                    elapsed_ms: elapsed_ms(now_ns, cpu.soft_timestamp),
                    panic: watchdog.panic_on_softlockup,
                },
            )
        } else {
            None
        },
    }
}

/// Handling a possible deadlock of a CPU: it counts as a failure and gives an alert.
pub open spec fn deadlock_handled(
    watchdog: WatchdogModel,
    cpu: CpuModel,
    cpu_id: usize,
    now_ns: u64,
) -> Outcome {
    Outcome {
        watchdog: watchdog.failure_counted(),
        cpu,
        alert: Some(
            Alert::PossibleDeadlock {
                cpu_id,
                locks_held: cpu.locks_held,
                elapsed_ms: elapsed_ms(now_ns, cpu.soft_timestamp),
            },
        ),
    }
}

/// Handling a task timeout, found by a CPU: once there have been as many consecutive failures as
/// the threshold says, and if the CPU's watchdog is active, it is triggered and there is an
/// alert; the watchdog then starts over where it is configured to.
pub open spec fn task_timeout_handled(
    watchdog: WatchdogModel,
    cpu: CpuModel,
    cpu_id: usize,
    ctx: NmiContext,
) -> Outcome {
    let failed = failed_once_more(cpu);
    let expired = failed.fail_count >= watchdog.fail_threshold && failed.state
        == WatchdogState::Active;
    Outcome {
        watchdog,
        cpu: if !expired {
            failed
        } else if watchdog.auto_restart {
            CpuModel { state: WatchdogState::Active, ..CpuModel::initial() }
        } else {
            triggered(failed)
        },
        alert: if expired {
            Some(Alert::TaskTimeout { cpu_id, pc: ctx.pc, sp: ctx.sp })
        } else {
            None
        },
    }
}

/// What a timer interrupt does on a CPU that exists: it counts as a tick, and a softlockup is
/// handled.
pub open spec fn timer_handled(
    watchdog: WatchdogModel,
    cpu: CpuModel,
    cpu_id: usize,
    now_ns: u64,
) -> Outcome {
    let ticked = cpu.ticked();
    if ticked.soft_locked(now_ns, watchdog.softlockup_thresh_ns) {
        softlockup_handled(watchdog, ticked, cpu_id, now_ns)
    } else {
        Outcome { watchdog, cpu: ticked, alert: None }
    }
}

/// What an NMI does on a CPU that exists: its health is checked, and what is found is handled; a
/// healthy CPU has its warning cleared and, if the tasks are healthy too, its failures.
pub open spec fn nmi_handled(
    watchdog: WatchdogModel,
    cpu: CpuModel,
    cpu_id: usize,
    ctx: NmiContext,
    tasks_healthy: bool,
) -> Outcome {
    let now_ns = ctx.timestamp_ns;
    let soft = watchdog.softlockup_thresh_ns;
    let lock = watchdog.lock_timeout_ns;
    let checked = cpu.health_checked(now_ns, soft, lock);
    match cpu.diagnosis(now_ns, soft, lock) {
        CpuHealth::HardLockup => hardlockup_handled(watchdog, checked, cpu_id, ctx),
        CpuHealth::SoftLockup => softlockup_handled(watchdog, checked, cpu_id, now_ns),
        CpuHealth::PossibleDeadlock => deadlock_handled(watchdog, checked, cpu_id, now_ns),
        CpuHealth::Healthy => Outcome {
            watchdog,
            cpu: CpuModel {
                hardlockup_warned: false,
                fail_count: if tasks_healthy {
                    0
                } else {
                    checked.fail_count
                },
                ..checked
            },
            alert: None,
        },
    }
}

/// What an NMI does to the watchdog and a CPU, once it is known whether the tasks are healthy:
/// the check is counted, the CPU is seen to, and then a failure of the tasks.
pub open spec fn nmi_outcome(
    watchdog: WatchdogModel,
    cpu: CpuModel,
    cpu_id: usize,
    ctx: NmiContext,
    tasks_healthy: bool,
) -> (Outcome, Option<Alert>) {
    let on_cpu = nmi_handled(watchdog.check_counted(), cpu, cpu_id, ctx, tasks_healthy);
    if tasks_healthy {
        (on_cpu, None)
    } else {
        let on_tasks = task_timeout_handled(
            on_cpu.watchdog.failure_counted(),
            on_cpu.cpu,
            cpu_id,
            ctx,
        );
        (Outcome { alert: on_cpu.alert, ..on_tasks }, on_tasks.alert)
    }
}

/// The watchdog after an NMI on a CPU that does not exist.
pub open spec fn nmi_elsewhere(watchdog: WatchdogModel, tasks_healthy: bool) -> WatchdogModel {
    if tasks_healthy {
        watchdog.check_counted()
    } else {
        watchdog.check_counted().failure_counted()
    }
}

/// What a watchdog reports and does on an NMI, whether it is running or not and whether the CPU
/// exists or not.
pub open spec fn nmi_checked(
    watchdog: WatchdogModel,
    cpus: Seq<CpuModel>,
    cpu_id: usize,
    ctx: NmiContext,
    tasks_healthy: bool,
    watchdog_after: WatchdogModel,
    cpus_after: Seq<CpuModel>,
    report: NmiReport,
) -> bool {
    if !watchdog.running {
        &&& watchdog_after == watchdog
        &&& cpus_after == cpus
        &&& report == (NmiReport { cpu: None, tasks: None })
    } else if cpu_id >= MAX_CPUS {
        &&& watchdog_after == nmi_elsewhere(watchdog, tasks_healthy)
        &&& cpus_after == cpus
        &&& report == (NmiReport { cpu: None, tasks: None })
    } else {
        let (outcome, tasks) = nmi_outcome(
            watchdog,
            cpus[cpu_id as int],
            cpu_id,
            ctx,
            tasks_healthy,
        );
        &&& watchdog_after == outcome.watchdog
        &&& cpus_after == cpus.update(cpu_id as int, outcome.cpu)
        &&& report == (NmiReport { cpu: outcome.alert, tasks })
    }
}

/// Timer interrupt handler for watchdog.
///
/// Call this from your timer interrupt handler on each CPU.
/// This handles:
/// 1. Incrementing the hrtimer_interrupts counter (for hardlockup detection)
/// 2. Checking for softlockup (watchdog thread not running)
///
/// A watchdog that is not running does neither.
///
/// # Arguments
/// * `cpu_id` - Current CPU ID
/// * `now_ns` - Current timestamp in nanoseconds
pub fn watchdog_timer_handler(
    watchdog: &mut Watchdog,
    cpus: &mut PerCpuArray,
    cpu_id: usize,
    now_ns: u64,
) -> (alert: Option<Alert>)
    ensures
        !old(watchdog)@.running || cpu_id >= MAX_CPUS ==> {
            &&& alert == None::<Alert>
            &&& final(watchdog)@ == old(watchdog)@
            &&& final(cpus)@ == old(cpus)@
        },
        old(watchdog)@.running && cpu_id < MAX_CPUS ==> {
            let outcome = timer_handled(
                old(watchdog)@,
                old(cpus)@[cpu_id as int],
                cpu_id,
                now_ns,
            );
            &&& alert == outcome.alert
            &&& final(watchdog)@ == outcome.watchdog
            &&& final(cpus)@ == old(cpus)@.update(cpu_id as int, outcome.cpu)
        },
{
    if !watchdog.is_running() {
        return None;
    }
    // 1. Increment timer interrupt counter (for hardlockup detection by NMI)
    timer_tick(cpus, cpu_id);
    // 2. Check for softlockup
    let soft_thresh = watchdog.softlockup_thresh_ns();
    let locked = match cpus.try_get(cpu_id) {
        Some(cpu) => cpu.check_softlockup(now_ns, soft_thresh),
        None => false,
    };
    let alert = if locked {
        handle_softlockup(watchdog, cpus, cpu_id, now_ns)
    } else {
        None
    };
    proof {
        if cpu_id < MAX_CPUS {
            let outcome = timer_handled(
                old(watchdog)@,
                old(cpus)@[cpu_id as int],
                cpu_id,
                now_ns,
            );
            assert(cpus@ =~= old(cpus)@.update(cpu_id as int, outcome.cpu));
        }
    }
    alert
}

/// The part of the NMI handler that comes after the tasks have been checked: `tasks_healthy`
/// tells whether all of them passed.
///
/// # Arguments
/// * `cpu_id` - CPU ID that received the NMI
/// * `ctx` - NMI context with interrupted state
pub fn watchdog_nmi_check(
    watchdog: &mut Watchdog,
    cpus: &mut PerCpuArray,
    cpu_id: usize,
    ctx: &NmiContext,
    tasks_healthy: bool,
) -> (report: NmiReport)
    ensures
        nmi_checked(
            old(watchdog)@,
            old(cpus)@,
            cpu_id,
            *ctx,
            tasks_healthy,
            final(watchdog)@,
            final(cpus)@,
            report,
        ),
{
    if !watchdog.is_running() {
        return NmiReport { cpu: None, tasks: None };
    }
    // Increment check counter
    watchdog.count_check();
    let now_ns = ctx.timestamp_ns;
    let soft_thresh = watchdog.softlockup_thresh_ns();
    let lock_thresh = watchdog.lock_timeout_ns();
    // Perform comprehensive health check
    let mut cpu_alert: Option<Alert> = None;
    if cpu_id < MAX_CPUS {
        let health = cpus.check_cpu_health(cpu_id, now_ns, soft_thresh, lock_thresh);
        match health {
            CpuHealth::HardLockup => {
                cpu_alert = handle_hardlockup(watchdog, cpus, cpu_id, ctx);
            },
            CpuHealth::SoftLockup => {
                // Softlockup in NMI - this is informational, timer handler is primary
                cpu_alert = handle_softlockup(watchdog, cpus, cpu_id, now_ns);
            },
            CpuHealth::PossibleDeadlock => {
                cpu_alert = handle_possible_deadlock(watchdog, cpus, cpu_id, now_ns);
            },
            CpuHealth::Healthy => {
                // Reset warnings
                if let Some(cpu) = cpus.try_get_mut(cpu_id) {
                    cpu.set_hardlockup_warned(false);
                    // Failures of the tasks go on counting
                    if tasks_healthy {
                        cpu.reset_fail_count();
                    }
                }
            },
        }
    }
    // Also see to the registered tasks
    let mut task_alert: Option<Alert> = None;
    if !tasks_healthy {
        watchdog.count_failure();
        task_alert = handle_task_timeout(watchdog, cpus, cpu_id, ctx);
    }
    proof {
        if cpu_id < MAX_CPUS {
            let (outcome, tasks) = nmi_outcome(
                old(watchdog)@,
                old(cpus)@[cpu_id as int],
                cpu_id,
                *ctx,
                tasks_healthy,
            );
            assert(cpus@ =~= old(cpus)@.update(cpu_id as int, outcome.cpu));
        }
    }
    NmiReport { cpu: cpu_alert, tasks: task_alert }
}

/// NMI handler for watchdog (hardlockup detection).
///
/// This is called from the NMI source (PMU overflow or SDEI) when triggered.
/// It performs the critical hardlockup check: if timer interrupts have stopped,
/// the CPU is completely stuck. It also checks the registered tasks.
///
/// A watchdog that is not running does nothing.
///
/// # Arguments
/// * `cpu_id` - CPU ID that received the NMI
/// * `ctx` - NMI context with interrupted state
pub fn watchdog_nmi_handler<T: WatchdogTask>(
    watchdog: &mut Watchdog,
    cpus: &mut PerCpuArray,
    registry: &mut TaskRegistry<T>,
    cpu_id: usize,
    ctx: &NmiContext,
) -> (report: NmiReport)
    requires
        old(registry).wf(),
    ensures
        final(registry).wf(),
        !old(watchdog)@.running ==> {
            &&& report == (NmiReport { cpu: None, tasks: None })
            &&& final(watchdog)@ == old(watchdog)@
            &&& final(cpus)@ == old(cpus)@
            &&& final(registry)@ == old(registry)@
        },
        old(watchdog)@.running ==> exists|tasks_healthy: bool|
            {
                &&& #[trigger] slots_checked(old(registry)@, final(registry)@, tasks_healthy)
                &&& nmi_checked(
                    old(watchdog)@,
                    old(cpus)@,
                    cpu_id,
                    *ctx,
                    tasks_healthy,
                    final(watchdog)@,
                    final(cpus)@,
                    report,
                )
            },
{
    if !watchdog.is_running() {
        return NmiReport { cpu: None, tasks: None };
    }
    let tasks_healthy = registry.check_all();
    watchdog_nmi_check(watchdog, cpus, cpu_id, ctx, tasks_healthy)
}

/// Notify the registered tasks, where an NMI has found that they timed out.
///
/// Each task is checked once more, and called back if it is unhealthy. This should be called
/// from normal context (not NMI), with what [`watchdog_nmi_handler`] reported.
pub fn notify_tasks<T: WatchdogTask>(report: &NmiReport, registry: &mut TaskRegistry<T>)
    requires
        old(registry).wf(),
    ensures
        final(registry).wf(),
        !(report.tasks matches Some(Alert::TaskTimeout { .. })) ==> final(registry)@ == old(
            registry,
        )@,
        report.tasks matches Some(Alert::TaskTimeout { cpu_id, .. }) ==> forall|i: int|
            0 <= i < MAX_WATCHDOG_TASKS ==> {
                let slot = #[trigger] final(registry)@[i];
                &&& slot.generation == old(registry)@[i].generation
                &&& old(registry)@[i].task is None ==> slot.task is None
                &&& old(registry)@[i].task matches Some(before) ==> {
                    &&& slot.task is Some
                    &&& exists|checked: T, healthy: bool|
                        {
                            &&& #[trigger] T::check_step(before, checked, healthy)
                            &&& healthy ==> slot.task == Some(checked)
                            &&& !healthy ==> exists|notified: &mut T|
                                {
                                    &&& *notified == checked
                                    &&& Some(*final(notified)) == slot.task
                                    &&& #[trigger] call_ensures(
                                        T::on_timeout,
                                        (notified, cpu_id),
                                        (),
                                    )
                                }
                        }
                }
            },
{
    if let Some(Alert::TaskTimeout { cpu_id, .. }) = report.tasks {
        registry.notify_timeout(cpu_id);
    }
}

/// Watchdog thread entry point.
///
/// This should be called periodically from a high-priority kernel thread.
/// It updates the soft_timestamp to indicate the thread is running.
///
/// # Arguments
/// * `cpu_id` - Current CPU ID
/// * `now_ns` - Current timestamp in nanoseconds
pub fn watchdog_thread_tick(cpus: &mut PerCpuArray, cpu_id: usize, now_ns: u64)
    ensures
        final(cpus)@ == with_cpu(
            old(cpus)@,
            cpu_id,
            (CpuModel { soft_timestamp: now_ns, ..old(cpus)@[cpu_id as int] }),
        ),
{
    touch_softlockup(cpus, cpu_id, now_ns);
}

/// Handle hardlockup detection. On a CPU that does not exist it is counted and reported.
pub fn handle_hardlockup(
    watchdog: &mut Watchdog,
    cpus: &mut PerCpuArray,
    cpu_id: usize,
    ctx: &NmiContext,
) -> (alert: Option<Alert>)
    ensures
        cpu_id >= MAX_CPUS ==> {
            &&& alert == Some(
                Alert::HardLockup {
                    cpu_id,
                    pc: ctx.pc,
                    sp: ctx.sp,
                    lr: ctx.lr,
                    panic: old(watchdog)@.panic_on_hardlockup,
                },
            )
            &&& final(watchdog)@ == old(watchdog)@.hardlockup_counted()
            &&& final(cpus)@ == old(cpus)@
        },
        cpu_id < MAX_CPUS ==> {
            let outcome = hardlockup_handled(
                old(watchdog)@,
                old(cpus)@[cpu_id as int],
                cpu_id,
                *ctx,
            );
            &&& alert == outcome.alert
            &&& final(watchdog)@ == outcome.watchdog
            &&& final(cpus)@ == old(cpus)@.update(cpu_id as int, outcome.cpu)
        },
{
    watchdog.count_hardlockup();
    if let Some(cpu) = cpus.try_get_mut(cpu_id) {
        // Only warn once per lockup
        if cpu.hardlockup_warned() {
            return None;
        }
        cpu.set_hardlockup_warned(true);
        // Transition state
        let _ = cpu.try_transition(WatchdogState::Active, WatchdogState::Triggered);
    }
    Some(
        Alert::HardLockup {
            cpu_id,
            pc: ctx.pc,
            sp: ctx.sp,
            lr: ctx.lr,
            panic: watchdog.panic_on_hardlockup(),
        },
    )
}

/// Handle softlockup detection. On a CPU that does not exist it is only counted.
pub fn handle_softlockup(
    watchdog: &mut Watchdog,
    cpus: &mut PerCpuArray,
    cpu_id: usize,
    now_ns: u64,
) -> (alert: Option<Alert>)
    ensures
        cpu_id >= MAX_CPUS ==> {
            &&& alert == None::<Alert>
            &&& final(watchdog)@ == old(watchdog)@.softlockup_counted()
            &&& final(cpus)@ == old(cpus)@
        },
        cpu_id < MAX_CPUS ==> {
            let outcome = softlockup_handled(
                old(watchdog)@,
                old(cpus)@[cpu_id as int],
                cpu_id,
                now_ns,
            );
            &&& alert == outcome.alert
            &&& final(watchdog)@ == outcome.watchdog
            &&& final(cpus)@ == old(cpus)@.update(cpu_id as int, outcome.cpu)
        },
{
    watchdog.count_softlockup();
    let threshold = watchdog.fail_threshold();
    match cpus.try_get_mut(cpu_id) {
        Some(cpu) => {
            let fail_count = cpu.increment_fail_count();
            if fail_count < threshold {
                return None;  // Not enough consecutive failures
            }
            // Transition state
            let _ = cpu.try_transition(WatchdogState::Active, WatchdogState::Triggered);
            let soft_ts = cpu.soft_timestamp();
            Some(
                Alert::SoftLockup {
                    cpu_id,
                    elapsed_ms: now_ns.saturating_sub(soft_ts) / 1_000_000,
                    panic: watchdog.panic_on_softlockup(),
                },
            )
        },
        None => None,
    }
}

/// Handle possible deadlock detection. It leaves the CPUs as they are; on a CPU that does not
/// exist it is only counted.
pub fn handle_possible_deadlock(
    watchdog: &mut Watchdog,
    cpus: &PerCpuArray,
    cpu_id: usize,
    now_ns: u64,
) -> (alert: Option<Alert>)
    ensures
        final(watchdog)@ == old(watchdog)@.failure_counted(),
        alert == (if cpu_id < MAX_CPUS {
            deadlock_handled(old(watchdog)@, cpus@[cpu_id as int], cpu_id, now_ns).alert
        } else {
            None
        }),
{
    watchdog.count_failure();
    match cpus.try_get(cpu_id) {
        Some(cpu) => {
            // Using soft_timestamp as proxy
            let lock_time = cpu.soft_timestamp();
            Some(
                Alert::PossibleDeadlock {
                    cpu_id,
                    locks_held: cpu.locks_held(),
                    elapsed_ms: now_ns.saturating_sub(lock_time) / 1_000_000,
                },
            )
        },
        None => None,
    }
}

/// Handle task timeout. On a CPU that does not exist there is nothing to do.
pub fn handle_task_timeout(
    watchdog: &Watchdog,
    cpus: &mut PerCpuArray,
    cpu_id: usize,
    ctx: &NmiContext,
) -> (alert: Option<Alert>)
    ensures
        cpu_id >= MAX_CPUS ==> alert == None::<Alert> && final(cpus)@ == old(cpus)@,
        cpu_id < MAX_CPUS ==> {
            let outcome = task_timeout_handled(
                watchdog@,
                old(cpus)@[cpu_id as int],
                cpu_id,
                *ctx,
            );
            &&& alert == outcome.alert
            &&& final(cpus)@ == old(cpus)@.update(cpu_id as int, outcome.cpu)
        },
{
    match cpus.try_get_mut(cpu_id) {
        Some(cpu) => {
            let fail_count = cpu.increment_fail_count();
            if fail_count >= watchdog.fail_threshold() && cpu.try_transition(
                WatchdogState::Active,
                WatchdogState::Triggered,
            ) {
                // Auto-restart if configured
                if watchdog.auto_restart() {
                    cpu.reset();
                    cpu.set_state(WatchdogState::Active);
                }
                Some(Alert::TaskTimeout { cpu_id, pc: ctx.pc, sp: ctx.sp })
            } else {
                None
            }
        },
        None => None,
    }
}

/// A CPU after softlockups were handled at `times`, one after the other, with nothing between
/// them that clears the failures.
pub open spec fn after_softlockups(
    watchdog: WatchdogModel,
    cpu: CpuModel,
    cpu_id: usize,
    times: Seq<u64>,
) -> CpuModel
    decreases times.len(),
{
    if times.len() == 0 {
        cpu
    } else {
        softlockup_handled(
            watchdog,
            after_softlockups(watchdog, cpu, cpu_id, times.drop_last()),
            cpu_id,
            times.last(),
        ).cpu
    }
}

proof fn lemma_after_softlockups(
    watchdog: WatchdogModel,
    cpu: CpuModel,
    cpu_id: usize,
    times: Seq<u64>,
)
    requires
        cpu.fail_count == 0,
        times.len() <= u32::MAX,
    ensures
        after_softlockups(watchdog, cpu, cpu_id, times).fail_count == times.len(),
        after_softlockups(watchdog, cpu, cpu_id, times).state == (if times.len() > 0
            && times.len() >= watchdog.fail_threshold {
            triggered(cpu).state
        } else {
            cpu.state
        }),
    decreases times.len(),
{
    if times.len() > 0 {
        lemma_after_softlockups(watchdog, cpu, cpu_id, times.drop_last());
    }
}

/// A softlockup gives an alert just if it is at least the threshold's number in a row, and an
/// active watchdog of a CPU is triggered by the first of these.
pub proof fn law_threshold_of_consecutive_failures(
    watchdog: WatchdogModel,
    cpu: CpuModel,
    cpu_id: usize,
    times: Seq<u64>,
    now_ns: u64,
)
    requires
        cpu.fail_count == 0,
        times.len() < u32::MAX,
    ensures
        ({
            let last = softlockup_handled(
                watchdog,
                after_softlockups(watchdog, cpu, cpu_id, times),
                cpu_id,
                now_ns,
            );
            let enough = times.len() + 1 >= watchdog.fail_threshold;
            &&& (last.alert is Some <==> enough)
            &&& cpu.state == WatchdogState::Active ==> (last.cpu.state == WatchdogState::Triggered
                <==> enough)
        }),
{
    lemma_after_softlockups(watchdog, cpu, cpu_id, times);
}

/// A hardlockup gives an alert once: when the same CPU is found in one again, there is none.
pub proof fn law_hardlockup_warns_once(
    watchdog: WatchdogModel,
    cpu: CpuModel,
    cpu_id: usize,
    first: NmiContext,
    second: NmiContext,
)
    ensures
        ({
            let once = hardlockup_handled(watchdog, cpu, cpu_id, first);
            let twice = hardlockup_handled(once.watchdog, once.cpu, cpu_id, second);
            &&& (once.alert is Some <==> !cpu.hardlockup_warned)
            &&& twice.alert is None
            &&& twice.cpu == once.cpu
        }),
{
}

/// A warning about a hardlockup stands until an NMI finds the CPU healthy, or starts its watchdog
/// over; timer interrupts leave it alone.
pub proof fn law_warning_stands_until_healthy(
    watchdog: WatchdogModel,
    cpu: CpuModel,
    cpu_id: usize,
    ctx: NmiContext,
    tasks_healthy: bool,
    tick_ns: u64,
)
    requires
        cpu.hardlockup_warned,
    ensures
        ({
            let (outcome, tasks) = nmi_outcome(watchdog, cpu, cpu_id, ctx, tasks_healthy);
            let healthy = cpu.diagnosis(
                ctx.timestamp_ns,
                watchdog.softlockup_thresh_ns,
                watchdog.lock_timeout_ns,
            ) == CpuHealth::Healthy;
            let started_over = tasks is Some && watchdog.auto_restart;
            &&& (outcome.cpu.hardlockup_warned <==> !healthy && !started_over)
            &&& timer_handled(watchdog, cpu, cpu_id, tick_ns).cpu.hardlockup_warned
        }),
{
}

/// A CPU that an NMI finds healthy, with healthy tasks, gives no alert and no failure, and is
/// ready to be warned about again.
pub proof fn law_healthy_nmi_is_quiet(
    watchdog: WatchdogModel,
    cpu: CpuModel,
    cpu_id: usize,
    ctx: NmiContext,
)
    requires
        cpu.diagnosis(ctx.timestamp_ns, watchdog.softlockup_thresh_ns, watchdog.lock_timeout_ns)
            == CpuHealth::Healthy,
    ensures
        ({
            let (outcome, tasks) = nmi_outcome(watchdog, cpu, cpu_id, ctx, true);
            &&& outcome.alert is None
            &&& tasks is None
            &&& outcome.watchdog == watchdog.check_counted()
            &&& outcome.cpu.fail_count == 0
            &&& !outcome.cpu.hardlockup_warned
            &&& outcome.cpu.state == cpu.state
        }),
{
}

/// A CPU whose timer interrupts reach the watchdog is not found in a hardlockup: one between two
/// NMIs is enough.
pub proof fn law_timer_prevents_hardlockup(
    watchdog: WatchdogModel,
    cpu: CpuModel,
    cpu_id: usize,
    ctx: NmiContext,
    tasks_healthy: bool,
    tick_ns: u64,
    next: NmiContext,
)
    ensures
        ({
            let after_nmi = nmi_outcome(watchdog, cpu, cpu_id, ctx, tasks_healthy).0;
            let after_timer = timer_handled(after_nmi.watchdog, after_nmi.cpu, cpu_id, tick_ns);
            after_timer.cpu.diagnosis(
                next.timestamp_ns,
                after_timer.watchdog.softlockup_thresh_ns,
                after_timer.watchdog.lock_timeout_ns,
            ) != CpuHealth::HardLockup
        }),
{
}

/// A CPU that has had timer interrupts, and gets none between two NMIs, is found in a
/// hardlockup by the second, unless its watchdog was started over by the first.
pub proof fn law_stopped_timer_is_found(
    watchdog: WatchdogModel,
    cpu: CpuModel,
    cpu_id: usize,
    ctx: NmiContext,
    tasks_healthy: bool,
    next: NmiContext,
    next_tasks_healthy: bool,
)
    requires
        cpu.ticks != 0,
        nmi_outcome(watchdog, cpu, cpu_id, ctx, tasks_healthy).1 is None
            || !watchdog.auto_restart,
    ensures
        ({
            let after_nmi = nmi_outcome(watchdog, cpu, cpu_id, ctx, tasks_healthy).0;
            let second = nmi_handled(
                after_nmi.watchdog.check_counted(),
                after_nmi.cpu,
                cpu_id,
                next,
                next_tasks_healthy,
            );
            &&& second.watchdog.hardlockup_count
                == after_nmi.watchdog.hardlockup_count.wrapping_add(1)
            &&& second.cpu.last_health == CpuHealth::HardLockup
        }),
{
}

/// A watchdog thread that runs keeps its CPU out of a softlockup: within the threshold from its
/// last run, the timer finds nothing.
pub proof fn law_thread_prevents_softlockup(
    watchdog: WatchdogModel,
    cpu: CpuModel,
    cpu_id: usize,
    thread_ns: u64,
    now_ns: u64,
)
    requires
        now_ns <= thread_ns + watchdog.softlockup_thresh_ns,
    ensures
        ({
            let touched = CpuModel { soft_timestamp: thread_ns, ..cpu };
            let outcome = timer_handled(watchdog, touched, cpu_id, now_ns);
            &&& outcome.alert is None
            &&& outcome.watchdog == watchdog
            &&& outcome.cpu == touched.ticked()
        }),
{
}

/// A watchdog thread that has stopped is found by the timer once the threshold has passed.
pub proof fn law_stopped_thread_is_found(
    watchdog: WatchdogModel,
    cpu: CpuModel,
    cpu_id: usize,
    thread_ns: u64,
    now_ns: u64,
)
    requires
        thread_ns != 0,
        now_ns > thread_ns + watchdog.softlockup_thresh_ns,
    ensures
        ({
            let touched = CpuModel { soft_timestamp: thread_ns, ..cpu };
            let outcome = timer_handled(watchdog, touched, cpu_id, now_ns);
            outcome.watchdog == watchdog.softlockup_counted()
        }),
{
}

/// A task timeout is acted on only by a CPU whose watchdog is active, and leaves that watchdog
/// active just if it is configured to start over.
pub proof fn law_task_timeout_needs_active_watchdog(
    watchdog: WatchdogModel,
    cpu: CpuModel,
    cpu_id: usize,
    ctx: NmiContext,
)
    ensures
        ({
            let outcome = task_timeout_handled(watchdog, cpu, cpu_id, ctx);
            &&& outcome.alert is Some ==> cpu.state == WatchdogState::Active
            &&& outcome.alert is Some ==> (outcome.cpu.state == WatchdogState::Active
                <==> watchdog.auto_restart)
            &&& outcome.alert is None ==> outcome.cpu == failed_once_more(cpu)
        }),
{
}

/// An NMI that finds the CPU healthy but the tasks failing.
pub struct TaskFailure {
    /// The watchdog before the NMI.
    pub watchdog: WatchdogModel,
    /// The CPU before the NMI.
    pub cpu: CpuModel,
    /// The NMI's context.
    pub ctx: NmiContext,
}

impl TaskFailure {
    /// The CPU itself is healthy.
    pub open spec fn cpu_is_healthy(self) -> bool {
        self.cpu.diagnosis(
            self.ctx.timestamp_ns,
            self.watchdog.softlockup_thresh_ns,
            self.watchdog.lock_timeout_ns,
        ) == CpuHealth::Healthy
    }

    /// The CPU after the NMI.
    pub open spec fn cpu_after(self, cpu_id: usize) -> CpuModel {
        nmi_outcome(self.watchdog, self.cpu, cpu_id, self.ctx, false).0.cpu
    }

    /// What the NMI reports about the tasks.
    pub open spec fn alert(self, cpu_id: usize) -> Option<Alert> {
        nmi_outcome(self.watchdog, self.cpu, cpu_id, self.ctx, false).1
    }
}

/// `next` follows `previous`: whatever happens to the CPU from the one to the other, such as timer
/// interrupts, leaves its failure count and its watchdog state alone.
pub open spec fn follows(previous: TaskFailure, next: TaskFailure, cpu_id: usize) -> bool {
    let before = previous.cpu_after(cpu_id);
    next.cpu.fail_count == before.fail_count && next.cpu.state == before.state
}

/// The failures follow each other.
pub open spec fn in_a_row(run: Seq<TaskFailure>, cpu_id: usize) -> bool {
    forall|i: int, j: int|
        0 <= i < j < run.len() && j == i + 1 ==> #[trigger] follows(run[i], run[j], cpu_id)
}

/// The number of task failures in a row that make a timeout.
pub open spec fn failures_to_timeout(fail_threshold: u32) -> int {
    if fail_threshold == 0 {
        1
    } else {
        fail_threshold as int
    }
}

proof fn lemma_task_failures_in_a_row(
    run: Seq<TaskFailure>,
    cpu_id: usize,
    fail_threshold: u32,
    i: int,
)
    requires
        in_a_row(run, cpu_id),
        forall|k: int|
            0 <= k < run.len() ==> (#[trigger] run[k]).cpu_is_healthy()
                && run[k].watchdog.fail_threshold == fail_threshold,
        run[0].cpu.fail_count == 0,
        run[0].cpu.state == WatchdogState::Active,
        0 <= i < run.len(),
    ensures
        i < failures_to_timeout(fail_threshold) ==> {
            &&& run[i].cpu.fail_count == i
            &&& run[i].cpu.state == WatchdogState::Active
        },
        i >= failures_to_timeout(fail_threshold) && (forall|k: int|
            0 <= k < run.len() ==> !(#[trigger] run[k]).watchdog.auto_restart)
            ==> run[i].cpu.state == WatchdogState::Triggered,
    decreases i,
{
    if i > 0 {
        lemma_task_failures_in_a_row(run, cpu_id, fail_threshold, i - 1);
        assert(run[i - 1].cpu_is_healthy());
        assert(follows(run[i - 1], run[i], cpu_id));
    }
}

/// On an active CPU that is healthy itself, task failures in a row are reported exactly when
/// there have been as many as the threshold says (and at the first where it says none): not
/// before; and not after, unless the watchdog starts over, with the CPU active and the failures
/// counted anew.
pub proof fn law_task_timeout_at_threshold(
    run: Seq<TaskFailure>,
    cpu_id: usize,
    fail_threshold: u32,
    i: int,
)
    requires
        in_a_row(run, cpu_id),
        forall|k: int|
            0 <= k < run.len() ==> (#[trigger] run[k]).cpu_is_healthy()
                && run[k].watchdog.fail_threshold == fail_threshold,
        run[0].cpu.fail_count == 0,
        run[0].cpu.state == WatchdogState::Active,
        0 <= i < run.len(),
    ensures
        ({
            let needed = failures_to_timeout(fail_threshold);
            let alert = run[i].alert(cpu_id);
            &&& i + 1 < needed ==> alert is None
            &&& i + 1 == needed ==> {
                &&& alert == Some(
                    Alert::TaskTimeout { cpu_id, pc: run[i].ctx.pc, sp: run[i].ctx.sp },
                )
                &&& run[i].watchdog.auto_restart ==> {
                    &&& run[i].cpu_after(cpu_id).state == WatchdogState::Active
                    &&& run[i].cpu_after(cpu_id).fail_count == 0
                }
            }
            &&& i + 1 > needed && (forall|k: int|
                0 <= k < run.len() ==> !(#[trigger] run[k]).watchdog.auto_restart) ==> alert is None
        }),
{
    lemma_task_failures_in_a_row(run, cpu_id, fail_threshold, i);
    assert(run[i].cpu_is_healthy());
}

/// One softlockup: it is counted, as a failure too, and for the CPU; the CPU's watchdog is
/// triggered just if it was active and the failures reach the threshold. Nothing else of the CPU
/// or the watchdog changes.
pub proof fn law_softlockup_step(
    watchdog: WatchdogModel,
    cpu: CpuModel,
    cpu_id: usize,
    now_ns: u64,
)
    requires
        cpu.fail_count < u32::MAX,
    ensures
        ({
            let outcome = softlockup_handled(watchdog, cpu, cpu_id, now_ns);
            let reached = cpu.fail_count + 1 >= watchdog.fail_threshold;
            &&& outcome.watchdog == (WatchdogModel {
                softlockup_count: watchdog.softlockup_count.wrapping_add(1),
                total_failures: watchdog.total_failures.wrapping_add(1),
                ..watchdog
            })
            &&& outcome.cpu == (CpuModel {
                fail_count: (cpu.fail_count + 1) as u32,
                state: if cpu.state == WatchdogState::Active && reached {
                    WatchdogState::Triggered
                } else {
                    cpu.state
                },
                ..cpu
            })
        }),
{
}

} // verus!
