//! Laws on the state of a CPU.

use vstd::prelude::*;

use crate::percpu::{
    CpuHealth, CpuModel, PerCpuArray, PerCpuState, WatchdogState, DEFAULT_HARDLOCKUP_THRESH_NS,
    DEFAULT_LOCK_TIMEOUT_NS, DEFAULT_SOFTLOCKUP_THRESH_NS, MAX_CPUS,
};
use crate::snapshot::CpuSnapshot;

verus! {

/// The limits: 64 CPUs, a hardlockup after 10 seconds, a softlockup after 20, a lock timeout after
/// 60.
pub proof fn law_limits()
    ensures
        MAX_CPUS == 64,
        crate::nmi::MAX_CPUS == 64,
        DEFAULT_HARDLOCKUP_THRESH_NS == 10 * 1_000_000_000,
        DEFAULT_SOFTLOCKUP_THRESH_NS == 20 * 1_000_000_000,
        DEFAULT_LOCK_TIMEOUT_NS == 60 * 1_000_000_000,
{
}

/// A raw health value stands for the status it is the number of, and any other for a healthy CPU;
/// a status gives back its number.
pub proof fn law_health_values(val: u32, health: CpuHealth, back: u32)
    requires
        call_ensures(CpuHealth::from_u32, (val,), health),
        call_ensures(CpuHealth::as_u32, (health,), back),
    ensures
        health == CpuHealth::SoftLockup <==> val == 1,
        health == CpuHealth::HardLockup <==> val == 2,
        health == CpuHealth::PossibleDeadlock <==> val == 3,
        back == (if val <= 3 {
            val
        } else {
            0
        }),
{
}

/// Just the two lockups are lockups.
pub proof fn law_lockups(health: CpuHealth, lockup: bool)
    requires
        call_ensures(CpuHealth::is_lockup, (&health,), lockup),
    ensures
        lockup <==> health != CpuHealth::Healthy && health != CpuHealth::PossibleDeadlock,
{
}

/// A raw state value stands for the state it is the number of, and any other for an idle watchdog;
/// a state gives back its number.
pub proof fn law_state_values(val: u32, state: WatchdogState, back: u32)
    requires
        call_ensures(WatchdogState::from_u32, (val,), state),
        call_ensures(WatchdogState::as_u32, (state,), back),
    ensures
        state == WatchdogState::Active <==> val == 1,
        state == WatchdogState::Triggered <==> val == 2,
        state == WatchdogState::Dumping <==> val == 3,
        state == WatchdogState::Completed <==> val == 4,
        back == (if val <= 4 {
            val
        } else {
            0
        }),
{
}

/// A new CPU state, however it is made, has counted nothing, is idle, healthy and not warned
/// about, and has no snapshot; and resetting a state makes it a new one.
pub proof fn law_new_cpu(
    cpu: PerCpuState,
    by_default: PerCpuState,
    reset: &mut PerCpuState,
)
    requires
        call_ensures(PerCpuState::new, (), cpu),
        call_ensures(<PerCpuState as Default>::default, (), by_default),
        call_ensures(PerCpuState::reset, (reset,), ()),
    ensures
        cpu@.heartbeat == 0,
        cpu@.last_checked_heartbeat == 0,
        cpu@.soft_timestamp == 0,
        cpu@.ticks == 0,
        cpu@.ticks_saved == 0,
        !cpu@.hardlockup_warned,
        cpu@.locks_held == 0,
        cpu@.earliest_lock_time == 0,
        cpu@.fail_count == 0,
        cpu@.state == WatchdogState::Idle,
        cpu@.last_health == CpuHealth::Healthy,
        cpu@.snapshot is None,
        cpu@.last_update_ns == 0,
        by_default@ == cpu@,
        final(reset)@ == cpu@,
{
}

/// A heartbeat moves the heartbeat counter on by one and, with a timestamp, takes note of that;
/// it touches nothing else.
pub proof fn law_pet(cpu: &mut PerCpuState, timed: &mut PerCpuState, timestamp_ns: u64)
    requires
        call_ensures(PerCpuState::pet, (cpu,), ()),
        call_ensures(PerCpuState::pet_with_timestamp, (timed, timestamp_ns), ()),
    ensures
        final(cpu)@ == (CpuModel { heartbeat: old(cpu)@.heartbeat.wrapping_add(1), ..old(cpu)@ }),
        final(timed)@ == (CpuModel {
            heartbeat: old(timed)@.heartbeat.wrapping_add(1),
            last_update_ns: timestamp_ns,
            ..old(timed)@
        }),
{
}

/// A heartbeat check tells whether the counter differs from what the last check saw, and takes
/// note of the counter and of nothing else.
pub proof fn law_check_heartbeat(cpu: &mut PerCpuState, healthy: bool)
    requires
        call_ensures(PerCpuState::check_heartbeat, (cpu,), healthy),
    ensures
        healthy <==> old(cpu)@.heartbeat != old(cpu)@.last_checked_heartbeat,
        final(cpu)@ == (CpuModel { last_checked_heartbeat: old(cpu)@.heartbeat, ..old(cpu)@ }),
{
}

/// The watchdog thread's run is recorded with its time, and a softlockup is found exactly when
/// such a time, other than zero, lies back by more than the threshold.
pub proof fn law_softlockup_test(
    touched: &mut PerCpuState,
    timestamp_ns: u64,
    cpu: &PerCpuState,
    now_ns: u64,
    threshold_ns: u64,
    detected: bool,
)
    requires
        call_ensures(PerCpuState::touch_softlockup, (touched, timestamp_ns), ()),
        call_ensures(PerCpuState::check_softlockup, (cpu, now_ns, threshold_ns), detected),
    ensures
        final(touched)@ == (CpuModel { soft_timestamp: timestamp_ns, ..old(touched)@ }),
        detected <==> cpu@.soft_timestamp > 0 && now_ns > cpu@.soft_timestamp + threshold_ns,
{
}

/// A timer interrupt moves the tick counter on by one. A hardlockup is found exactly when the
/// counter, other than zero, is what the last check saw; the check takes note of it.
pub proof fn law_hardlockup_test(
    ticked: &mut PerCpuState,
    cpu: &mut PerCpuState,
    detected: bool,
)
    requires
        call_ensures(PerCpuState::timer_tick, (ticked,), ()),
        call_ensures(PerCpuState::check_hardlockup, (cpu,), detected),
    ensures
        final(ticked)@ == (CpuModel { ticks: old(ticked)@.ticks.wrapping_add(1), ..old(ticked)@ }),
        detected <==> old(cpu)@.ticks == old(cpu)@.ticks_saved && old(cpu)@.ticks > 0,
        final(cpu)@ == (CpuModel { ticks_saved: old(cpu)@.ticks, ..old(cpu)@ }),
{
}

/// Acquiring a lock raises the count of locks, and records the time if there was none; releasing
/// one lowers the count, and clears the time with the last one. Nothing else changes.
pub proof fn law_lock_records(
    acquired: &mut PerCpuState,
    timestamp_ns: u64,
    released: &mut PerCpuState,
)
    requires
        call_ensures(PerCpuState::lock_acquired, (acquired, timestamp_ns), ()),
        call_ensures(PerCpuState::lock_released, (released,), ()),
    ensures
        final(acquired)@ == (CpuModel {
            locks_held: final(acquired)@.locks_held,
            earliest_lock_time: final(acquired)@.earliest_lock_time,
            ..old(acquired)@
        }),
        final(acquired)@.locks_held == old(acquired)@.locks_held.wrapping_add(1),
        old(acquired)@.locks_held == 0 ==> final(acquired)@.earliest_lock_time == timestamp_ns,
        old(acquired)@.locks_held > 0 ==> final(acquired)@.earliest_lock_time == old(
            acquired,
        )@.earliest_lock_time,
        final(released)@ == (CpuModel {
            locks_held: final(released)@.locks_held,
            earliest_lock_time: final(released)@.earliest_lock_time,
            ..old(released)@
        }),
        final(released)@.locks_held == old(released)@.locks_held.wrapping_sub(1),
        final(released)@.locks_held == 0 ==> final(released)@.earliest_lock_time == 0,
        final(released)@.locks_held != 0 ==> final(released)@.earliest_lock_time == old(
            released,
        )@.earliest_lock_time,
{
}

/// A deadlock is suspected exactly when locks are held, of whatever number, and the time since
/// when, if not zero, lies back by more than the threshold.
pub proof fn law_deadlock_test(
    cpu: &PerCpuState,
    now_ns: u64,
    threshold_ns: u64,
    detected: bool,
)
    requires
        call_ensures(PerCpuState::check_deadlock, (cpu, now_ns, threshold_ns), detected),
    ensures
        detected <==> cpu@.locks_held > 0 && cpu@.earliest_lock_time > 0 && now_ns
            > cpu@.earliest_lock_time + threshold_ns,
{
}

/// A health check names the gravest condition: the hardlockup, then the softlockup, then the
/// possible deadlock. It takes note of the ticks and the result, and of nothing else.
pub proof fn law_check_health(
    cpu: &mut PerCpuState,
    now_ns: u64,
    soft_thresh_ns: u64,
    lock_thresh_ns: u64,
    health: CpuHealth,
)
    requires
        call_ensures(
            PerCpuState::check_health,
            (cpu, now_ns, soft_thresh_ns, lock_thresh_ns),
            health,
        ),
    ensures
        ({
            let c = old(cpu)@;
            let hard = c.ticks > 0 && c.ticks == c.ticks_saved;
            let soft = c.soft_timestamp > 0 && now_ns > c.soft_timestamp + soft_thresh_ns;
            let dead = c.locks_held > 0 && c.earliest_lock_time > 0 && now_ns
                > c.earliest_lock_time + lock_thresh_ns;
            &&& health == CpuHealth::HardLockup <==> hard
            &&& health == CpuHealth::SoftLockup <==> soft && !hard
            &&& health == CpuHealth::PossibleDeadlock <==> dead && !soft && !hard
            &&& final(cpu)@ == (CpuModel { ticks_saved: c.ticks, last_health: health, ..c })
        }),
{
}

/// The failure count goes up by one and is handed out, or goes to zero; nothing else changes.
pub proof fn law_fail_count(cpu: &mut PerCpuState, count: u32, reset: &mut PerCpuState)
    requires
        call_ensures(PerCpuState::increment_fail_count, (cpu,), count),
        call_ensures(PerCpuState::reset_fail_count, (reset,), ()),
    ensures
        count == old(cpu)@.fail_count.wrapping_add(1),
        final(cpu)@ == (CpuModel { fail_count: count, ..old(cpu)@ }),
        final(reset)@ == (CpuModel { fail_count: 0, ..old(reset)@ }),
{
}

/// A state is set whatever it was; a transition is made just if the CPU is in the state it starts
/// from.
pub proof fn law_state_changes(
    set: &mut PerCpuState,
    state: WatchdogState,
    moved: &mut PerCpuState,
    from: WatchdogState,
    to: WatchdogState,
    done: bool,
)
    requires
        call_ensures(PerCpuState::set_state, (set, state), ()),
        call_ensures(PerCpuState::try_transition, (moved, from, to), done),
    ensures
        final(set)@ == (CpuModel { state, ..old(set)@ }),
        done <==> old(moved)@.state == from,
        done ==> final(moved)@ == (CpuModel { state: to, ..old(moved)@ }),
        !done ==> final(moved)@ == old(moved)@,
{
}

/// A warning and a snapshot are recorded as they are given.
pub proof fn law_records(
    warned: &mut PerCpuState,
    flag: bool,
    stored: &mut PerCpuState,
    snapshot: Option<CpuSnapshot>,
    cleared: &mut PerCpuState,
)
    requires
        call_ensures(PerCpuState::set_hardlockup_warned, (warned, flag), ()),
        call_ensures(PerCpuState::set_snapshot, (stored, snapshot), ()),
        call_ensures(PerCpuState::clear_snapshot, (cleared,), ()),
    ensures
        final(warned)@ == (CpuModel { hardlockup_warned: flag, ..old(warned)@ }),
        final(stored)@ == (CpuModel { snapshot, ..old(stored)@ }),
        final(cleared)@ == (CpuModel { snapshot: None, ..old(cleared)@ }),
{
}

/// What is recorded is what is read.
pub proof fn law_readings(
    cpu: &PerCpuState,
    heartbeat: u64,
    soft_timestamp: u64,
    ticks: u32,
    warned: bool,
    locks_held: u32,
    health: CpuHealth,
    fail_count: u32,
    state: WatchdogState,
    snapshot: Option<CpuSnapshot>,
    last_update_ns: u64,
)
    requires
        call_ensures(PerCpuState::heartbeat, (cpu,), heartbeat),
        call_ensures(PerCpuState::soft_timestamp, (cpu,), soft_timestamp),
        call_ensures(PerCpuState::hrtimer_interrupts, (cpu,), ticks),
        call_ensures(PerCpuState::hardlockup_warned, (cpu,), warned),
        call_ensures(PerCpuState::locks_held, (cpu,), locks_held),
        call_ensures(PerCpuState::last_health, (cpu,), health),
        call_ensures(PerCpuState::fail_count, (cpu,), fail_count),
        call_ensures(PerCpuState::state, (cpu,), state),
        call_ensures(PerCpuState::snapshot, (cpu,), snapshot),
        call_ensures(PerCpuState::last_update_ns, (cpu,), last_update_ns),
    ensures
        heartbeat == cpu@.heartbeat,
        soft_timestamp == cpu@.soft_timestamp,
        ticks == cpu@.ticks,
        warned == cpu@.hardlockup_warned,
        locks_held == cpu@.locks_held,
        health == cpu@.last_health,
        fail_count == cpu@.fail_count,
        state == cpu@.state,
        snapshot == cpu@.snapshot,
        last_update_ns == cpu@.last_update_ns,
{
}

/// The CPUs of a new array, and of one that is reset, are all like a new CPU.
pub proof fn law_new_array(
    cpu: PerCpuState,
    cpus: PerCpuArray,
    by_default: PerCpuArray,
    reset: &mut PerCpuArray,
)
    requires
        call_ensures(PerCpuState::new, (), cpu),
        call_ensures(PerCpuArray::new, (), cpus),
        call_ensures(<PerCpuArray as Default>::default, (), by_default),
        call_ensures(PerCpuArray::reset_all, (reset,), ()),
    ensures
        cpus@.len() == 64,
        forall|i: int| 0 <= i < 64 ==> #[trigger] cpus@[i] == cpu@,
        by_default@ == cpus@,
        final(reset)@ == cpus@,
{
}

/// A CPU is found under its ID, if there is one of that ID; nothing changes by looking it up, and
/// what is done to it is done to no other CPU.
pub proof fn law_lookup(
    cpus: &PerCpuArray,
    cpu_id: usize,
    got: &PerCpuState,
    tried: Option<&PerCpuState>,
    changed: &mut PerCpuArray,
    entry: Option<&mut PerCpuState>,
)
    requires
        cpu_id < 64 ==> call_ensures(PerCpuArray::get, (cpus, cpu_id), got),
        call_ensures(PerCpuArray::try_get, (cpus, cpu_id), tried),
        call_ensures(PerCpuArray::try_get_mut, (changed, cpu_id), entry),
    ensures
        tried is Some <==> cpu_id < 64,
        cpu_id < 64 ==> got@ == cpus@[cpu_id as int] && tried->0@ == cpus@[cpu_id as int],
        entry is Some <==> cpu_id < 64,
        cpu_id >= 64 ==> final(changed)@ == old(changed)@,
        entry matches Some(cpu) ==> {
            &&& cpu@ == old(changed)@[cpu_id as int]
            &&& final(changed)@ == old(changed)@.update(cpu_id as int, final(cpu)@)
        },
{
}

/// All CPUs are listed, each with its ID.
pub proof fn law_listing(cpus: &PerCpuArray, listed: Vec<(usize, &PerCpuState)>)
    requires
        call_ensures(PerCpuArray::iter, (cpus,), listed),
    ensures
        listed@.len() == 64,
        forall|i: int|
            0 <= i < 64 ==> (#[trigger] listed@[i]).0 == i && listed@[i].1@ == cpus@[i],
{
}

/// What happens to a CPU of an array happens to it as to a CPU alone, and to no other; what
/// happens to a CPU that does not exist happens to none.
pub proof fn law_array_records(
    petted: &mut PerCpuArray,
    timed: &mut PerCpuArray,
    touched: &mut PerCpuArray,
    ticked: &mut PerCpuArray,
    cpu_id: usize,
    timestamp_ns: u64,
)
    requires
        call_ensures(PerCpuArray::pet, (petted, cpu_id), ()),
        call_ensures(PerCpuArray::pet_with_timestamp, (timed, cpu_id, timestamp_ns), ()),
        call_ensures(PerCpuArray::touch_softlockup, (touched, cpu_id, timestamp_ns), ()),
        call_ensures(PerCpuArray::timer_tick, (ticked, cpu_id), ()),
    ensures
        cpu_id >= 64 ==> {
            &&& final(petted)@ == old(petted)@
            &&& final(timed)@ == old(timed)@
            &&& final(touched)@ == old(touched)@
            &&& final(ticked)@ == old(ticked)@
        },
        cpu_id < 64 ==> {
            let p = old(petted)@[cpu_id as int];
            let t = old(timed)@[cpu_id as int];
            let s = old(touched)@[cpu_id as int];
            let k = old(ticked)@[cpu_id as int];
            &&& final(petted)@ == old(petted)@.update(
                cpu_id as int,
                (CpuModel { heartbeat: p.heartbeat.wrapping_add(1), ..p }),
            )
            &&& final(timed)@ == old(timed)@.update(
                cpu_id as int,
                (CpuModel {
                    heartbeat: t.heartbeat.wrapping_add(1),
                    last_update_ns: timestamp_ns,
                    ..t
                }),
            )
            &&& final(touched)@ == old(touched)@.update(
                cpu_id as int,
                (CpuModel { soft_timestamp: timestamp_ns, ..s }),
            )
            &&& final(ticked)@ == old(ticked)@.update(
                cpu_id as int,
                (CpuModel { ticks: k.ticks.wrapping_add(1), ..k }),
            )
        },
{
}

/// The functions for a CPU of an array do what the array's own operations do.
pub proof fn law_free_functions(
    petted: &mut PerCpuArray,
    timed: &mut PerCpuArray,
    touched: &mut PerCpuArray,
    ticked: &mut PerCpuArray,
    cpu_id: usize,
    timestamp_ns: u64,
)
    requires
        call_ensures(crate::percpu::pet, (petted, cpu_id), ()),
        call_ensures(crate::percpu::pet_with_timestamp, (timed, cpu_id, timestamp_ns), ()),
        call_ensures(crate::percpu::touch_softlockup, (touched, cpu_id, timestamp_ns), ()),
        call_ensures(crate::percpu::timer_tick, (ticked, cpu_id), ()),
    ensures
        cpu_id >= 64 ==> {
            &&& final(petted)@ == old(petted)@
            &&& final(timed)@ == old(timed)@
            &&& final(touched)@ == old(touched)@
            &&& final(ticked)@ == old(ticked)@
        },
        cpu_id < 64 ==> {
            let p = old(petted)@[cpu_id as int];
            let t = old(timed)@[cpu_id as int];
            let s = old(touched)@[cpu_id as int];
            let k = old(ticked)@[cpu_id as int];
            &&& final(petted)@ == old(petted)@.update(
                cpu_id as int,
                (CpuModel { heartbeat: p.heartbeat.wrapping_add(1), ..p }),
            )
            &&& final(timed)@ == old(timed)@.update(
                cpu_id as int,
                (CpuModel {
                    heartbeat: t.heartbeat.wrapping_add(1),
                    last_update_ns: timestamp_ns,
                    ..t
                }),
            )
            &&& final(touched)@ == old(touched)@.update(
                cpu_id as int,
                (CpuModel { soft_timestamp: timestamp_ns, ..s }),
            )
            &&& final(ticked)@ == old(ticked)@.update(
                cpu_id as int,
                (CpuModel { ticks: k.ticks.wrapping_add(1), ..k }),
            )
        },
{
}

/// Locks of a CPU of an array are recorded for that CPU, as for a CPU alone.
pub proof fn law_array_locks(
    acquired: &mut PerCpuArray,
    released: &mut PerCpuArray,
    cpu_id: usize,
    timestamp_ns: u64,
)
    requires
        call_ensures(crate::percpu::lock_acquired, (acquired, cpu_id, timestamp_ns), ()),
        call_ensures(crate::percpu::lock_released, (released, cpu_id), ()),
    ensures
        cpu_id >= 64 ==> {
            &&& final(acquired)@ == old(acquired)@
            &&& final(released)@ == old(released)@
        },
        cpu_id < 64 ==> {
            let a = old(acquired)@[cpu_id as int];
            let r = old(released)@[cpu_id as int];
            &&& final(acquired)@ == old(acquired)@.update(
                cpu_id as int,
                (CpuModel {
                    locks_held: a.locks_held.wrapping_add(1),
                    earliest_lock_time: if a.locks_held == 0 {
                        timestamp_ns
                    } else {
                        a.earliest_lock_time
                    },
                    ..a
                }),
            )
            &&& final(released)@ == old(released)@.update(
                cpu_id as int,
                (CpuModel {
                    locks_held: r.locks_held.wrapping_sub(1),
                    earliest_lock_time: if r.locks_held == 1 {
                        0
                    } else {
                        r.earliest_lock_time
                    },
                    ..r
                }),
            )
        },
{
}

/// A heartbeat check of a CPU of an array is one of that CPU; a CPU that does not exist passes.
pub proof fn law_array_heartbeat(
    cpus: &mut PerCpuArray,
    cpu_id: usize,
    healthy: bool,
    other: &mut PerCpuArray,
    also: bool,
)
    requires
        call_ensures(PerCpuArray::check_heartbeat, (cpus, cpu_id), healthy),
        call_ensures(crate::percpu::check_cpu, (other, cpu_id), also),
    ensures
        cpu_id >= 64 ==> {
            &&& healthy && final(cpus)@ == old(cpus)@
            &&& also && final(other)@ == old(other)@
        },
        cpu_id < 64 ==> {
            let c = old(cpus)@[cpu_id as int];
            let o = old(other)@[cpu_id as int];
            &&& healthy <==> c.heartbeat != c.last_checked_heartbeat
            &&& also <==> o.heartbeat != o.last_checked_heartbeat
            &&& final(cpus)@ == old(cpus)@.update(
                cpu_id as int,
                (CpuModel { last_checked_heartbeat: c.heartbeat, ..c }),
            )
            &&& final(other)@ == old(other)@.update(
                cpu_id as int,
                (CpuModel { last_checked_heartbeat: o.heartbeat, ..o }),
            )
        },
{
}

/// A check of the first CPUs sets the bit of each that fails a heartbeat check, and no other bit;
/// each of these CPUs is checked, and no other.
pub proof fn law_check_all(cpus: &mut PerCpuArray, num_cpus: usize, unhealthy: u64)
    requires
        call_ensures(PerCpuArray::check_all, (cpus, num_cpus), unhealthy),
    ensures
        forall|i: u64|
            i < 64 ==> (#[trigger] (unhealthy & (1u64 << i)) != 0 <==> i < num_cpus && old(
                cpus,
            )@[i as int].heartbeat == old(cpus)@[i as int].last_checked_heartbeat),
        final(cpus)@.len() == 64,
        forall|i: int|
            0 <= i < 64 ==> #[trigger] final(cpus)@[i] == (CpuModel {
                last_checked_heartbeat: if i < num_cpus {
                    old(cpus)@[i].heartbeat
                } else {
                    old(cpus)@[i].last_checked_heartbeat
                },
                ..old(cpus)@[i]
            }),
{
    assert forall|i: u64| i < 64 implies (#[trigger] (unhealthy & (1u64 << i)) != 0 <==> i
        < num_cpus && old(cpus)@[i as int].heartbeat == old(
        cpus,
    )@[i as int].last_checked_heartbeat) by {
        assert(crate::percpu::cpu_bit(unhealthy, i as int) == (unhealthy & (1u64 << i) != 0));
    }
}

/// A health check of a CPU of an array is one of that CPU, with the thresholds given or, in the
/// function for it, the default ones; a CPU that does not exist is healthy.
pub proof fn law_array_health(
    cpus: &mut PerCpuArray,
    cpu_id: usize,
    now_ns: u64,
    soft_thresh_ns: u64,
    lock_thresh_ns: u64,
    health: CpuHealth,
    other: &mut PerCpuArray,
    by_default: CpuHealth,
)
    requires
        call_ensures(
            PerCpuArray::check_cpu_health,
            (cpus, cpu_id, now_ns, soft_thresh_ns, lock_thresh_ns),
            health,
        ),
        call_ensures(crate::percpu::check_cpu_health, (other, cpu_id, now_ns), by_default),
    ensures
        cpu_id >= 64 ==> {
            &&& health == CpuHealth::Healthy && final(cpus)@ == old(cpus)@
            &&& by_default == CpuHealth::Healthy && final(other)@ == old(other)@
        },
        cpu_id < 64 ==> {
            let c = old(cpus)@[cpu_id as int];
            let hard = c.ticks > 0 && c.ticks == c.ticks_saved;
            let soft = c.soft_timestamp > 0 && now_ns > c.soft_timestamp + soft_thresh_ns;
            let dead = c.locks_held > 0 && c.earliest_lock_time > 0 && now_ns
                > c.earliest_lock_time + lock_thresh_ns;
            &&& health == CpuHealth::HardLockup <==> hard
            &&& health == CpuHealth::SoftLockup <==> soft && !hard
            &&& health == CpuHealth::PossibleDeadlock <==> dead && !soft && !hard
            &&& final(cpus)@ == old(cpus)@.update(
                cpu_id as int,
                (CpuModel { ticks_saved: c.ticks, last_health: health, ..c }),
            )
        },
        cpu_id < 64 ==> {
            let c = old(other)@[cpu_id as int];
            let hard = c.ticks > 0 && c.ticks == c.ticks_saved;
            let soft = c.soft_timestamp > 0 && now_ns > c.soft_timestamp + 20_000_000_000;
            let dead = c.locks_held > 0 && c.earliest_lock_time > 0 && now_ns
                > c.earliest_lock_time + 60_000_000_000;
            &&& by_default == CpuHealth::HardLockup <==> hard
            &&& by_default == CpuHealth::SoftLockup <==> soft && !hard
            &&& by_default == CpuHealth::PossibleDeadlock <==> dead && !soft && !hard
            &&& final(other)@ == old(other)@.update(
                cpu_id as int,
                (CpuModel { ticks_saved: c.ticks, last_health: by_default, ..c }),
            )
        },
{
}

} // verus!
