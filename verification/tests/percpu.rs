use axwatchdog::percpu::MAX_CPUS;
use axwatchdog::{
    check_cpu, check_cpu_health, lock_acquired, lock_released, pet, pet_with_timestamp,
    timer_tick, touch_softlockup, CpuHealth, CpuSnapshot, PerCpuArray, PerCpuState, WatchdogState,
    DEFAULT_HARDLOCKUP_THRESH_NS, DEFAULT_LOCK_TIMEOUT_NS, DEFAULT_SOFTLOCKUP_THRESH_NS,
};

#[test]
fn default_thresholds() {
    assert_eq!(DEFAULT_HARDLOCKUP_THRESH_NS, 10_000_000_000);
    assert_eq!(DEFAULT_SOFTLOCKUP_THRESH_NS, 20_000_000_000);
    assert_eq!(DEFAULT_LOCK_TIMEOUT_NS, 60_000_000_000);
    assert_eq!(MAX_CPUS, 64);
}

#[test]
fn health_codes() {
    assert_eq!(CpuHealth::from_u32(0), CpuHealth::Healthy);
    assert_eq!(CpuHealth::from_u32(1), CpuHealth::SoftLockup);
    assert_eq!(CpuHealth::from_u32(2), CpuHealth::HardLockup);
    assert_eq!(CpuHealth::from_u32(3), CpuHealth::PossibleDeadlock);
    assert_eq!(CpuHealth::from_u32(4), CpuHealth::Healthy);
    assert_eq!(CpuHealth::from_u32(u32::MAX), CpuHealth::Healthy);
    for health in [
        CpuHealth::Healthy,
        CpuHealth::SoftLockup,
        CpuHealth::HardLockup,
        CpuHealth::PossibleDeadlock,
    ] {
        assert_eq!(CpuHealth::from_u32(health.as_u32()), health);
        assert_eq!(health.as_u32(), health as u32);
    }
    assert!(!CpuHealth::Healthy.is_lockup());
    assert!(CpuHealth::SoftLockup.is_lockup());
    assert!(CpuHealth::HardLockup.is_lockup());
    assert!(!CpuHealth::PossibleDeadlock.is_lockup());
}

#[test]
fn state_codes() {
    for state in [
        WatchdogState::Idle,
        WatchdogState::Active,
        WatchdogState::Triggered,
        WatchdogState::Dumping,
        WatchdogState::Completed,
    ] {
        assert_eq!(WatchdogState::from_u32(state.as_u32()), state);
        assert_eq!(state.as_u32(), state as u32);
    }
    assert_eq!(WatchdogState::from_u32(3), WatchdogState::Dumping);
    assert_eq!(WatchdogState::from_u32(5), WatchdogState::Idle);
}

#[test]
fn heartbeat_check_needs_a_pet_in_between() {
    let mut cpu = PerCpuState::new();
    assert!(!cpu.check_heartbeat());
    cpu.pet();
    cpu.pet_with_timestamp(77);
    assert_eq!(cpu.heartbeat(), 2);
    assert_eq!(cpu.last_update_ns(), 77);
    assert!(cpu.check_heartbeat());
    assert!(!cpu.check_heartbeat());
}

#[test]
fn softlockup_at_and_beyond_the_threshold() {
    let mut cpu = PerCpuState::default();
    assert!(!cpu.check_softlockup(u64::MAX, 0));
    cpu.touch_softlockup(100);
    assert_eq!(cpu.soft_timestamp(), 100);
    assert!(!cpu.check_softlockup(150, 50));
    assert!(cpu.check_softlockup(151, 50));
    assert!(!cpu.check_softlockup(99, 0));
    cpu.touch_softlockup(151);
    assert!(!cpu.check_softlockup(151, 50));
}

#[test]
fn hardlockup_when_the_timer_stops() {
    let mut cpu = PerCpuState::new();
    assert!(!cpu.check_hardlockup());
    assert!(!cpu.check_hardlockup());
    cpu.timer_tick();
    assert_eq!(cpu.hrtimer_interrupts(), 1);
    assert!(!cpu.check_hardlockup());
    assert!(cpu.check_hardlockup());
    cpu.timer_tick();
    assert!(!cpu.check_hardlockup());
    assert!(!cpu.hardlockup_warned());
    cpu.set_hardlockup_warned(true);
    assert!(cpu.hardlockup_warned());
}

#[test]
fn deadlock_is_timed_from_the_first_lock() {
    let mut cpu = PerCpuState::new();
    assert!(!cpu.check_deadlock(1_000, 0));
    cpu.lock_acquired(100);
    cpu.lock_acquired(190);
    assert_eq!(cpu.locks_held(), 2);
    assert!(!cpu.check_deadlock(200, 100));
    assert!(cpu.check_deadlock(201, 100));
    cpu.lock_released();
    assert!(cpu.check_deadlock(201, 100));
    cpu.lock_released();
    assert_eq!(cpu.locks_held(), 0);
    assert!(!cpu.check_deadlock(201, 100));
    cpu.lock_acquired(200);
    assert!(!cpu.check_deadlock(201, 100));
}

#[test]
fn lock_count_wraps_below_zero() {
    let mut cpu = PerCpuState::new();
    cpu.lock_released();
    assert_eq!(cpu.locks_held(), u32::MAX);
    cpu.lock_acquired(5);
    assert_eq!(cpu.locks_held(), 0);
}

#[test]
fn health_names_the_gravest_condition() {
    let mut cpu = PerCpuState::new();
    assert_eq!(cpu.check_health(1_000, 10, 10), CpuHealth::Healthy);
    cpu.lock_acquired(1);
    assert_eq!(cpu.check_health(1_000, 10, 10), CpuHealth::PossibleDeadlock);
    cpu.touch_softlockup(1);
    assert_eq!(cpu.check_health(1_000, 10, 10), CpuHealth::SoftLockup);
    cpu.timer_tick();
    assert_eq!(cpu.check_health(1_000, 10, 10), CpuHealth::SoftLockup);
    assert_eq!(cpu.check_health(1_000, 10, 10), CpuHealth::HardLockup);
    assert_eq!(cpu.last_health(), CpuHealth::HardLockup);
}

#[test]
fn fail_count_and_transitions() {
    let mut cpu = PerCpuState::new();
    assert_eq!(cpu.increment_fail_count(), 1);
    assert_eq!(cpu.increment_fail_count(), 2);
    assert_eq!(cpu.fail_count(), 2);
    cpu.reset_fail_count();
    assert_eq!(cpu.fail_count(), 0);
    assert_eq!(cpu.state(), WatchdogState::Idle);
    assert!(!cpu.try_transition(WatchdogState::Active, WatchdogState::Triggered));
    assert_eq!(cpu.state(), WatchdogState::Idle);
    cpu.set_state(WatchdogState::Active);
    assert!(cpu.try_transition(WatchdogState::Active, WatchdogState::Triggered));
    assert_eq!(cpu.state(), WatchdogState::Triggered);
}

#[test]
fn snapshot_of_a_cpu() {
    let mut cpu = PerCpuState::new();
    assert!(cpu.snapshot().is_none());
    cpu.set_snapshot(Some(CpuSnapshot::new(3, 0x10, 0x20, 0x30, 0x40)));
    assert_eq!(cpu.snapshot().unwrap().sp, 0x20);
    cpu.clear_snapshot();
    assert!(cpu.snapshot().is_none());
}

#[test]
fn reset_gives_a_new_state() {
    let mut cpu = PerCpuState::new();
    cpu.pet_with_timestamp(9);
    cpu.timer_tick();
    cpu.touch_softlockup(8);
    cpu.lock_acquired(7);
    cpu.set_state(WatchdogState::Completed);
    cpu.set_hardlockup_warned(true);
    cpu.increment_fail_count();
    cpu.check_health(1_000, 1, 1);
    cpu.reset();
    assert_eq!(cpu.heartbeat(), 0);
    assert_eq!(cpu.last_update_ns(), 0);
    assert_eq!(cpu.hrtimer_interrupts(), 0);
    assert_eq!(cpu.soft_timestamp(), 0);
    assert_eq!(cpu.locks_held(), 0);
    assert_eq!(cpu.state(), WatchdogState::Idle);
    assert_eq!(cpu.last_health(), CpuHealth::Healthy);
    assert_eq!(cpu.fail_count(), 0);
    assert!(!cpu.hardlockup_warned());
}

#[test]
fn array_operations_stay_on_their_cpu() {
    let mut cpus = PerCpuArray::new();
    cpus.pet(2);
    cpus.pet_with_timestamp(2, 11);
    cpus.touch_softlockup(3, 12);
    cpus.timer_tick(4);
    assert_eq!(cpus.get(2).heartbeat(), 2);
    assert_eq!(cpus.get(2).last_update_ns(), 11);
    assert_eq!(cpus.get(3).soft_timestamp(), 12);
    assert_eq!(cpus.get(4).hrtimer_interrupts(), 1);
    for (id, cpu) in cpus.iter() {
        if id != 2 {
            assert_eq!(cpu.heartbeat(), 0);
        }
        if id != 3 {
            assert_eq!(cpu.soft_timestamp(), 0);
        }
        if id != 4 {
            assert_eq!(cpu.hrtimer_interrupts(), 0);
        }
    }
    assert_eq!(cpus.iter().len(), 64);
    cpus.reset_all();
    assert_eq!(cpus.get(2).heartbeat(), 0);
}

#[test]
fn array_takes_unknown_cpus_as_healthy() {
    let mut cpus = PerCpuArray::default();
    assert!(cpus.try_get(63).is_some());
    assert!(cpus.try_get(64).is_none());
    assert!(cpus.try_get_mut(64).is_none());
    cpus.pet(64);
    cpus.pet_with_timestamp(64, 1);
    cpus.touch_softlockup(64, 1);
    cpus.timer_tick(64);
    assert!(cpus.check_heartbeat(64));
    assert_eq!(cpus.check_cpu_health(64, u64::MAX, 0, 0), CpuHealth::Healthy);
    assert!(!cpus.check_heartbeat(0));
}

#[test]
fn array_check_all_gives_a_bitmap() {
    let mut cpus = PerCpuArray::new();
    cpus.pet(0);
    cpus.pet(3);
    cpus.pet(5);
    assert_eq!(cpus.check_all(5), 0b10110);
    assert_eq!(cpus.check_all(5), 0b11111);
    // CPU 5 was not among those checked.
    assert!(cpus.check_heartbeat(5));
    assert_eq!(cpus.check_all(1_000), u64::MAX);
    cpus.pet(63);
    assert_eq!(cpus.check_all(64), u64::MAX >> 1);
}

#[test]
fn convenience_functions() {
    let mut cpus = PerCpuArray::new();
    pet(&mut cpus, 1);
    pet_with_timestamp(&mut cpus, 1, 5);
    assert_eq!(cpus.get(1).heartbeat(), 2);
    assert!(check_cpu(&mut cpus, 1));
    assert!(!check_cpu(&mut cpus, 1));
    touch_softlockup(&mut cpus, 1, 1);
    assert_eq!(
        check_cpu_health(&mut cpus, 1, 20_000_000_001),
        CpuHealth::Healthy
    );
    assert_eq!(
        check_cpu_health(&mut cpus, 1, 20_000_000_002),
        CpuHealth::SoftLockup
    );
    touch_softlockup(&mut cpus, 1, 70_000_000_000);
    lock_acquired(&mut cpus, 1, 1);
    lock_acquired(&mut cpus, 99, 1);
    assert_eq!(
        check_cpu_health(&mut cpus, 1, 60_000_000_002),
        CpuHealth::PossibleDeadlock
    );
    lock_released(&mut cpus, 1);
    lock_released(&mut cpus, 99);
    assert_eq!(
        check_cpu_health(&mut cpus, 1, 60_000_000_002),
        CpuHealth::Healthy
    );
    timer_tick(&mut cpus, 1);
    check_cpu_health(&mut cpus, 1, 60_000_000_002);
    assert_eq!(
        check_cpu_health(&mut cpus, 1, 60_000_000_002),
        CpuHealth::HardLockup
    );
}

#[test]
fn lock_time_is_that_of_the_first_lock_still_held() {
    let mut cpu = PerCpuState::new();
    cpu.lock_acquired(10);
    cpu.lock_released();
    cpu.lock_acquired(100);
    cpu.lock_acquired(200);
    cpu.lock_released();
    cpu.lock_acquired(300);
    cpu.lock_released();
    // The count last rose from zero at 100.
    assert_eq!(cpu.locks_held(), 1);
    assert!(!cpu.check_deadlock(150, 50));
    assert!(cpu.check_deadlock(151, 50));
}
