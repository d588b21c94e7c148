use axwatchdog::detection::{
    handle_hardlockup, handle_possible_deadlock, handle_softlockup, handle_task_timeout,
};
use axwatchdog::{
    notify_tasks, watchdog_nmi_check, watchdog_nmi_handler, watchdog_thread_tick,
    watchdog_timer_handler, Alert, CpuHealth, HeartbeatTask, NmiContext, NmiError, NmiReport,
    PerCpuArray, RegistryError, TaskRegistry, Watchdog, WatchdogConfig, WatchdogError,
    WatchdogState, WatchdogTask,
};

struct Scripted {
    healthy: bool,
    timeouts: u32,
}

impl WatchdogTask for Scripted {
    fn name(&self) -> &'static str {
        "scripted"
    }

    fn health_check(&mut self) -> bool {
        self.healthy
    }

    fn on_timeout(&mut self, _cpu_id: usize) {
        self.timeouts += 1;
    }
}

fn running(config: WatchdogConfig) -> (Watchdog, PerCpuArray) {
    let mut watchdog = Watchdog::new();
    let mut cpus = PerCpuArray::new();
    watchdog.init(config).unwrap();
    watchdog.start(&mut cpus).unwrap();
    (watchdog, cpus)
}

fn at(timestamp_ns: u64) -> NmiContext {
    let mut ctx = NmiContext::new(0, 0x1000, 0x2000, 0x3000, 0x4000);
    ctx.timestamp_ns = timestamp_ns;
    ctx
}

const QUIET: NmiReport = NmiReport {
    cpu: None,
    tasks: None,
};

#[test]
fn config_defaults_and_builders() {
    let c = WatchdogConfig::default();
    assert_eq!(c.hardlockup_thresh_ns, 10_000_000_000);
    assert_eq!(c.softlockup_thresh_ns, 20_000_000_000);
    assert_eq!(c.lock_timeout_ns, 60_000_000_000);
    assert_eq!((c.fail_threshold, c.num_cpus), (3, 1));
    assert!(c.auto_restart && c.panic_on_hardlockup && !c.panic_on_softlockup);
    let c = WatchdogConfig::new()
        .with_hardlockup_thresh_secs(3)
        .with_softlockup_thresh_secs(4)
        .with_lock_timeout_ns(5)
        .with_fail_threshold(6)
        .with_num_cpus(7)
        .with_auto_restart(false)
        .with_panic_on_hardlockup(false)
        .with_panic_on_softlockup(true);
    assert_eq!(c.hardlockup_thresh_ns, 3_000_000_000);
    assert_eq!(c.softlockup_thresh_ns, 4_000_000_000);
    assert_eq!((c.lock_timeout_ns, c.fail_threshold, c.num_cpus), (5, 6, 7));
    assert!(!c.auto_restart && !c.panic_on_hardlockup && c.panic_on_softlockup);
    let c = c.with_hardlockup_thresh_ns(1).with_softlockup_thresh_ns(2);
    assert_eq!((c.hardlockup_thresh_ns, c.softlockup_thresh_ns), (1, 2));
    assert_eq!(
        WatchdogConfig::new().with_hardlockup_thresh_secs(18_446_744_073).hardlockup_thresh_ns,
        18_446_744_073_000_000_000
    );
}

#[test]
fn errors_in_words() {
    assert_eq!(WatchdogError::NotInitialized.message(), "Watchdog not initialized");
    assert_eq!(WatchdogError::AlreadyInitialized.message(), "Watchdog already initialized");
    assert_eq!(WatchdogError::AlreadyRunning.message(), "Watchdog already running");
    assert_eq!(WatchdogError::NotRunning.message(), "Watchdog not running");
    assert_eq!(WatchdogError::InvalidConfig.message(), "Invalid configuration");
    let nmi: WatchdogError = NmiError::NoHandler.into();
    assert_eq!(nmi, WatchdogError::NmiError(NmiError::NoHandler));
    assert_eq!(nmi.message(), "NMI error: No handler registered");
    let task: WatchdogError = RegistryError::Full.into();
    assert_eq!(task, WatchdogError::TaskError(RegistryError::Full));
    assert_eq!(task.message(), "Task error: Task registry is full");
}

#[test]
fn life_cycle() {
    let mut w = Watchdog::default();
    let mut cpus = PerCpuArray::new();
    assert!(!w.is_initialized());
    assert_eq!(w.start(&mut cpus), Err(WatchdogError::NotInitialized));
    assert_eq!(w.stop(&mut cpus), Err(WatchdogError::NotRunning));
    assert_eq!(w.hardlockup_thresh_ns(), 10_000_000_000);
    assert_eq!(w.softlockup_thresh_ns(), 20_000_000_000);
    assert_eq!(w.lock_timeout_ns(), 60_000_000_000);
    let config = WatchdogConfig::new()
        .with_num_cpus(2)
        .with_hardlockup_thresh_ns(1)
        .with_softlockup_thresh_ns(2)
        .with_lock_timeout_ns(3);
    assert_eq!(w.init(config), Ok(()));
    assert_eq!(
        w.init(WatchdogConfig::new()),
        Err(WatchdogError::AlreadyInitialized)
    );
    assert!(w.is_initialized() && !w.is_running());
    assert_eq!(w.hardlockup_thresh_ns(), 1);
    assert_eq!(w.softlockup_thresh_ns(), 2);
    assert_eq!(w.lock_timeout_ns(), 3);
    assert_eq!(w.start(&mut cpus), Ok(()));
    assert_eq!(w.start(&mut cpus), Err(WatchdogError::AlreadyRunning));
    assert!(w.is_running());
    assert_eq!(cpus.get(0).state(), WatchdogState::Active);
    assert_eq!(cpus.get(1).state(), WatchdogState::Active);
    assert_eq!(cpus.get(2).state(), WatchdogState::Idle);
    assert_eq!(w.stop(&mut cpus), Ok(()));
    assert!(!w.is_running());
    assert_eq!(cpus.get(0).state(), WatchdogState::Idle);
    assert_eq!(w.stop(&mut cpus), Err(WatchdogError::NotRunning));
}

#[test]
fn more_cpus_than_supported_are_all_started() {
    let (_, cpus) = running(WatchdogConfig::new().with_num_cpus(1_000));
    for (_, cpu) in cpus.iter() {
        assert_eq!(cpu.state(), WatchdogState::Active);
    }
}

#[test]
fn number_of_cpus_is_kept_modulo_two_to_the_32() {
    let (_, cpus) = running(WatchdogConfig::new().with_num_cpus(0x1_0000_0002));
    let active = cpus.iter().iter().filter(|(_, c)| c.state() == WatchdogState::Active).count();
    assert_eq!(active, 2);
}

#[test]
fn stopped_watchdog_does_nothing() {
    let mut w = Watchdog::new();
    let mut cpus = PerCpuArray::new();
    let mut registry = TaskRegistry::new();
    registry.register(HeartbeatTask::new("t")).unwrap();
    cpus.touch_softlockup(0, 1);
    assert_eq!(watchdog_timer_handler(&mut w, &mut cpus, 0, u64::MAX), None);
    assert_eq!(cpus.get(0).hrtimer_interrupts(), 0);
    let report = watchdog_nmi_handler(&mut w, &mut cpus, &mut registry, 0, &at(u64::MAX));
    assert_eq!(report, QUIET);
    assert_eq!(watchdog_nmi_check(&mut w, &mut cpus, 0, &at(1), false), QUIET);
    assert_eq!((w.total_checks(), w.total_failures()), (0, 0));
}

#[test]
fn softlockup_alert_after_the_threshold() {
    let config = WatchdogConfig::new()
        .with_softlockup_thresh_ns(1_000)
        .with_panic_on_softlockup(true);
    let (mut w, mut cpus) = running(config);
    assert_eq!(watchdog_timer_handler(&mut w, &mut cpus, 0, 5_000), None);
    watchdog_thread_tick(&mut cpus, 0, 5_000);
    assert_eq!(watchdog_timer_handler(&mut w, &mut cpus, 0, 6_000), None);
    assert_eq!(w.softlockup_count(), 0);
    assert_eq!(watchdog_timer_handler(&mut w, &mut cpus, 0, 6_001), None);
    assert_eq!(watchdog_timer_handler(&mut w, &mut cpus, 0, 6_002), None);
    assert_eq!(cpus.get(0).state(), WatchdogState::Active);
    assert_eq!(
        watchdog_timer_handler(&mut w, &mut cpus, 0, 9_005_000),
        Some(Alert::SoftLockup {
            cpu_id: 0,
            elapsed_ms: 9,
            panic: true
        })
    );
    assert_eq!(cpus.get(0).state(), WatchdogState::Triggered);
    assert_eq!(cpus.get(0).fail_count(), 3);
    assert_eq!((w.softlockup_count(), w.total_failures()), (3, 3));
    assert_eq!(cpus.get(0).hrtimer_interrupts(), 5);
    assert_eq!(w.total_checks(), 0);
}

#[test]
fn hardlockup_alert_once() {
    let (mut w, mut cpus) = running(WatchdogConfig::new());
    watchdog_timer_handler(&mut w, &mut cpus, 0, 1);
    assert_eq!(watchdog_nmi_check(&mut w, &mut cpus, 0, &at(1), true), QUIET);
    let report = watchdog_nmi_check(&mut w, &mut cpus, 0, &at(2), true);
    assert_eq!(
        report.cpu,
        Some(Alert::HardLockup {
            cpu_id: 0,
            pc: 0x1000,
            sp: 0x2000,
            lr: 0x3000,
            panic: true
        })
    );
    assert_eq!(report.tasks, None);
    assert_eq!(cpus.get(0).state(), WatchdogState::Triggered);
    assert!(cpus.get(0).hardlockup_warned());
    assert_eq!(watchdog_nmi_check(&mut w, &mut cpus, 0, &at(3), true), QUIET);
    assert_eq!((w.hardlockup_count(), w.total_failures(), w.total_checks()), (2, 2, 3));
    // The timer comes back, and the next lockup is warned about again.
    watchdog_timer_handler(&mut w, &mut cpus, 0, 4);
    assert_eq!(watchdog_nmi_check(&mut w, &mut cpus, 0, &at(4), true), QUIET);
    assert!(!cpus.get(0).hardlockup_warned());
    let report = watchdog_nmi_check(&mut w, &mut cpus, 0, &at(5), true);
    assert!(report.cpu.is_some());
}

#[test]
fn nmi_reports_a_possible_deadlock() {
    let config = WatchdogConfig::new().with_lock_timeout_ns(1_000);
    let (mut w, mut cpus) = running(config);
    cpus.touch_softlockup(0, 1_000_000);
    let cpu = cpus.try_get_mut(0).unwrap();
    cpu.lock_acquired(2_000_000);
    cpu.lock_acquired(2_000_001);
    cpu.increment_fail_count();
    let report = watchdog_nmi_check(&mut w, &mut cpus, 0, &at(8_500_000), true);
    assert_eq!(
        report.cpu,
        Some(Alert::PossibleDeadlock {
            cpu_id: 0,
            locks_held: 2,
            elapsed_ms: 7
        })
    );
    assert_eq!(cpus.get(0).last_health(), CpuHealth::PossibleDeadlock);
    assert_eq!(cpus.get(0).fail_count(), 1);
    assert_eq!((w.total_failures(), w.softlockup_count(), w.hardlockup_count()), (1, 0, 0));
}

#[test]
fn nmi_reports_a_softlockup_too() {
    let config = WatchdogConfig::new()
        .with_softlockup_thresh_ns(10)
        .with_fail_threshold(1);
    let (mut w, mut cpus) = running(config);
    cpus.touch_softlockup(0, 5);
    let report = watchdog_nmi_check(&mut w, &mut cpus, 0, &at(16), true);
    assert_eq!(
        report.cpu,
        Some(Alert::SoftLockup {
            cpu_id: 0,
            elapsed_ms: 0,
            panic: false
        })
    );
    assert_eq!((w.softlockup_count(), w.total_checks()), (1, 1));
}

#[test]
fn task_timeout_restarts_the_cpu() {
    let (mut w, mut cpus) = running(WatchdogConfig::new().with_fail_threshold(1));
    let mut registry = TaskRegistry::new();
    registry
        .register(Scripted {
            healthy: false,
            timeouts: 0,
        })
        .unwrap();
    cpus.touch_softlockup(0, 1);
    let report = watchdog_nmi_handler(&mut w, &mut cpus, &mut registry, 0, &at(2));
    assert_eq!(report.cpu, None);
    assert_eq!(
        report.tasks,
        Some(Alert::TaskTimeout {
            cpu_id: 0,
            pc: 0x1000,
            sp: 0x2000
        })
    );
    assert_eq!(w.total_failures(), 1);
    assert_eq!(cpus.get(0).state(), WatchdogState::Active);
    assert_eq!(cpus.get(0).fail_count(), 0);
    assert_eq!(cpus.get(0).soft_timestamp(), 0);
    assert_eq!(registry.get(0).unwrap().timeouts, 0);
    notify_tasks(&report, &mut registry);
    assert_eq!(registry.get(0).unwrap().timeouts, 1);
    notify_tasks(&QUIET, &mut registry);
    assert_eq!(registry.get(0).unwrap().timeouts, 1);
}

#[test]
fn task_timeout_without_restart_stays_triggered() {
    let config = WatchdogConfig::new().with_fail_threshold(1).with_auto_restart(false);
    let (mut w, mut cpus) = running(config);
    let report = watchdog_nmi_check(&mut w, &mut cpus, 0, &at(2), false);
    assert!(report.tasks.is_some());
    assert_eq!(cpus.get(0).state(), WatchdogState::Triggered);
    assert_eq!(cpus.get(0).fail_count(), 1);
    // Not active any more, so there is no second alert.
    assert_eq!(watchdog_nmi_check(&mut w, &mut cpus, 0, &at(3), false), QUIET);
    assert_eq!(w.total_failures(), 2);
}

#[test]
fn task_timeout_at_the_threshold_on_a_healthy_cpu() {
    let (mut w, mut cpus) = running(WatchdogConfig::new());
    let mut registry = TaskRegistry::new();
    registry
        .register(Scripted {
            healthy: false,
            timeouts: 0,
        })
        .unwrap();
    for n in 1..10 {
        assert_eq!(watchdog_timer_handler(&mut w, &mut cpus, 0, n), None);
        let report = watchdog_nmi_handler(&mut w, &mut cpus, &mut registry, 0, &at(n));
        notify_tasks(&report, &mut registry);
        assert_eq!(report.cpu, None);
        assert_eq!(report.tasks.is_some(), n % 3 == 0);
        // It starts over after each timeout.
        assert_eq!(cpus.get(0).fail_count() as u64, n % 3);
        assert_eq!(cpus.get(0).state(), WatchdogState::Active);
        assert_eq!(registry.get(0).unwrap().timeouts as u64, n / 3);
    }
    assert_eq!((w.total_checks(), w.total_failures()), (9, 9));
}

#[test]
fn heartbeat_task_that_is_never_petted_times_out_once_without_restart() {
    let (mut w, mut cpus) = running(WatchdogConfig::new().with_auto_restart(false));
    let mut registry = TaskRegistry::new();
    registry.register(HeartbeatTask::new("stuck")).unwrap();
    for n in 1..7 {
        let report = watchdog_nmi_handler(&mut w, &mut cpus, &mut registry, 0, &at(n));
        assert_eq!(report.tasks.is_some(), n == 3);
        assert_eq!(cpus.get(0).fail_count() as u64, n);
    }
    assert_eq!(cpus.get(0).state(), WatchdogState::Triggered);
}

#[test]
fn passed_check_breaks_the_run_of_task_failures() {
    let (mut w, mut cpus) = running(WatchdogConfig::new());
    for n in 0..12 {
        // Every third check is passed, so there are never three failures in a row.
        let report = watchdog_nmi_check(&mut w, &mut cpus, 0, &at(n), n % 3 == 2);
        assert_eq!(report, QUIET);
    }
    assert_eq!(cpus.get(0).fail_count(), 0);
    assert_eq!(w.total_failures(), 8);
}

#[test]
fn nmi_on_an_unknown_cpu_only_counts() {
    let (mut w, mut cpus) = running(WatchdogConfig::new().with_fail_threshold(0));
    assert_eq!(watchdog_nmi_check(&mut w, &mut cpus, 64, &at(1), false), QUIET);
    assert_eq!(watchdog_timer_handler(&mut w, &mut cpus, 64, 1), None);
    watchdog_thread_tick(&mut cpus, 64, 1);
    assert_eq!((w.total_checks(), w.total_failures()), (1, 1));
}

#[test]
fn healthy_nmi_is_quiet() {
    let (mut w, mut cpus) = running(WatchdogConfig::new());
    let mut registry = TaskRegistry::new();
    let handle = registry.register(HeartbeatTask::new("beat")).unwrap();
    for n in 1..5 {
        registry.get_mut(handle.index()).unwrap().pet();
        watchdog_timer_handler(&mut w, &mut cpus, 0, n);
        assert_eq!(
            watchdog_nmi_handler(&mut w, &mut cpus, &mut registry, 0, &at(n)),
            QUIET
        );
        assert_eq!(w.total_checks(), n);
    }
    assert_eq!(w.total_failures(), 0);
    let report = watchdog_nmi_handler(&mut w, &mut cpus, &mut registry, 0, &at(9));
    assert!(matches!(report.cpu, Some(Alert::HardLockup { .. })));
    assert_eq!(w.total_failures(), 2);
}

#[test]
fn stopped_watchdog_starts_again() {
    let (mut w, mut cpus) = running(WatchdogConfig::new());
    for _ in 0..3 {
        assert_eq!(w.stop(&mut cpus), Ok(()));
        assert!(w.is_initialized());
        assert_eq!(w.start(&mut cpus), Ok(()));
        assert_eq!(cpus.get(0).state(), WatchdogState::Active);
    }
}

#[test]
fn third_softlockup_triggers() {
    let (mut w, mut cpus) = running(WatchdogConfig::new());
    cpus.touch_softlockup(0, 7);
    for n in 1..=3 {
        let alert = handle_softlockup(&mut w, &mut cpus, 0, 2_000_007);
        assert_eq!(alert.is_some(), n == 3);
        assert_eq!(cpus.get(0).state() == WatchdogState::Triggered, n == 3);
        assert_eq!(cpus.get(0).fail_count() as u64, n);
        assert_eq!((w.softlockup_count(), w.total_failures()), (n, n));
    }
    assert_eq!(cpus.get(0).soft_timestamp(), 7);
    assert_eq!(cpus.get(1).fail_count(), 0);
}

#[test]
fn handlers_count_for_unknown_cpus() {
    let (mut w, mut cpus) = running(WatchdogConfig::new().with_fail_threshold(0));
    assert_eq!(handle_softlockup(&mut w, &mut cpus, 64, 1), None);
    assert_eq!(handle_possible_deadlock(&mut w, &cpus, 64, 1), None);
    assert_eq!(handle_task_timeout(&w, &mut cpus, 64, &at(1)), None);
    assert_eq!(
        handle_hardlockup(&mut w, &mut cpus, 64, &at(1)),
        Some(Alert::HardLockup {
            cpu_id: 64,
            pc: 0x1000,
            sp: 0x2000,
            lr: 0x3000,
            panic: true
        })
    );
    assert_eq!(
        (w.softlockup_count(), w.hardlockup_count(), w.total_failures()),
        (1, 1, 3)
    );
    for (_, cpu) in cpus.iter() {
        assert_eq!(cpu.fail_count(), 0);
        assert!(!cpu.hardlockup_warned());
    }
}
