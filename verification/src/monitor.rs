//! The watchdog itself: its configuration, whether it runs, and its statistics.

use vstd::prelude::*;

use crate::config::WatchdogConfig;
use crate::error::{WatchdogError, WatchdogResult};
use crate::percpu::{
    CpuModel, PerCpuArray, WatchdogState, DEFAULT_HARDLOCKUP_THRESH_NS, DEFAULT_LOCK_TIMEOUT_NS,
    DEFAULT_SOFTLOCKUP_THRESH_NS, MAX_CPUS,
};

verus! {

/// What a watchdog records.
pub struct WatchdogModel {
    /// Whether initialized.
    pub initialized: bool,
    /// Whether running.
    pub running: bool,
    /// Configuration - hardlockup threshold.
    pub hardlockup_thresh_ns: u64,
    /// Configuration - softlockup threshold.
    pub softlockup_thresh_ns: u64,
    /// Configuration - lock timeout.
    pub lock_timeout_ns: u64,
    /// Configuration - fail threshold.
    pub fail_threshold: u32,
    /// Configuration - number of CPUs.
    pub num_cpus: u32,
    /// Configuration - auto restart.
    pub auto_restart: bool,
    /// Configuration - panic on hardlockup.
    pub panic_on_hardlockup: bool,
    /// Configuration - panic on softlockup.
    pub panic_on_softlockup: bool,
    /// Statistics - total checks.
    pub total_checks: u64,
    /// Statistics - total failures.
    pub total_failures: u64,
    /// Statistics - hardlockup count.
    pub hardlockup_count: u64,
    /// Statistics - softlockup count.
    pub softlockup_count: u64,
}

impl WatchdogModel {
    /// A watchdog that has not been initialized.
    pub open spec fn fresh() -> Self {
        WatchdogModel {
            initialized: false,
            running: false,
            hardlockup_thresh_ns: 10_000_000_000,
            softlockup_thresh_ns: 20_000_000_000,
            lock_timeout_ns: 60_000_000_000,
            fail_threshold: 3,
            num_cpus: 4,
            auto_restart: true,
            panic_on_hardlockup: true,
            panic_on_softlockup: false,
            total_checks: 0,
            total_failures: 0,
            hardlockup_count: 0,
            softlockup_count: 0,
        }
    }

    /// Only a watchdog that has been initialized runs.
    pub open spec fn sound(self) -> bool {
        self.running ==> self.initialized
    }

    /// The watchdog, initialized with `config`. The number of CPUs is kept modulo 2^32.
    pub open spec fn configured(self, config: WatchdogConfig) -> Self {
        WatchdogModel {
            initialized: true,
            hardlockup_thresh_ns: config.hardlockup_thresh_ns,
            softlockup_thresh_ns: config.softlockup_thresh_ns,
            lock_timeout_ns: config.lock_timeout_ns,
            fail_threshold: config.fail_threshold,
            num_cpus: (config.num_cpus as int % 0x1_0000_0000) as u32,
            auto_restart: config.auto_restart,
            panic_on_hardlockup: config.panic_on_hardlockup,
            panic_on_softlockup: config.panic_on_softlockup,
            ..self
        }
    }

    /// The watchdog after one more health check.
    pub open spec fn check_counted(self) -> Self {
        WatchdogModel { total_checks: self.total_checks.wrapping_add(1), ..self }
    }

    /// The watchdog after one more failure.
    pub open spec fn failure_counted(self) -> Self {
        WatchdogModel { total_failures: self.total_failures.wrapping_add(1), ..self }
    }

    /// The watchdog after one more hardlockup, which is a failure too.
    pub open spec fn hardlockup_counted(self) -> Self {
        WatchdogModel {
            hardlockup_count: self.hardlockup_count.wrapping_add(1),
            ..self.failure_counted()
        }
    }

    /// The watchdog after one more softlockup, which is a failure too.
    pub open spec fn softlockup_counted(self) -> Self {
        WatchdogModel {
            softlockup_count: self.softlockup_count.wrapping_add(1),
            ..self.failure_counted()
        }
    }
}

/// The CPUs with the first `count` of them in watchdog state `state`.
pub open spec fn all_in_state(cpus: Seq<CpuModel>, count: int, state: WatchdogState) -> Seq<
    CpuModel,
> {
    Seq::new(
        cpus.len(),
        |i: int|
            if i < count {
                (CpuModel { state, ..cpus[i] })
            } else {
                cpus[i]
            },
    )
}

/// Watchdog state.
pub struct Watchdog {
    initialized: bool,
    running: bool,
    hardlockup_thresh_ns: u64,
    softlockup_thresh_ns: u64,
    lock_timeout_ns: u64,
    fail_threshold: u32,
    num_cpus: u32,
    auto_restart: bool,
    panic_on_hardlockup: bool,
    panic_on_softlockup: bool,
    total_checks: u64,
    total_failures: u64,
    hardlockup_count: u64,
    softlockup_count: u64,
}

impl View for Watchdog {
    type V = WatchdogModel;

    closed spec fn view(&self) -> WatchdogModel {
        WatchdogModel {
            initialized: self.initialized,
            running: self.running,
            hardlockup_thresh_ns: self.hardlockup_thresh_ns,
            softlockup_thresh_ns: self.softlockup_thresh_ns,
            lock_timeout_ns: self.lock_timeout_ns,
            fail_threshold: self.fail_threshold,
            num_cpus: self.num_cpus,
            auto_restart: self.auto_restart,
            panic_on_hardlockup: self.panic_on_hardlockup,
            panic_on_softlockup: self.panic_on_softlockup,
            total_checks: self.total_checks,
            total_failures: self.total_failures,
            hardlockup_count: self.hardlockup_count,
            softlockup_count: self.softlockup_count,
        }
    }
}

impl Watchdog {
    #[verifier::type_invariant]
    spec fn inv(&self) -> bool {
        self@.sound()
    }

    /// Create a new watchdog instance.
    pub fn new() -> (watchdog: Self)
        ensures
            watchdog@ == WatchdogModel::fresh(),
    {
        Watchdog {
            initialized: false,
            running: false,
            hardlockup_thresh_ns: DEFAULT_HARDLOCKUP_THRESH_NS,
            softlockup_thresh_ns: DEFAULT_SOFTLOCKUP_THRESH_NS,
            lock_timeout_ns: DEFAULT_LOCK_TIMEOUT_NS,
            fail_threshold: 3,
            num_cpus: 4,
            auto_restart: true,
            panic_on_hardlockup: true,
            panic_on_softlockup: false,
            total_checks: 0,
            total_failures: 0,
            hardlockup_count: 0,
            softlockup_count: 0,
        }
    }

    /// Initialize the watchdog with the given configuration. This can be done once.
    pub fn init(&mut self, config: WatchdogConfig) -> (res: WatchdogResult<()>)
        ensures
            old(self)@.initialized ==> {
                &&& res == Err::<(), WatchdogError>(WatchdogError::AlreadyInitialized)
                &&& final(self)@ == old(self)@
            },
            !old(self)@.initialized ==> {
                &&& res == Ok::<(), WatchdogError>(())
                &&& final(self)@ == old(self)@.configured(config)
            },
    {
        if self.initialized {
            return Err(WatchdogError::AlreadyInitialized);
        }
        self.initialized = true;
        self.hardlockup_thresh_ns = config.hardlockup_thresh_ns;
        self.softlockup_thresh_ns = config.softlockup_thresh_ns;
        self.lock_timeout_ns = config.lock_timeout_ns;
        self.fail_threshold = config.fail_threshold;
        self.num_cpus = #[verifier::truncate] (config.num_cpus as u32);
        self.auto_restart = config.auto_restart;
        self.panic_on_hardlockup = config.panic_on_hardlockup;
        self.panic_on_softlockup = config.panic_on_softlockup;
        proof {
            let n = config.num_cpus;
            let m = n as u64;
            assert(m as u32 == m % 0x1_0000_0000) by (bit_vector);
            assert(n as u32 == m as u32) by (bit_vector)
                requires
                    m == n as u64,
            ;
        }
        Ok(())
    }

    /// Put the monitored CPUs into a watchdog state.
    fn set_cpu_states(&self, cpus: &mut PerCpuArray, state: WatchdogState)
        ensures
            final(cpus)@ == all_in_state(old(cpus)@, self@.num_cpus as int, state),
    {
        let num_cpus = self.num_cpus as usize;
        let mut i: usize = 0;
        assert(cpus@ =~= all_in_state(old(cpus)@, 0, state));
        while i < num_cpus && i < MAX_CPUS
            invariant
                num_cpus == self@.num_cpus,
                i <= MAX_CPUS,
                i <= num_cpus,
                cpus@ == all_in_state(old(cpus)@, i as int, state),
            decreases MAX_CPUS - i,
        {
            if let Some(cpu) = cpus.try_get_mut(i) {
                cpu.set_state(state);
            }
            i = i + 1;
            assert(cpus@ =~= all_in_state(old(cpus)@, i as int, state));
        }
        assert(cpus@ =~= all_in_state(old(cpus)@, num_cpus as int, state));
    }

    /// Start the watchdog: all monitored CPUs become active.
    pub fn start(&mut self, cpus: &mut PerCpuArray) -> (res: WatchdogResult<()>)
        ensures
            !old(self)@.initialized ==> {
                &&& res == Err::<(), WatchdogError>(WatchdogError::NotInitialized)
                &&& final(self)@ == old(self)@
                &&& final(cpus)@ == old(cpus)@
            },
            old(self)@.initialized && old(self)@.running ==> {
                &&& res == Err::<(), WatchdogError>(WatchdogError::AlreadyRunning)
                &&& final(self)@ == old(self)@
                &&& final(cpus)@ == old(cpus)@
            },
            old(self)@.initialized && !old(self)@.running ==> {
                &&& res == Ok::<(), WatchdogError>(())
                &&& final(self)@ == (WatchdogModel { running: true, ..old(self)@ })
                &&& final(cpus)@ == all_in_state(
                    old(cpus)@,
                    old(self)@.num_cpus as int,
                    WatchdogState::Active,
                )
            },
    {
        if !self.initialized {
            return Err(WatchdogError::NotInitialized);
        }
        if self.running {
            return Err(WatchdogError::AlreadyRunning);
        }
        self.running = true;
        self.set_cpu_states(cpus, WatchdogState::Active);
        Ok(())
    }

    /// Stop the watchdog: all monitored CPUs become idle.
    pub fn stop(&mut self, cpus: &mut PerCpuArray) -> (res: WatchdogResult<()>)
        ensures
            !old(self)@.running ==> {
                &&& res == Err::<(), WatchdogError>(WatchdogError::NotRunning)
                &&& final(self)@ == old(self)@
                &&& final(cpus)@ == old(cpus)@
            },
            old(self)@.running ==> {
                &&& res == Ok::<(), WatchdogError>(())
                &&& old(self)@.initialized
                &&& final(self)@ == (WatchdogModel { running: false, ..old(self)@ })
                &&& final(cpus)@ == all_in_state(
                    old(cpus)@,
                    old(self)@.num_cpus as int,
                    WatchdogState::Idle,
                )
            },
    {
        proof {
            use_type_invariant(&*self);
        }
        if !self.running {
            return Err(WatchdogError::NotRunning);
        }
        self.running = false;
        self.set_cpu_states(cpus, WatchdogState::Idle);
        Ok(())
    }

    /// Check if watchdog is initialized.
    pub fn is_initialized(&self) -> (initialized: bool)
        ensures
            initialized == self@.initialized,
    {
        self.initialized
    }

    /// Check if watchdog is running.
    pub fn is_running(&self) -> (running: bool)
        ensures
            running == self@.running,
            running ==> self@.initialized,
    {
        proof {
            use_type_invariant(self);
        }
        self.running
    }

    /// Get hardlockup threshold in nanoseconds.
    pub fn hardlockup_thresh_ns(&self) -> (ns: u64)
        ensures
            ns == self@.hardlockup_thresh_ns,
    {
        self.hardlockup_thresh_ns
    }

    /// Get softlockup threshold in nanoseconds.
    pub fn softlockup_thresh_ns(&self) -> (ns: u64)
        ensures
            ns == self@.softlockup_thresh_ns,
    {
        self.softlockup_thresh_ns
    }

    /// Get lock timeout in nanoseconds.
    pub fn lock_timeout_ns(&self) -> (ns: u64)
        ensures
            ns == self@.lock_timeout_ns,
    {
        self.lock_timeout_ns
    }

    /// Get total check count.
    pub fn total_checks(&self) -> (count: u64)
        ensures
            count == self@.total_checks,
    {
        self.total_checks
    }

    /// Get total failure count.
    pub fn total_failures(&self) -> (count: u64)
        ensures
            count == self@.total_failures,
    {
        self.total_failures
    }

    /// Get hardlockup count.
    pub fn hardlockup_count(&self) -> (count: u64)
        ensures
            count == self@.hardlockup_count,
    {
        self.hardlockup_count
    }

    /// Get softlockup count.
    pub fn softlockup_count(&self) -> (count: u64)
        ensures
            count == self@.softlockup_count,
    {
        self.softlockup_count
    }

    /// Number of consecutive failures before triggering.
    pub(crate) fn fail_threshold(&self) -> (threshold: u32)
        ensures
            threshold == self@.fail_threshold,
    {
        self.fail_threshold
    }

    /// Whether to restart a CPU's watchdog after a task timeout.
    pub(crate) fn auto_restart(&self) -> (restart: bool)
        ensures
            restart == self@.auto_restart,
    {
        self.auto_restart
    }

    /// Whether to panic on hardlockup.
    pub(crate) fn panic_on_hardlockup(&self) -> (panic: bool)
        ensures
            panic == self@.panic_on_hardlockup,
    {
        self.panic_on_hardlockup
    }

    /// Whether to panic on softlockup.
    pub(crate) fn panic_on_softlockup(&self) -> (panic: bool)
        ensures
            panic == self@.panic_on_softlockup,
    {
        self.panic_on_softlockup
    }

    /// Count a check.
    pub(crate) fn count_check(&mut self)
        ensures
            final(self)@ == old(self)@.check_counted(),
    {
        proof {
            use_type_invariant(&*self);
        }
        self.total_checks = self.total_checks.wrapping_add(1);
    }

    /// Count a failure.
    pub(crate) fn count_failure(&mut self)
        ensures
            final(self)@ == old(self)@.failure_counted(),
    {
        proof {
            use_type_invariant(&*self);
        }
        self.total_failures = self.total_failures.wrapping_add(1);
    }

    /// Count a hardlockup.
    pub(crate) fn count_hardlockup(&mut self)
        ensures
            final(self)@ == old(self)@.hardlockup_counted(),
    {
        proof {
            use_type_invariant(&*self);
        }
        self.hardlockup_count = self.hardlockup_count.wrapping_add(1);
        self.count_failure();
    }

    /// Count a softlockup.
    pub(crate) fn count_softlockup(&mut self)
        ensures
            final(self)@ == old(self)@.softlockup_counted(),
    {
        proof {
            use_type_invariant(&*self);
        }
        self.softlockup_count = self.softlockup_count.wrapping_add(1);
        self.count_failure();
    }
}

impl Default for Watchdog {
    fn default() -> (watchdog: Self)
        ensures
            watchdog@ == WatchdogModel::fresh(),
    {
        Self::new()
    }
}

/// A running watchdog is an initialized one: it is so of a new watchdog, and initializing,
/// starting, stopping and counting keep it so.
pub proof fn law_running_is_initialized(watchdog: WatchdogModel, config: WatchdogConfig)
    requires
        watchdog.sound(),
    ensures
        WatchdogModel::fresh().sound(),
        watchdog.configured(config).sound(),
        watchdog.initialized ==> (WatchdogModel { running: true, ..watchdog }).sound(),
        (WatchdogModel { running: false, ..watchdog }).sound(),
        watchdog.check_counted().sound(),
        watchdog.failure_counted().sound(),
        watchdog.hardlockup_counted().sound(),
        watchdog.softlockup_counted().sound(),
{
}

/// A watchdog that was just stopped, whatever happened to it before, can be started again, and is
/// then as it was; so are the CPUs, with the monitored ones active.
pub proof fn law_start_undoes_stop(watchdog: WatchdogModel, cpus: Seq<CpuModel>)
    requires
        watchdog.sound(),
        watchdog.running,
    ensures
        ({
            let stopped = WatchdogModel { running: false, ..watchdog };
            let idle = all_in_state(cpus, watchdog.num_cpus as int, WatchdogState::Idle);
            &&& stopped.initialized && !stopped.running
            &&& (WatchdogModel { running: true, ..stopped }) == watchdog
            &&& all_in_state(idle, stopped.num_cpus as int, WatchdogState::Active) == all_in_state(
                cpus,
                watchdog.num_cpus as int,
                WatchdogState::Active,
            )
        }),
{
    let idle = all_in_state(cpus, watchdog.num_cpus as int, WatchdogState::Idle);
    assert(all_in_state(idle, watchdog.num_cpus as int, WatchdogState::Active) =~= all_in_state(
        cpus,
        watchdog.num_cpus as int,
        WatchdogState::Active,
    ));
}

/// Stopping a watchdog that was just started gives the watchdog back as it was, and the CPUs
/// too, with the monitored ones idle.
pub proof fn law_stop_undoes_start(watchdog: WatchdogModel, cpus: Seq<CpuModel>)
    requires
        watchdog.initialized,
        !watchdog.running,
    ensures
        ({
            let started = WatchdogModel { running: true, ..watchdog };
            let active = all_in_state(cpus, watchdog.num_cpus as int, WatchdogState::Active);
            &&& (WatchdogModel { running: false, ..started }) == watchdog
            &&& all_in_state(active, started.num_cpus as int, WatchdogState::Idle) == all_in_state(
                cpus,
                watchdog.num_cpus as int,
                WatchdogState::Idle,
            )
        }),
{
    let active = all_in_state(cpus, watchdog.num_cpus as int, WatchdogState::Active);
    assert(all_in_state(active, watchdog.num_cpus as int, WatchdogState::Idle) =~= all_in_state(
        cpus,
        watchdog.num_cpus as int,
        WatchdogState::Idle,
    ));
}

/// Starting or stopping touches the watchdog state of the monitored CPUs, and nothing else of
/// any CPU.
pub proof fn law_only_monitored_states_change(
    cpus: Seq<CpuModel>,
    count: int,
    state: WatchdogState,
    i: int,
)
    requires
        0 <= i < cpus.len(),
    ensures
        i < count ==> all_in_state(cpus, count, state)[i] == (CpuModel { state, ..cpus[i] }),
        i >= count ==> all_in_state(cpus, count, state)[i] == cpus[i],
{
}

} // verus!
