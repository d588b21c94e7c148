//! Laws on the watchdog: its life cycle and its readings.

use vstd::prelude::*;

use crate::config::WatchdogConfig;
use crate::error::{WatchdogError, WatchdogResult};
use crate::monitor::{Watchdog, WatchdogModel};
use crate::percpu::{CpuModel, PerCpuArray, WatchdogState};

verus! {

/// A new watchdog is neither initialized nor running, has counted nothing, and has the default
/// settings, for four CPUs.
pub proof fn law_new_watchdog(watchdog: Watchdog, by_default: Watchdog)
    requires
        call_ensures(Watchdog::new, (), watchdog),
        call_ensures(<Watchdog as Default>::default, (), by_default),
    ensures
        !watchdog@.initialized,
        !watchdog@.running,
        watchdog@.hardlockup_thresh_ns == 10 * 1_000_000_000,
        watchdog@.softlockup_thresh_ns == 20 * 1_000_000_000,
        watchdog@.lock_timeout_ns == 60 * 1_000_000_000,
        watchdog@.fail_threshold == 3,
        watchdog@.num_cpus == 4,
        watchdog@.auto_restart,
        watchdog@.panic_on_hardlockup,
        !watchdog@.panic_on_softlockup,
        watchdog@.total_checks == 0,
        watchdog@.total_failures == 0,
        watchdog@.hardlockup_count == 0,
        watchdog@.softlockup_count == 0,
        by_default@ == watchdog@,
{
}

/// Initializing works once. It takes over every setting as it is in the configuration, the number
/// of CPUs as far as it fits in 32 bits, and changes nothing else.
pub proof fn law_initialization(
    watchdog: &mut Watchdog,
    config: WatchdogConfig,
    res: WatchdogResult<()>,
)
    requires
        call_ensures(Watchdog::init, (watchdog, config), res),
    ensures
        old(watchdog)@.initialized ==> {
            &&& res == Err::<(), WatchdogError>(WatchdogError::AlreadyInitialized)
            &&& final(watchdog)@ == old(watchdog)@
        },
        !old(watchdog)@.initialized ==> {
            &&& res is Ok
            &&& final(watchdog)@.initialized
            &&& final(watchdog)@.hardlockup_thresh_ns == config.hardlockup_thresh_ns
            &&& final(watchdog)@.softlockup_thresh_ns == config.softlockup_thresh_ns
            &&& final(watchdog)@.lock_timeout_ns == config.lock_timeout_ns
            &&& final(watchdog)@.fail_threshold == config.fail_threshold
            &&& config.num_cpus <= u32::MAX ==> final(watchdog)@.num_cpus == config.num_cpus
            &&& exists|turns: int|
                final(watchdog)@.num_cpus + #[trigger] (turns * 0x1_0000_0000) == config.num_cpus
            &&& final(watchdog)@.auto_restart == config.auto_restart
            &&& final(watchdog)@.panic_on_hardlockup == config.panic_on_hardlockup
            &&& final(watchdog)@.panic_on_softlockup == config.panic_on_softlockup
            &&& final(watchdog)@.running == old(watchdog)@.running
            &&& final(watchdog)@.total_checks == old(watchdog)@.total_checks
            &&& final(watchdog)@.total_failures == old(watchdog)@.total_failures
            &&& final(watchdog)@.hardlockup_count == old(watchdog)@.hardlockup_count
            &&& final(watchdog)@.softlockup_count == old(watchdog)@.softlockup_count
        },
{
    if !old(watchdog)@.initialized {
        let turns = config.num_cpus as int / 0x1_0000_0000;
        assert(final(watchdog)@.num_cpus + turns * 0x1_0000_0000 == config.num_cpus);
    }
}

/// Starting needs a watchdog that is initialized and not running. It makes the monitored CPUs
/// active, the first ones up to the configured number, and changes nothing else of any CPU.
pub proof fn law_start(
    watchdog: &mut Watchdog,
    cpus: &mut PerCpuArray,
    res: WatchdogResult<()>,
)
    requires
        call_ensures(Watchdog::start, (watchdog, cpus), res),
    ensures
        res is Ok <==> old(watchdog)@.initialized && !old(watchdog)@.running,
        !old(watchdog)@.initialized ==> res == Err::<(), WatchdogError>(
            WatchdogError::NotInitialized,
        ),
        old(watchdog)@.initialized && old(watchdog)@.running ==> res == Err::<(), WatchdogError>(
            WatchdogError::AlreadyRunning,
        ),
        res is Err ==> final(watchdog)@ == old(watchdog)@ && final(cpus)@ == old(cpus)@,
        res is Ok ==> {
            &&& final(watchdog)@ == (WatchdogModel { running: true, ..old(watchdog)@ })
            &&& final(cpus)@.len() == 64
            &&& forall|i: int|
                0 <= i < 64 && i < old(watchdog)@.num_cpus ==> #[trigger] final(cpus)@[i] == (
                CpuModel { state: WatchdogState::Active, ..old(cpus)@[i] })
            &&& forall|i: int|
                0 <= i < 64 && i >= old(watchdog)@.num_cpus ==> #[trigger] final(cpus)@[i] == old(
                    cpus,
                )@[i]
        },
{
}

/// Stopping needs a running watchdog. It makes the monitored CPUs idle, and changes nothing else
/// of any CPU; the settings and the counts stay.
pub proof fn law_stop(watchdog: &mut Watchdog, cpus: &mut PerCpuArray, res: WatchdogResult<()>)
    requires
        call_ensures(Watchdog::stop, (watchdog, cpus), res),
    ensures
        res is Ok <==> old(watchdog)@.running,
        res is Err ==> {
            &&& res == Err::<(), WatchdogError>(WatchdogError::NotRunning)
            &&& final(watchdog)@ == old(watchdog)@
            &&& final(cpus)@ == old(cpus)@
        },
        res is Ok ==> {
            &&& final(watchdog)@.initialized
            &&& final(watchdog)@ == (WatchdogModel { running: false, ..old(watchdog)@ })
            &&& final(cpus)@.len() == 64
            &&& forall|i: int|
                0 <= i < 64 && i < old(watchdog)@.num_cpus ==> #[trigger] final(cpus)@[i] == (
                CpuModel { state: WatchdogState::Idle, ..old(cpus)@[i] })
            &&& forall|i: int|
                0 <= i < 64 && i >= old(watchdog)@.num_cpus ==> #[trigger] final(cpus)@[i] == old(
                    cpus,
                )@[i]
        },
{
}

/// What is recorded is what is read.
pub proof fn law_watchdog_readings(
    watchdog: &Watchdog,
    initialized: bool,
    running: bool,
    hardlockup_thresh_ns: u64,
    softlockup_thresh_ns: u64,
    lock_timeout_ns: u64,
    total_checks: u64,
    total_failures: u64,
    hardlockup_count: u64,
    softlockup_count: u64,
)
    requires
        call_ensures(Watchdog::is_initialized, (watchdog,), initialized),
        call_ensures(Watchdog::is_running, (watchdog,), running),
        call_ensures(Watchdog::hardlockup_thresh_ns, (watchdog,), hardlockup_thresh_ns),
        call_ensures(Watchdog::softlockup_thresh_ns, (watchdog,), softlockup_thresh_ns),
        call_ensures(Watchdog::lock_timeout_ns, (watchdog,), lock_timeout_ns),
        call_ensures(Watchdog::total_checks, (watchdog,), total_checks),
        call_ensures(Watchdog::total_failures, (watchdog,), total_failures),
        call_ensures(Watchdog::hardlockup_count, (watchdog,), hardlockup_count),
        call_ensures(Watchdog::softlockup_count, (watchdog,), softlockup_count),
    ensures
        initialized == watchdog@.initialized,
        running == watchdog@.running,
        running ==> initialized,
        hardlockup_thresh_ns == watchdog@.hardlockup_thresh_ns,
        softlockup_thresh_ns == watchdog@.softlockup_thresh_ns,
        lock_timeout_ns == watchdog@.lock_timeout_ns,
        total_checks == watchdog@.total_checks,
        total_failures == watchdog@.total_failures,
        hardlockup_count == watchdog@.hardlockup_count,
        softlockup_count == watchdog@.softlockup_count,
{
}

} // verus!
