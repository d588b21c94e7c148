//! Laws on configurations and errors.

use vstd::prelude::*;

use crate::config::WatchdogConfig;
use crate::error::WatchdogError;
use crate::nmi::NmiError;
use crate::task::RegistryError;

verus! {

/// A configuration starts out with a hardlockup after 10 seconds, a softlockup after 20, a lock
/// timeout after 60, three failures to trigger, one CPU, a restart, and a panic on a hardlockup
/// only.
pub proof fn law_default_configuration(config: WatchdogConfig, by_default: WatchdogConfig)
    requires
        call_ensures(WatchdogConfig::new, (), config),
        call_ensures(<WatchdogConfig as Default>::default, (), by_default),
    ensures
        config.hardlockup_thresh_ns == 10 * 1_000_000_000,
        config.softlockup_thresh_ns == 20 * 1_000_000_000,
        config.lock_timeout_ns == 60 * 1_000_000_000,
        config.fail_threshold == 3,
        config.num_cpus == 1,
        config.auto_restart,
        config.panic_on_hardlockup,
        !config.panic_on_softlockup,
        by_default == config,
{
}

/// Each timeout that is set in nanoseconds is that very number, and the other settings stay.
pub proof fn law_timeouts_in_nanoseconds(
    config: WatchdogConfig,
    ns: u64,
    hard: WatchdogConfig,
    soft: WatchdogConfig,
    lock: WatchdogConfig,
)
    requires
        call_ensures(WatchdogConfig::with_hardlockup_thresh_ns, (config, ns), hard),
        call_ensures(WatchdogConfig::with_softlockup_thresh_ns, (config, ns), soft),
        call_ensures(WatchdogConfig::with_lock_timeout_ns, (config, ns), lock),
    ensures
        hard == (WatchdogConfig { hardlockup_thresh_ns: ns, ..config }),
        soft == (WatchdogConfig { softlockup_thresh_ns: ns, ..config }),
        lock == (WatchdogConfig { lock_timeout_ns: ns, ..config }),
{
}

/// A timeout that is set in seconds is that many thousand million nanoseconds, and the other
/// settings stay.
pub proof fn law_timeouts_in_seconds(
    config: WatchdogConfig,
    secs: u64,
    hard: WatchdogConfig,
    soft: WatchdogConfig,
)
    requires
        secs * 1_000_000_000 <= u64::MAX,
        call_ensures(WatchdogConfig::with_hardlockup_thresh_secs, (config, secs), hard),
        call_ensures(WatchdogConfig::with_softlockup_thresh_secs, (config, secs), soft),
    ensures
        hard.hardlockup_thresh_ns == secs * 1_000_000_000,
        hard == (WatchdogConfig { hardlockup_thresh_ns: hard.hardlockup_thresh_ns, ..config }),
        soft.softlockup_thresh_ns == secs * 1_000_000_000,
        soft == (WatchdogConfig { softlockup_thresh_ns: soft.softlockup_thresh_ns, ..config }),
{
}

/// Every other setting becomes what it is set to, and the rest stays.
pub proof fn law_other_settings(
    config: WatchdogConfig,
    fail_threshold: u32,
    num_cpus: usize,
    flag: bool,
    threshold: WatchdogConfig,
    cpus: WatchdogConfig,
    restart: WatchdogConfig,
    on_hard: WatchdogConfig,
    on_soft: WatchdogConfig,
)
    requires
        call_ensures(WatchdogConfig::with_fail_threshold, (config, fail_threshold), threshold),
        call_ensures(WatchdogConfig::with_num_cpus, (config, num_cpus), cpus),
        call_ensures(WatchdogConfig::with_auto_restart, (config, flag), restart),
        call_ensures(WatchdogConfig::with_panic_on_hardlockup, (config, flag), on_hard),
        call_ensures(WatchdogConfig::with_panic_on_softlockup, (config, flag), on_soft),
    ensures
        threshold == (WatchdogConfig { fail_threshold, ..config }),
        cpus == (WatchdogConfig { num_cpus, ..config }),
        restart == (WatchdogConfig { auto_restart: flag, ..config }),
        on_hard == (WatchdogConfig { panic_on_hardlockup: flag, ..config }),
        on_soft == (WatchdogConfig { panic_on_softlockup: flag, ..config }),
{
}

/// An error of an NMI source or of the registry is one of the watchdog that carries it, and is
/// described by its own words after a word on where it comes from.
pub proof fn law_carried_errors(
    nmi: NmiError,
    registry: RegistryError,
    from_nmi: WatchdogError,
    from_registry: WatchdogError,
    nmi_words: &'static str,
    registry_words: &'static str,
    nmi_message: String,
    registry_message: String,
)
    requires
        call_ensures(<WatchdogError as From<NmiError>>::from, (nmi,), from_nmi),
        call_ensures(<WatchdogError as From<RegistryError>>::from, (registry,), from_registry),
        call_ensures(NmiError::message, (&nmi,), nmi_words),
        call_ensures(RegistryError::message, (&registry,), registry_words),
        call_ensures(WatchdogError::message, (&from_nmi,), nmi_message),
        call_ensures(WatchdogError::message, (&from_registry,), registry_message),
    ensures
        from_nmi == WatchdogError::NmiError(nmi),
        from_registry == WatchdogError::TaskError(registry),
        nmi_message@ == "NMI error: "@ + nmi_words@,
        registry_message@ == "Task error: "@ + registry_words@,
{
}

} // verus!
