//! Watchdog configuration.

use vstd::prelude::*;

use crate::percpu::{
    DEFAULT_HARDLOCKUP_THRESH_NS, DEFAULT_LOCK_TIMEOUT_NS, DEFAULT_SOFTLOCKUP_THRESH_NS,
};

verus! {

/// Nanoseconds in a second.
pub const NANOS_PER_SEC: u64 = 1_000_000_000;

/// Watchdog configuration.
#[derive(Debug, Clone, Copy)]
pub struct WatchdogConfig {
    /// Hardlockup timeout in nanoseconds (NMI checks timer interrupts).
    /// Default: 10 seconds.
    pub hardlockup_thresh_ns: u64,
    /// Softlockup timeout in nanoseconds (timer checks watchdog thread).
    /// Default: 20 seconds.
    pub softlockup_thresh_ns: u64,
    /// Lock timeout for deadlock detection in nanoseconds.
    /// Default: 60 seconds.
    pub lock_timeout_ns: u64,
    /// Number of consecutive failures before triggering.
    pub fail_threshold: u32,
    /// Number of CPUs to monitor.
    pub num_cpus: usize,
    /// Whether to automatically restart after handling.
    pub auto_restart: bool,
    /// Whether to panic on hardlockup.
    pub panic_on_hardlockup: bool,
    /// Whether to panic on softlockup.
    pub panic_on_softlockup: bool,
}

impl WatchdogConfig {
    /// The configuration with default values.
    pub open spec fn defaults() -> Self {
        WatchdogConfig {
            hardlockup_thresh_ns: 10_000_000_000,
            softlockup_thresh_ns: 20_000_000_000,
            lock_timeout_ns: 60_000_000_000,
            fail_threshold: 3,
            num_cpus: 1,
            auto_restart: true,
            panic_on_hardlockup: true,
            panic_on_softlockup: false,
        }
    }

    /// Create a new configuration with default values.
    pub fn new() -> (config: Self)
        ensures
            config == Self::defaults(),
    {
        WatchdogConfig {
            hardlockup_thresh_ns: DEFAULT_HARDLOCKUP_THRESH_NS,
            softlockup_thresh_ns: DEFAULT_SOFTLOCKUP_THRESH_NS,
            lock_timeout_ns: DEFAULT_LOCK_TIMEOUT_NS,
            fail_threshold: 3,
            num_cpus: 1,
            auto_restart: true,
            panic_on_hardlockup: true,
            panic_on_softlockup: false,
        }
    }

    /// Set the hardlockup timeout in nanoseconds.
    pub fn with_hardlockup_thresh_ns(self, ns: u64) -> (config: Self)
        ensures
            config == (WatchdogConfig { hardlockup_thresh_ns: ns, ..self }),
    {
        WatchdogConfig { hardlockup_thresh_ns: ns, ..self }
    }

    /// Set the hardlockup timeout in seconds. It has to fit in nanoseconds.
    pub fn with_hardlockup_thresh_secs(self, secs: u64) -> (config: Self)
        requires
            secs * NANOS_PER_SEC <= u64::MAX,
        ensures
            config == (WatchdogConfig {
                hardlockup_thresh_ns: (secs * NANOS_PER_SEC) as u64,
                ..self
            }),
    {
        WatchdogConfig { hardlockup_thresh_ns: secs * NANOS_PER_SEC, ..self }
    }

    /// Set the softlockup timeout in nanoseconds.
    pub fn with_softlockup_thresh_ns(self, ns: u64) -> (config: Self)
        ensures
            config == (WatchdogConfig { softlockup_thresh_ns: ns, ..self }),
    {
        WatchdogConfig { softlockup_thresh_ns: ns, ..self }
    }

    /// Set the softlockup timeout in seconds. It has to fit in nanoseconds.
    pub fn with_softlockup_thresh_secs(self, secs: u64) -> (config: Self)
        requires
            secs * NANOS_PER_SEC <= u64::MAX,
        ensures
            config == (WatchdogConfig {
                softlockup_thresh_ns: (secs * NANOS_PER_SEC) as u64,
                ..self
            }),
    {
        WatchdogConfig { softlockup_thresh_ns: secs * NANOS_PER_SEC, ..self }
    }

    /// Set the lock timeout in nanoseconds.
    pub fn with_lock_timeout_ns(self, ns: u64) -> (config: Self)
        ensures
            config == (WatchdogConfig { lock_timeout_ns: ns, ..self }),
    {
        WatchdogConfig { lock_timeout_ns: ns, ..self }
    }

    /// Set the failure threshold.
    pub fn with_fail_threshold(self, threshold: u32) -> (config: Self)
        ensures
            config == (WatchdogConfig { fail_threshold: threshold, ..self }),
    {
        WatchdogConfig { fail_threshold: threshold, ..self }
    }

    /// Set the number of CPUs.
    pub fn with_num_cpus(self, num_cpus: usize) -> (config: Self)
        ensures
            config == (WatchdogConfig { num_cpus, ..self }),
    {
        WatchdogConfig { num_cpus, ..self }
    }

    /// Set auto-restart behavior.
    pub fn with_auto_restart(self, auto_restart: bool) -> (config: Self)
        ensures
            config == (WatchdogConfig { auto_restart, ..self }),
    {
        WatchdogConfig { auto_restart, ..self }
    }

    /// Set panic on hardlockup.
    pub fn with_panic_on_hardlockup(self, panic: bool) -> (config: Self)
        ensures
            config == (WatchdogConfig { panic_on_hardlockup: panic, ..self }),
    {
        WatchdogConfig { panic_on_hardlockup: panic, ..self }
    }

    /// Set panic on softlockup.
    pub fn with_panic_on_softlockup(self, panic: bool) -> (config: Self)
        ensures
            config == (WatchdogConfig { panic_on_softlockup: panic, ..self }),
    {
        WatchdogConfig { panic_on_softlockup: panic, ..self }
    }
}

impl Default for WatchdogConfig {
    fn default() -> (config: Self)
        ensures
            config == Self::defaults(),
    {
        Self::new()
    }
}

} // verus!
