//! Watchdog errors.

use vstd::prelude::*;
use vstd::std_specs::convert::FromSpecImpl;

use crate::nmi::NmiError;
use crate::task::RegistryError;

verus! {

/// Watchdog error type.
#[derive(Debug, Clone, Copy, PartialEq, Eq, Structural)]
pub enum WatchdogError {
    /// Watchdog not initialized.
    NotInitialized,
    /// Watchdog already initialized.
    AlreadyInitialized,
    /// Watchdog already running.
    AlreadyRunning,
    /// Watchdog not running.
    NotRunning,
    /// NMI source error.
    NmiError(NmiError),
    /// Task registry error.
    TaskError(RegistryError),
    /// Invalid configuration.
    InvalidConfig,
}

impl From<NmiError> for WatchdogError {
    fn from(e: NmiError) -> (error: Self) {
        WatchdogError::NmiError(e)
    }
}

impl FromSpecImpl<NmiError> for WatchdogError {
    open spec fn obeys_from_spec() -> bool {
        true
    }

    open spec fn from_spec(e: NmiError) -> Self {
        WatchdogError::NmiError(e)
    }
}

impl From<RegistryError> for WatchdogError {
    fn from(e: RegistryError) -> (error: Self) {
        WatchdogError::TaskError(e)
    }
}

impl FromSpecImpl<RegistryError> for WatchdogError {
    open spec fn obeys_from_spec() -> bool {
        true
    }

    open spec fn from_spec(e: RegistryError) -> Self {
        WatchdogError::TaskError(e)
    }
}

impl WatchdogError {
    /// The error in words.
    pub open spec fn text(self) -> Seq<char> {
        match self {
            WatchdogError::NotInitialized => "Watchdog not initialized"@,
            WatchdogError::AlreadyInitialized => "Watchdog already initialized"@,
            WatchdogError::AlreadyRunning => "Watchdog already running"@,
            WatchdogError::NotRunning => "Watchdog not running"@,
            WatchdogError::NmiError(e) => "NMI error: "@ + e.text(),
            WatchdogError::TaskError(e) => "Task error: "@ + e.text(),
            WatchdogError::InvalidConfig => "Invalid configuration"@,
        }
    }

    /// Describe the error.
    pub fn message(&self) -> (message: String)
        ensures
            message@ == self.text(),
    {
        match self {
            WatchdogError::NotInitialized => "Watchdog not initialized".to_owned(),
            WatchdogError::AlreadyInitialized => "Watchdog already initialized".to_owned(),
            WatchdogError::AlreadyRunning => "Watchdog already running".to_owned(),
            WatchdogError::NotRunning => "Watchdog not running".to_owned(),
            WatchdogError::NmiError(e) => "NMI error: ".to_owned().concat(e.message()),
            WatchdogError::TaskError(e) => "Task error: ".to_owned().concat(e.message()),
            WatchdogError::InvalidConfig => "Invalid configuration".to_owned(),
        }
    }
}

/// Result type for watchdog operations.
pub type WatchdogResult<T> = Result<T, WatchdogError>;

} // verus!
