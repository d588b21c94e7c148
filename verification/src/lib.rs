//! AArch64 Watchdog Timer with NMI Support.
//!
//! This crate holds the logic of a watchdog that uses NMI (Non-Maskable Interrupt) sources
//! like SDEI or PMU overflow to ensure the watchdog can trigger even when normal interrupts
//! are disabled.
//!
//! # Detection Mechanisms
//!
//! ## Softlockup Detection
//! Detects when a CPU can still handle interrupts but tasks cannot be scheduled.
//! A high-priority watchdog thread updates a timestamp; if this timestamp is stale,
//! the scheduler is stuck.
//!
//! ## Hardlockup Detection
//! Detects when a CPU is completely stuck (even interrupts don't run).
//! Timer interrupts increment a counter; NMI checks if this counter has increased.
//! If not, the CPU is completely unresponsive.
//!
//! ## Deadlock Detection
//! Tracks lock acquisition times. If a lock is held longer than a threshold,
//! it may indicate a deadlock.
//!
//! # State
//!
//! The library has no global state: what the entry points work on (a [`Watchdog`], a
//! [`PerCpuArray`], a [`TaskRegistry`]) is handed to them, by a caller that has exclusive
//! access to it for the time of the call. No operation blocks. What the timer interrupt and the
//! NMI call does not allocate either, apart from what the tasks and handlers do themselves; the
//! creation of a registry, the listings, texts that are put together, and the registration with
//! a polling watchdog do.
//!
//! # Example
//!
//! ```text
//! // Define a task to monitor
//! struct MyTask;
//!
//! impl WatchdogTask for MyTask {
//!     fn name(&self) -> &'static str {
//!         "my_task"
//!     }
//!
//!     fn health_check(&mut self) -> bool {
//!         true
//!     }
//! }
//!
//! // Initialize watchdog
//! let mut watchdog = Watchdog::new();
//! let mut cpus = PerCpuArray::new();
//! let mut registry = TaskRegistry::new();
//! watchdog.init(WatchdogConfig::default()).expect("watchdog init failed");
//!
//! // Register task
//! let handle = register_task(&mut registry, MyTask).unwrap();
//!
//! // Start watchdog
//! watchdog.start(&mut cpus).expect("watchdog start failed");
//!
//! // In your task loop, pet the watchdog
//! pet(&mut cpus, 0); // 0 = current CPU ID
//! ```

pub mod config;
pub mod detection;
pub mod error;
pub mod laws;
pub mod lockfree;
pub mod monitor;
pub mod nmi;
pub mod percpu;
pub mod snapshot;
pub mod task;
pub mod text;
pub mod watchdog;

pub use config::WatchdogConfig;
pub use detection::{
    notify_tasks, watchdog_nmi_check, watchdog_nmi_handler, watchdog_thread_tick,
    watchdog_timer_handler, Alert, NmiReport,
};
pub use error::{WatchdogError, WatchdogResult};
pub use lockfree::{AtomicBitmap, AtomicSequence, SpscRingBuffer};
pub use monitor::Watchdog;
pub use nmi::{
    HardwareRequest, NmiContext, NmiError, NmiHandlerStorage, NmiResult, NmiSource, PmuNmiSource,
    SdeiNmi,
};
pub use percpu::{
    check_cpu, check_cpu_health, lock_acquired, lock_released, pet, pet_with_timestamp,
    timer_tick, touch_softlockup, CpuHealth, PerCpuArray, PerCpuState, WatchdogState,
    DEFAULT_HARDLOCKUP_THRESH_NS, DEFAULT_LOCK_TIMEOUT_NS, DEFAULT_SOFTLOCKUP_THRESH_NS,
};
pub use snapshot::{CpuSnapshot, SnapshotCollector};
pub use task::{
    check_all_tasks, register_task, unregister_task, HeartbeatTask, RegistryError, TaskHandle,
    TaskRegistry, WatchdogTask,
};
