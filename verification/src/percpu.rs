//! Per-CPU watchdog state management.
//!
//! Each CPU has its own state, which no operation on another CPU touches.
//!
//! # Detection Mechanisms
//!
//! ## Softlockup Detection
//! A watchdog kernel thread runs on each CPU and updates `soft_timestamp` periodically.
//! If the timer interrupt detects that `soft_timestamp` hasn't been updated for too long,
//! it indicates the scheduler is stuck (tasks can't run, but interrupts work).
//!
//! ## Hardlockup Detection
//! Timer interrupts increment `hrtimer_interrupts`. The NMI handler checks if this
//! counter has increased since the last check. If not, the CPU is completely stuck
//! (even interrupts can't run).
//!
//! ## Deadlock Detection
//! Track lock acquisition times. If a lock is held for too long, it may indicate
//! a deadlock or resource starvation.

use vstd::prelude::*;

use crate::snapshot::CpuSnapshot;

verus! {

/// Maximum number of CPUs supported.
pub const MAX_CPUS: usize = 64;

/// Default softlockup threshold in nanoseconds (20 seconds).
pub const DEFAULT_SOFTLOCKUP_THRESH_NS: u64 = 20_000_000_000;

/// Default hardlockup threshold in nanoseconds (10 seconds).
pub const DEFAULT_HARDLOCKUP_THRESH_NS: u64 = 10_000_000_000;

/// Default lock timeout in nanoseconds (60 seconds).
pub const DEFAULT_LOCK_TIMEOUT_NS: u64 = 60_000_000_000;

/// CPU health status.
#[derive(Debug, Clone, Copy, PartialEq, Eq, Structural)]
pub enum CpuHealth {
    /// CPU is operating normally.
    Healthy,
    /// Softlockup: tasks not being scheduled, but interrupts work.
    SoftLockup,
    /// Hardlockup: CPU completely stuck, even interrupts don't run.
    HardLockup,
    /// Possible deadlock: lock held for too long.
    PossibleDeadlock,
}

impl CpuHealth {
    /// The raw value of a status.
    pub open spec fn code(self) -> u32 {
        match self {
            CpuHealth::Healthy => 0,
            CpuHealth::SoftLockup => 1,
            CpuHealth::HardLockup => 2,
            CpuHealth::PossibleDeadlock => 3,
        }
    }

    /// Convert to the raw value.
    pub fn as_u32(self) -> (val: u32)
        ensures
            val == self.code(),
    {
        match self {
            CpuHealth::Healthy => 0,
            CpuHealth::SoftLockup => 1,
            CpuHealth::HardLockup => 2,
            CpuHealth::PossibleDeadlock => 3,
        }
    }

    /// Convert from a raw value. A value that stands for no status reads as healthy.
    pub fn from_u32(val: u32) -> (health: Self)
        ensures
            val <= 3 ==> health.code() == val,
            val > 3 ==> health == CpuHealth::Healthy,
    {
        match val {
            0 => CpuHealth::Healthy,
            1 => CpuHealth::SoftLockup,
            2 => CpuHealth::HardLockup,
            3 => CpuHealth::PossibleDeadlock,
            _ => CpuHealth::Healthy,
        }
    }

    /// Check if this is a lockup condition.
    pub fn is_lockup(&self) -> (lockup: bool)
        ensures
            lockup == (*self == CpuHealth::SoftLockup || *self == CpuHealth::HardLockup),
    {
        matches!(self, CpuHealth::SoftLockup | CpuHealth::HardLockup)
    }
}

/// Watchdog state for a single CPU.
#[derive(Debug, Clone, Copy, PartialEq, Eq, Structural)]
pub enum WatchdogState {
    /// Watchdog is idle, not monitoring.
    Idle,
    /// Watchdog is active and monitoring.
    Active,
    /// Health check detected a problem.
    Triggered,
    /// Currently dumping CPU state.
    Dumping,
    /// Watchdog completed (terminal state until reset).
    Completed,
}

impl WatchdogState {
    /// The raw value of a state.
    pub open spec fn code(self) -> u32 {
        match self {
            WatchdogState::Idle => 0,
            WatchdogState::Active => 1,
            WatchdogState::Triggered => 2,
            WatchdogState::Dumping => 3,
            WatchdogState::Completed => 4,
        }
    }

    /// Convert to the raw value.
    pub fn as_u32(self) -> (val: u32)
        ensures
            val == self.code(),
    {
        match self {
            WatchdogState::Idle => 0,
            WatchdogState::Active => 1,
            WatchdogState::Triggered => 2,
            WatchdogState::Dumping => 3,
            WatchdogState::Completed => 4,
        }
    }

    /// Convert from a raw value. A value that stands for no state reads as idle.
    pub fn from_u32(val: u32) -> (state: Self)
        ensures
            val <= 4 ==> state.code() == val,
            val > 4 ==> state == WatchdogState::Idle,
    {
        match val {
            0 => WatchdogState::Idle,
            1 => WatchdogState::Active,
            2 => WatchdogState::Triggered,
            3 => WatchdogState::Dumping,
            4 => WatchdogState::Completed,
            _ => WatchdogState::Idle,
        }
    }
}

/// What is recorded of a CPU.
pub struct CpuModel {
    /// Heartbeat counter.
    pub heartbeat: u64,
    /// Heartbeat counter at the last heartbeat check.
    pub last_checked_heartbeat: u64,
    /// Time of the watchdog thread's last run; zero before its first.
    pub soft_timestamp: u64,
    /// Timer interrupt counter.
    pub ticks: u32,
    /// Timer interrupt counter at the last hardlockup check.
    pub ticks_saved: u32,
    /// A hardlockup warning has been issued.
    pub hardlockup_warned: bool,
    /// Number of locks held.
    pub locks_held: u32,
    /// Time since when locks have been held without a break.
    pub earliest_lock_time: u64,
    /// Number of consecutive failed checks.
    pub fail_count: u32,
    /// Watchdog state.
    pub state: WatchdogState,
    /// Result of the last health check.
    pub last_health: CpuHealth,
    /// Latest CPU snapshot, if any.
    pub snapshot: Option<CpuSnapshot>,
    /// Time of the last heartbeat that came with a timestamp.
    pub last_update_ns: u64,
}

impl CpuModel {
    /// A CPU of which nothing has been recorded.
    pub open spec fn initial() -> Self {
        CpuModel {
            heartbeat: 0,
            last_checked_heartbeat: 0,
            soft_timestamp: 0,
            ticks: 0,
            ticks_saved: 0,
            hardlockup_warned: false,
            locks_held: 0,
            earliest_lock_time: 0,
            fail_count: 0,
            state: WatchdogState::Idle,
            last_health: CpuHealth::Healthy,
            snapshot: None,
            last_update_ns: 0,
        }
    }

    /// The heartbeat counter has moved since the last heartbeat check.
    pub open spec fn beating(self) -> bool {
        self.heartbeat != self.last_checked_heartbeat
    }

    /// The state after a heartbeat check.
    pub open spec fn heartbeat_checked(self) -> Self {
        CpuModel { last_checked_heartbeat: self.heartbeat, ..self }
    }

    /// The watchdog thread has run before, but not within the last `threshold_ns`.
    pub open spec fn soft_locked(self, now_ns: u64, threshold_ns: u64) -> bool {
        self.soft_timestamp != 0 && now_ns - self.soft_timestamp > threshold_ns
    }

    /// There have been timer interrupts, but none since the last hardlockup check.
    pub open spec fn hard_locked(self) -> bool {
        self.ticks != 0 && self.ticks == self.ticks_saved
    }

    /// Locks are held, and have been for more than `threshold_ns`.
    pub open spec fn deadlocked(self, now_ns: u64, threshold_ns: u64) -> bool {
        &&& self.locks_held != 0
        &&& self.earliest_lock_time != 0
        &&& now_ns - self.earliest_lock_time > threshold_ns
    }

    /// The worst condition the CPU is in.
    pub open spec fn diagnosis(
        self,
        now_ns: u64,
        soft_thresh_ns: u64,
        lock_thresh_ns: u64,
    ) -> CpuHealth {
        if self.hard_locked() {
            CpuHealth::HardLockup
        } else if self.soft_locked(now_ns, soft_thresh_ns) {
            CpuHealth::SoftLockup
        } else if self.deadlocked(now_ns, lock_thresh_ns) {
            CpuHealth::PossibleDeadlock
        } else {
            CpuHealth::Healthy
        }
    }

    /// The state after a health check.
    pub open spec fn health_checked(
        self,
        now_ns: u64,
        soft_thresh_ns: u64,
        lock_thresh_ns: u64,
    ) -> Self {
        CpuModel {
            ticks_saved: self.ticks,
            last_health: self.diagnosis(now_ns, soft_thresh_ns, lock_thresh_ns),
            ..self
        }
    }

    /// The state after a heartbeat.
    pub open spec fn petted(self) -> Self {
        CpuModel { heartbeat: self.heartbeat.wrapping_add(1), ..self }
    }

    /// The state after a timer interrupt.
    pub open spec fn ticked(self) -> Self {
        CpuModel { ticks: self.ticks.wrapping_add(1), ..self }
    }

    /// The state after a lock was acquired.
    pub open spec fn locked(self, timestamp_ns: u64) -> Self {
        CpuModel {
            locks_held: self.locks_held.wrapping_add(1),
            earliest_lock_time: if self.locks_held == 0 {
                timestamp_ns
            } else {
                self.earliest_lock_time
            },
            ..self
        }
    }

    /// The state after a lock was released.
    pub open spec fn unlocked(self) -> Self {
        CpuModel {
            locks_held: self.locks_held.wrapping_sub(1),
            earliest_lock_time: if self.locks_held == 1 {
                0
            } else {
                self.earliest_lock_time
            },
            ..self
        }
    }
}

/// Per-CPU watchdog state.
///
/// # Fields for Detection
///
/// - `soft_timestamp`: Updated by watchdog thread, checked by timer interrupt (softlockup)
/// - `hrtimer_interrupts`: Incremented by timer interrupt, checked by NMI (hardlockup)
/// - `locks_held` / `earliest_lock_time`: Track lock holding for deadlock detection
#[derive(Clone, Copy)]
pub struct PerCpuState {
    // === Heartbeat (task monitoring) ===
    /// Heartbeat counter - tasks increment this to show they're alive.
    heartbeat: u64,
    /// Last heartbeat value seen during a check.
    last_checked_heartbeat: u64,
    // === Softlockup Detection ===
    /// Timestamp when watchdog thread last ran (nanoseconds).
    soft_timestamp: u64,
    // === Hardlockup Detection ===
    /// Timer interrupt counter (incremented in timer interrupt).
    hrtimer_interrupts: u32,
    /// Saved hrtimer_interrupts value from last NMI check.
    hrtimer_interrupts_saved: u32,
    /// Whether hardlockup warning has been issued.
    hardlockup_warned: bool,
    // === Deadlock Detection ===
    /// Number of locks currently held by this CPU.
    locks_held: u32,
    /// Timestamp when the earliest lock was acquired.
    earliest_lock_time: u64,
    // === State ===
    /// Number of consecutive failed checks.
    fail_count: u32,
    /// Current watchdog state.
    state: WatchdogState,
    /// Last detected health status.
    last_health: CpuHealth,
    /// Latest CPU snapshot (if any).
    snapshot: Option<CpuSnapshot>,
    /// Timestamp of last heartbeat update (nanoseconds).
    last_update_ns: u64,
}

impl View for PerCpuState {
    type V = CpuModel;

    closed spec fn view(&self) -> CpuModel {
        CpuModel {
            heartbeat: self.heartbeat,
            last_checked_heartbeat: self.last_checked_heartbeat,
            soft_timestamp: self.soft_timestamp,
            ticks: self.hrtimer_interrupts,
            ticks_saved: self.hrtimer_interrupts_saved,
            hardlockup_warned: self.hardlockup_warned,
            locks_held: self.locks_held,
            earliest_lock_time: self.earliest_lock_time,
            fail_count: self.fail_count,
            state: self.state,
            last_health: self.last_health,
            snapshot: self.snapshot,
            last_update_ns: self.last_update_ns,
        }
    }
}

impl PerCpuState {
    /// Create a new per-CPU state.
    pub fn new() -> (cpu: Self)
        ensures
            cpu@ == CpuModel::initial(),
    {
        PerCpuState {
            heartbeat: 0,
            last_checked_heartbeat: 0,
            soft_timestamp: 0,
            hrtimer_interrupts: 0,
            hrtimer_interrupts_saved: 0,
            hardlockup_warned: false,
            locks_held: 0,
            earliest_lock_time: 0,
            fail_count: 0,
            state: WatchdogState::Idle,
            last_health: CpuHealth::Healthy,
            snapshot: None,
            last_update_ns: 0,
        }
    }

    // === Heartbeat operations (task monitoring) ===

    /// Increment the heartbeat counter (called by monitored tasks).
    ///
    /// This is the "pet the watchdog" operation.
    pub fn pet(&mut self)
        ensures
            final(self)@ == old(self)@.petted(),
    {
        self.heartbeat = self.heartbeat.wrapping_add(1);
    }

    /// Increment heartbeat with timestamp.
    pub fn pet_with_timestamp(&mut self, timestamp_ns: u64)
        ensures
            final(self)@ == (CpuModel { last_update_ns: timestamp_ns, ..old(self)@.petted() }),
    {
        self.heartbeat = self.heartbeat.wrapping_add(1);
        self.last_update_ns = timestamp_ns;
    }

    /// Get the current heartbeat value.
    pub fn heartbeat(&self) -> (value: u64)
        ensures
            value == self@.heartbeat,
    {
        self.heartbeat
    }

    /// Check if heartbeat has increased since last check.
    ///
    /// Returns `true` if healthy (heartbeat increased), `false` if stuck.
    /// This also updates the last checked heartbeat.
    pub fn check_heartbeat(&mut self) -> (healthy: bool)
        ensures
            healthy == old(self)@.beating(),
            final(self)@ == old(self)@.heartbeat_checked(),
    {
        let current = self.heartbeat;
        let last = self.last_checked_heartbeat;
        self.last_checked_heartbeat = current;
        current != last
    }

    // === Softlockup detection ===

    /// Update the soft timestamp (called by watchdog thread).
    ///
    /// The watchdog thread should call this every time it gets scheduled.
    pub fn touch_softlockup(&mut self, timestamp_ns: u64)
        ensures
            final(self)@ == (CpuModel { soft_timestamp: timestamp_ns, ..old(self)@ }),
    {
        self.soft_timestamp = timestamp_ns;
    }

    /// Get the soft timestamp.
    pub fn soft_timestamp(&self) -> (timestamp_ns: u64)
        ensures
            timestamp_ns == self@.soft_timestamp,
    {
        self.soft_timestamp
    }

    /// Check for softlockup condition.
    ///
    /// Call this from timer interrupt context.
    /// Returns true if softlockup is detected.
    pub fn check_softlockup(&self, now_ns: u64, threshold_ns: u64) -> (detected: bool)
        ensures
            detected == self@.soft_locked(now_ns, threshold_ns),
    {
        let last = self.soft_timestamp;
        if last == 0 {
            // Not yet initialized
            return false;
        }
        now_ns.saturating_sub(last) > threshold_ns
    }

    // === Hardlockup detection ===

    /// Increment hrtimer interrupt counter (called from timer interrupt).
    pub fn timer_tick(&mut self)
        ensures
            final(self)@ == old(self)@.ticked(),
    {
        self.hrtimer_interrupts = self.hrtimer_interrupts.wrapping_add(1);
    }

    /// Get current hrtimer interrupt count.
    pub fn hrtimer_interrupts(&self) -> (count: u32)
        ensures
            count == self@.ticks,
    {
        self.hrtimer_interrupts
    }

    /// Check for hardlockup condition (called from NMI).
    ///
    /// Returns true if hardlockup is detected (timer interrupts stopped).
    pub fn check_hardlockup(&mut self) -> (detected: bool)
        ensures
            detected == old(self)@.hard_locked(),
            final(self)@ == (CpuModel { ticks_saved: old(self)@.ticks, ..old(self)@ }),
    {
        let current = self.hrtimer_interrupts;
        let saved = self.hrtimer_interrupts_saved;
        // Update saved value for next check
        self.hrtimer_interrupts_saved = current;
        // If counts are equal, no timer interrupts occurred
        current == saved && current != 0
    }

    /// Check if hardlockup warning has been issued.
    pub fn hardlockup_warned(&self) -> (warned: bool)
        ensures
            warned == self@.hardlockup_warned,
    {
        self.hardlockup_warned
    }

    /// Set hardlockup warned flag.
    pub fn set_hardlockup_warned(&mut self, warned: bool)
        ensures
            final(self)@ == (CpuModel { hardlockup_warned: warned, ..old(self)@ }),
    {
        self.hardlockup_warned = warned;
    }

    // === Deadlock detection (lock tracking) ===

    /// Record a lock acquisition.
    ///
    /// Call this when acquiring a lock.
    pub fn lock_acquired(&mut self, timestamp_ns: u64)
        ensures
            final(self)@ == old(self)@.locked(timestamp_ns),
    {
        let count = self.locks_held;
        self.locks_held = count.wrapping_add(1);
        if count == 0 {
            // First lock, record time
            self.earliest_lock_time = timestamp_ns;
        }
    }

    /// Record a lock release.
    ///
    /// Call this when releasing a lock.
    pub fn lock_released(&mut self)
        ensures
            final(self)@ == old(self)@.unlocked(),
    {
        let count = self.locks_held;
        self.locks_held = count.wrapping_sub(1);
        if count == 1 {
            // Last lock released, clear time
            self.earliest_lock_time = 0;
        }
    }

    /// Get number of locks currently held.
    pub fn locks_held(&self) -> (count: u32)
        ensures
            count == self@.locks_held,
    {
        self.locks_held
    }

    /// Check for possible deadlock (lock held too long).
    ///
    /// Returns true if a lock has been held longer than threshold.
    pub fn check_deadlock(&self, now_ns: u64, threshold_ns: u64) -> (detected: bool)
        ensures
            detected == self@.deadlocked(now_ns, threshold_ns),
    {
        if self.locks_held == 0 {
            return false;
        }
        let lock_time = self.earliest_lock_time;
        if lock_time == 0 {
            return false;
        }
        now_ns.saturating_sub(lock_time) > threshold_ns
    }

    // === Comprehensive health check ===

    /// Perform comprehensive health check.
    ///
    /// Call this from NMI handler.
    /// Returns the current health status of this CPU.
    pub fn check_health(
        &mut self,
        now_ns: u64,
        soft_thresh_ns: u64,
        lock_thresh_ns: u64,
    ) -> (health: CpuHealth)
        ensures
            health == old(self)@.diagnosis(now_ns, soft_thresh_ns, lock_thresh_ns),
            final(self)@ == old(self)@.health_checked(now_ns, soft_thresh_ns, lock_thresh_ns),
    {
        // Priority: Hardlockup > Softlockup > Deadlock > Healthy
        let health = if self.check_hardlockup() {
            CpuHealth::HardLockup
        } else if self.check_softlockup(now_ns, soft_thresh_ns) {
            CpuHealth::SoftLockup
        } else if self.check_deadlock(now_ns, lock_thresh_ns) {
            CpuHealth::PossibleDeadlock
        } else {
            CpuHealth::Healthy
        };
        self.last_health = health;
        health
    }

    /// Get last recorded health status.
    pub fn last_health(&self) -> (health: CpuHealth)
        ensures
            health == self@.last_health,
    {
        self.last_health
    }

    // === State management ===

    /// Increment fail count and return new value. The count wraps around.
    pub fn increment_fail_count(&mut self) -> (count: u32)
        ensures
            count == old(self)@.fail_count.wrapping_add(1),
            final(self)@ == (CpuModel { fail_count: count, ..old(self)@ }),
    {
        self.fail_count = self.fail_count.wrapping_add(1);
        self.fail_count
    }

    /// Reset fail count to zero.
    pub fn reset_fail_count(&mut self)
        ensures
            final(self)@ == (CpuModel { fail_count: 0, ..old(self)@ }),
    {
        self.fail_count = 0;
    }

    /// Get current fail count.
    pub fn fail_count(&self) -> (count: u32)
        ensures
            count == self@.fail_count,
    {
        self.fail_count
    }

    /// Get current state.
    pub fn state(&self) -> (state: WatchdogState)
        ensures
            state == self@.state,
    {
        self.state
    }

    /// Set state unconditionally.
    pub fn set_state(&mut self, state: WatchdogState)
        ensures
            final(self)@ == (CpuModel { state, ..old(self)@ }),
    {
        self.state = state;
    }

    /// Try to transition from one state to another.
    ///
    /// Returns `true` if transition succeeded, `false` if current state didn't match.
    pub fn try_transition(&mut self, from: WatchdogState, to: WatchdogState) -> (done: bool)
        ensures
            done == (old(self)@.state == from),
            final(self)@ == (if done {
                (CpuModel { state: to, ..old(self)@ })
            } else {
                old(self)@
            }),
    {
        if self.state == from {
            self.state = to;
            true
        } else {
            false
        }
    }

    /// Store a snapshot, or none.
    pub fn set_snapshot(&mut self, snapshot: Option<CpuSnapshot>)
        ensures
            final(self)@ == (CpuModel { snapshot, ..old(self)@ }),
    {
        self.snapshot = snapshot;
    }

    /// Get the stored snapshot.
    pub fn snapshot(&self) -> (snapshot: Option<CpuSnapshot>)
        ensures
            snapshot == self@.snapshot,
    {
        self.snapshot
    }

    /// Clear the snapshot.
    pub fn clear_snapshot(&mut self)
        ensures
            final(self)@ == (CpuModel { snapshot: None, ..old(self)@ }),
    {
        self.snapshot = None;
    }

    /// Get last update timestamp.
    pub fn last_update_ns(&self) -> (timestamp_ns: u64)
        ensures
            timestamp_ns == self@.last_update_ns,
    {
        self.last_update_ns
    }

    /// Reset all state to initial values.
    pub fn reset(&mut self)
        ensures
            final(self)@ == CpuModel::initial(),
    {
        *self = Self::new();
    }
}

impl Default for PerCpuState {
    fn default() -> (cpu: Self)
        ensures
            cpu@ == CpuModel::initial(),
    {
        Self::new()
    }
}

/// Bit `i` of `bits` is set.
pub open spec fn cpu_bit(bits: u64, i: int) -> bool {
    bits & (1u64 << (i as u64)) != 0
}

/// The CPUs with CPU `cpu_id` in state `cpu`; a CPU that does not exist is in none.
pub open spec fn with_cpu(cpus: Seq<CpuModel>, cpu_id: usize, cpu: CpuModel) -> Seq<CpuModel> {
    if cpu_id < MAX_CPUS {
        cpus.update(cpu_id as int, cpu)
    } else {
        cpus
    }
}

/// Array of per-CPU states.
///
/// Access is indexed by CPU ID.
pub struct PerCpuArray {
    states: [PerCpuState; MAX_CPUS],
}

impl View for PerCpuArray {
    type V = Seq<CpuModel>;

    /// What is recorded of each CPU, by CPU ID.
    open spec fn view(&self) -> Seq<CpuModel> {
        Seq::new(MAX_CPUS as nat, |i: int| self.cpu(i))
    }
}

impl PerCpuArray {
    /// What is recorded of CPU `i`.
    pub closed spec fn cpu(&self, i: int) -> CpuModel {
        self.states@[i]@
    }

    /// Create a new per-CPU array.
    pub fn new() -> (cpus: Self)
        ensures
            cpus@ == Seq::new(MAX_CPUS as nat, |i: int| CpuModel::initial()),
    {
        let cpus = PerCpuArray { states: [PerCpuState::new(); MAX_CPUS] };
        assert(cpus@ =~= Seq::new(MAX_CPUS as nat, |i: int| CpuModel::initial()));
        cpus
    }

    /// Get the state for a specific CPU, which has to be one below [`MAX_CPUS`].
    pub fn get(&self, cpu_id: usize) -> (cpu: &PerCpuState)
        requires
            cpu_id < MAX_CPUS,
        ensures
            cpu@ == self@[cpu_id as int],
    {
        &self.states[cpu_id]
    }

    /// Get the state for a specific CPU (checked).
    pub fn try_get(&self, cpu_id: usize) -> (cpu: Option<&PerCpuState>)
        ensures
            match cpu {
                Some(cpu) => cpu_id < MAX_CPUS && cpu@ == self@[cpu_id as int],
                None => cpu_id >= MAX_CPUS,
            },
    {
        if cpu_id < MAX_CPUS {
            Some(&self.states[cpu_id])
        } else {
            None
        }
    }

    /// Get the state for a specific CPU (checked), to change it.
    pub fn try_get_mut(&mut self, cpu_id: usize) -> (cpu: Option<&mut PerCpuState>)
        ensures
            match cpu {
                Some(cpu) => {
                    &&& cpu_id < MAX_CPUS
                    &&& cpu@ == old(self)@[cpu_id as int]
                    &&& final(self)@ == old(self)@.update(cpu_id as int, final(cpu)@)
                },
                None => cpu_id >= MAX_CPUS && final(self)@ == old(self)@,
            },
    {
        if cpu_id < MAX_CPUS {
            Some(&mut self.states[cpu_id])
        } else {
            None
        }
    }

    /// Pet the watchdog for a specific CPU.
    pub fn pet(&mut self, cpu_id: usize)
        ensures
            final(self)@ == with_cpu(old(self)@, cpu_id, old(self)@[cpu_id as int].petted()),
    {
        if let Some(cpu) = self.try_get_mut(cpu_id) {
            cpu.pet();
        }
    }

    /// Pet the watchdog with timestamp.
    pub fn pet_with_timestamp(&mut self, cpu_id: usize, timestamp_ns: u64)
        ensures
            final(self)@ == with_cpu(
                old(self)@,
                cpu_id,
                (CpuModel {
                    last_update_ns: timestamp_ns,
                    ..old(self)@[cpu_id as int].petted()
                }),
            ),
    {
        if let Some(cpu) = self.try_get_mut(cpu_id) {
            cpu.pet_with_timestamp(timestamp_ns);
        }
    }

    /// Touch softlockup timestamp for a CPU (watchdog thread).
    pub fn touch_softlockup(&mut self, cpu_id: usize, timestamp_ns: u64)
        ensures
            final(self)@ == with_cpu(
                old(self)@,
                cpu_id,
                (CpuModel { soft_timestamp: timestamp_ns, ..old(self)@[cpu_id as int] }),
            ),
    {
        if let Some(cpu) = self.try_get_mut(cpu_id) {
            cpu.touch_softlockup(timestamp_ns);
        }
    }

    /// Timer tick for a CPU (called from timer interrupt).
    pub fn timer_tick(&mut self, cpu_id: usize)
        ensures
            final(self)@ == with_cpu(old(self)@, cpu_id, old(self)@[cpu_id as int].ticked()),
    {
        if let Some(cpu) = self.try_get_mut(cpu_id) {
            cpu.timer_tick();
        }
    }

    /// Check heartbeat for a specific CPU. CPUs that do not exist are "healthy".
    pub fn check_heartbeat(&mut self, cpu_id: usize) -> (healthy: bool)
        ensures
            healthy == (cpu_id < MAX_CPUS ==> old(self)@[cpu_id as int].beating()),
            final(self)@ == with_cpu(
                old(self)@,
                cpu_id,
                old(self)@[cpu_id as int].heartbeat_checked(),
            ),
    {
        match self.try_get_mut(cpu_id) {
            Some(cpu) => cpu.check_heartbeat(),
            None => true,
        }
    }

    /// Check all CPUs and return a bitmap of unhealthy ones.
    ///
    /// Bit N is set if CPU N failed the heartbeat check.
    pub fn check_all(&mut self, num_cpus: usize) -> (unhealthy: u64)
        ensures
            forall|i: int|
                0 <= i < MAX_CPUS ==> #[trigger] cpu_bit(unhealthy, i) == (i < num_cpus && !old(
                    self,
                )@[i].beating()),
            final(self)@ == Seq::new(
                MAX_CPUS as nat,
                |i: int|
                    if i < num_cpus {
                        old(self)@[i].heartbeat_checked()
                    } else {
                        old(self)@[i]
                    },
            ),
    {
        let mut unhealthy: u64 = 0;
        let mut i: usize = 0;
        proof {
            assert forall|j: int| 0 <= j < MAX_CPUS implies !(#[trigger] cpu_bit(0, j)) by {
                let b = j as u64;
                assert(0u64 & (1u64 << b) == 0) by (bit_vector);
            }
        }
        while i < num_cpus && i < MAX_CPUS
            invariant
                i <= MAX_CPUS,
                i <= num_cpus,
                forall|j: int|
                    0 <= j < MAX_CPUS ==> #[trigger] cpu_bit(unhealthy, j) == (j < i && !old(
                        self,
                    )@[j].beating()),
                self@ == Seq::new(
                    MAX_CPUS as nat,
                    |j: int|
                        if j < i {
                            old(self)@[j].heartbeat_checked()
                        } else {
                            old(self)@[j]
                        },
                ),
            decreases MAX_CPUS - i,
        {
            let ghost before = unhealthy;
            if !self.check_heartbeat(i) {
                unhealthy = unhealthy | (1u64 << (i as u64));
                proof {
                    assert forall|j: int| 0 <= j < MAX_CPUS implies #[trigger] cpu_bit(unhealthy, j)
                        == (cpu_bit(before, j) || j == i) by {
                        let a = i as u64;
                        let b = j as u64;
                        assert(((before | (1u64 << a)) & (1u64 << b) != 0) == (before & (1u64 << b)
                            != 0 || a == b)) by (bit_vector)
                            requires
                                a < 64,
                                b < 64,
                        ;
                    }
                }
            }
            i = i + 1;
            proof {
                assert forall|j: int| 0 <= j < MAX_CPUS implies #[trigger] cpu_bit(unhealthy, j)
                    == (j < i && !old(self)@[j].beating()) by {
                    assert(cpu_bit(before, j) == (j < i - 1 && !old(self)@[j].beating()));
                }
                assert(self@ =~= Seq::new(
                    MAX_CPUS as nat,
                    |j: int|
                        if j < i {
                            old(self)@[j].heartbeat_checked()
                        } else {
                            old(self)@[j]
                        },
                ));
            }
        }
        assert(self@ =~= Seq::new(
            MAX_CPUS as nat,
            |j: int|
                if j < num_cpus {
                    old(self)@[j].heartbeat_checked()
                } else {
                    old(self)@[j]
                },
        ));
        unhealthy
    }

    /// Check health of a specific CPU. A CPU that does not exist is healthy.
    pub fn check_cpu_health(
        &mut self,
        cpu_id: usize,
        now_ns: u64,
        soft_thresh_ns: u64,
        lock_thresh_ns: u64,
    ) -> (health: CpuHealth)
        ensures
            health == (if cpu_id < MAX_CPUS {
                old(self)@[cpu_id as int].diagnosis(now_ns, soft_thresh_ns, lock_thresh_ns)
            } else {
                CpuHealth::Healthy
            }),
            final(self)@ == with_cpu(
                old(self)@,
                cpu_id,
                old(self)@[cpu_id as int].health_checked(now_ns, soft_thresh_ns, lock_thresh_ns),
            ),
    {
        match self.try_get_mut(cpu_id) {
            Some(cpu) => cpu.check_health(now_ns, soft_thresh_ns, lock_thresh_ns),
            None => CpuHealth::Healthy,
        }
    }

    /// Reset all CPU states.
    pub fn reset_all(&mut self)
        ensures
            final(self)@ == Seq::new(MAX_CPUS as nat, |i: int| CpuModel::initial()),
    {
        *self = Self::new();
    }

    /// Get all states with their CPU IDs, in order.
    pub fn iter(&self) -> (cpus: Vec<(usize, &PerCpuState)>)
        ensures
            cpus@.len() == MAX_CPUS,
            forall|i: int|
                0 <= i < MAX_CPUS ==> (#[trigger] cpus@[i]).0 == i && cpus@[i].1@ == self@[i],
    {
        let mut cpus: Vec<(usize, &PerCpuState)> = Vec::new();
        let mut i: usize = 0;
        while i < MAX_CPUS
            invariant
                i <= MAX_CPUS,
                cpus@.len() == i,
                forall|j: int|
                    0 <= j < i ==> (#[trigger] cpus@[j]).0 == j && cpus@[j].1@ == self@[j],
            decreases MAX_CPUS - i,
        {
            cpus.push((i, &self.states[i]));
            i = i + 1;
        }
        cpus
    }
}

impl Default for PerCpuArray {
    fn default() -> (cpus: Self)
        ensures
            cpus@ == Seq::new(MAX_CPUS as nat, |i: int| CpuModel::initial()),
    {
        Self::new()
    }
}

/// Convenience function to pet the watchdog for a CPU.
pub fn pet(cpus: &mut PerCpuArray, cpu_id: usize)
    ensures
        final(cpus)@ == with_cpu(old(cpus)@, cpu_id, old(cpus)@[cpu_id as int].petted()),
{
    cpus.pet(cpu_id);
}

/// Convenience function to pet with timestamp.
pub fn pet_with_timestamp(cpus: &mut PerCpuArray, cpu_id: usize, timestamp_ns: u64)
    ensures
        final(cpus)@ == with_cpu(
            old(cpus)@,
            cpu_id,
            (CpuModel { last_update_ns: timestamp_ns, ..old(cpus)@[cpu_id as int].petted() }),
        ),
{
    cpus.pet_with_timestamp(cpu_id, timestamp_ns);
}

/// Touch softlockup timestamp (called from watchdog thread).
pub fn touch_softlockup(cpus: &mut PerCpuArray, cpu_id: usize, timestamp_ns: u64)
    ensures
        final(cpus)@ == with_cpu(
            old(cpus)@,
            cpu_id,
            (CpuModel { soft_timestamp: timestamp_ns, ..old(cpus)@[cpu_id as int] }),
        ),
{
    cpus.touch_softlockup(cpu_id, timestamp_ns);
}

/// Timer tick (called from timer interrupt).
pub fn timer_tick(cpus: &mut PerCpuArray, cpu_id: usize)
    ensures
        final(cpus)@ == with_cpu(old(cpus)@, cpu_id, old(cpus)@[cpu_id as int].ticked()),
{
    cpus.timer_tick(cpu_id);
}

/// Record lock acquisition.
pub fn lock_acquired(cpus: &mut PerCpuArray, cpu_id: usize, timestamp_ns: u64)
    ensures
        final(cpus)@ == with_cpu(
            old(cpus)@,
            cpu_id,
            old(cpus)@[cpu_id as int].locked(timestamp_ns),
        ),
{
    if let Some(cpu) = cpus.try_get_mut(cpu_id) {
        cpu.lock_acquired(timestamp_ns);
    }
}

/// Record lock release.
pub fn lock_released(cpus: &mut PerCpuArray, cpu_id: usize)
    ensures
        final(cpus)@ == with_cpu(old(cpus)@, cpu_id, old(cpus)@[cpu_id as int].unlocked()),
{
    if let Some(cpu) = cpus.try_get_mut(cpu_id) {
        cpu.lock_released();
    }
}

/// Check if a CPU's heartbeat is healthy.
pub fn check_cpu(cpus: &mut PerCpuArray, cpu_id: usize) -> (healthy: bool)
    ensures
        healthy == (cpu_id < MAX_CPUS ==> old(cpus)@[cpu_id as int].beating()),
        final(cpus)@ == with_cpu(
            old(cpus)@,
            cpu_id,
            old(cpus)@[cpu_id as int].heartbeat_checked(),
        ),
{
    cpus.check_heartbeat(cpu_id)
}

/// Check comprehensive health of a CPU, with the default thresholds.
pub fn check_cpu_health(cpus: &mut PerCpuArray, cpu_id: usize, now_ns: u64) -> (health: CpuHealth)
    ensures
        health == (if cpu_id < MAX_CPUS {
            old(cpus)@[cpu_id as int].diagnosis(
                now_ns,
                DEFAULT_SOFTLOCKUP_THRESH_NS,
                DEFAULT_LOCK_TIMEOUT_NS,
            )
        } else {
            CpuHealth::Healthy
        }),
        final(cpus)@ == with_cpu(
            old(cpus)@,
            cpu_id,
            old(cpus)@[cpu_id as int].health_checked(
                now_ns,
                DEFAULT_SOFTLOCKUP_THRESH_NS,
                DEFAULT_LOCK_TIMEOUT_NS,
            ),
        ),
{
    cpus.check_cpu_health(cpu_id, now_ns, DEFAULT_SOFTLOCKUP_THRESH_NS, DEFAULT_LOCK_TIMEOUT_NS)
}

/// Every status has its own raw value, so that converting back gives the same status.
pub proof fn law_health_codes(a: CpuHealth, b: CpuHealth)
    ensures
        a.code() <= 3,
        a.code() == b.code() ==> a == b,
{
}

/// Every state has its own raw value, so that converting back gives the same state.
pub proof fn law_state_codes(a: WatchdogState, b: WatchdogState)
    ensures
        a.code() <= 4,
        a.code() == b.code() ==> a == b,
{
}

/// What is done to one CPU leaves the others as they are.
pub proof fn law_cpus_are_isolated(cpus: PerCpuArray, cpu_id: usize, cpu: CpuModel, other: int)
    requires
        0 <= other < MAX_CPUS,
        other != cpu_id,
    ensures
        with_cpu(cpus@, cpu_id, cpu)[other] == cpus@[other],
{
}

/// The state of a CPU after `count` heartbeats.
pub open spec fn after_pets(cpu: CpuModel, count: nat) -> CpuModel
    decreases count,
{
    if count == 0 {
        cpu
    } else {
        after_pets(cpu, (count - 1) as nat).petted()
    }
}

/// The state of a CPU after `count` timer interrupts.
pub open spec fn after_ticks(cpu: CpuModel, count: nat) -> CpuModel
    decreases count,
{
    if count == 0 {
        cpu
    } else {
        after_ticks(cpu, (count - 1) as nat).ticked()
    }
}

/// Something that happens to the locks of a CPU.
pub enum LockEvent {
    /// A lock is acquired at this time.
    Acquired(u64),
    /// A lock is released.
    Released,
}

/// The state of a CPU after `events`, one after the other.
pub open spec fn after_lock_events(cpu: CpuModel, events: Seq<LockEvent>) -> CpuModel
    decreases events.len(),
{
    if events.len() == 0 {
        cpu
    } else {
        let before = after_lock_events(cpu, events.drop_last());
        match events.last() {
            LockEvent::Acquired(timestamp_ns) => before.locked(timestamp_ns),
            LockEvent::Released => before.unlocked(),
        }
    }
}

/// How many locks are held after the first `count` of `events`.
pub open spec fn held_after(cpu: CpuModel, events: Seq<LockEvent>, count: int) -> u32 {
    after_lock_events(cpu, events.take(count)).locks_held
}

/// No lock is released while none is held.
pub open spec fn only_held_released(cpu: CpuModel, events: Seq<LockEvent>) -> bool {
    forall|k: int|
        0 <= k < events.len() && (#[trigger] events[k]) is Released ==> held_after(cpu, events, k)
            > 0
}

/// Event `first` took the first lock of those held now: no lock was held before it, and some
/// lock ever since.
pub open spec fn took_first_lock(cpu: CpuModel, events: Seq<LockEvent>, first: int) -> bool {
    &&& 0 <= first < events.len()
    &&& events[first] is Acquired
    &&& held_after(cpu, events, first) == 0
    &&& forall|k: int| first < k <= events.len() ==> #[trigger] held_after(cpu, events, k) > 0
}

proof fn lemma_after_pets(cpu: CpuModel, count: nat)
    ensures
        after_pets(cpu, count) == (CpuModel {
            heartbeat: ((cpu.heartbeat + count) % (u64::MAX + 1)) as u64,
            ..cpu
        }),
    decreases count,
{
    if count > 0 {
        lemma_after_pets(cpu, (count - 1) as nat);
    }
}

proof fn lemma_after_ticks(cpu: CpuModel, count: nat)
    ensures
        after_ticks(cpu, count) == (CpuModel {
            ticks: ((cpu.ticks + count) % (u32::MAX + 1)) as u32,
            ..cpu
        }),
    decreases count,
{
    if count > 0 {
        lemma_after_ticks(cpu, (count - 1) as nat);
    }
}

/// A CPU passes a heartbeat check just if it has been petted since the last one, unless it was
/// petted so often that the counter came round to where it was.
pub proof fn law_heartbeat_check(cpu: CpuModel, pets: nat)
    requires
        pets <= u64::MAX,
    ensures
        after_pets(cpu.heartbeat_checked(), pets).beating() <==> pets > 0,
{
    lemma_after_pets(cpu.heartbeat_checked(), pets);
    let range = (u64::MAX + 1) as int;
    let a = cpu.heartbeat as int;
    if 0 < pets {
        if a + pets < range {
            assert((a + pets) % range == a + pets);
        } else {
            assert((a + pets) % range == a + pets - range);
        }
    }
}

/// A CPU whose timer interrupts go on after a health check is not found in a hardlockup by the
/// next one, unless there were so many that the counter came round to where it was.
pub proof fn law_ticking_is_no_hardlockup(cpu: CpuModel, ticks: nat)
    requires
        0 < ticks <= u32::MAX,
    ensures
        !after_ticks((CpuModel { ticks_saved: cpu.ticks, ..cpu }), ticks).hard_locked(),
{
    let checked = CpuModel { ticks_saved: cpu.ticks, ..cpu };
    lemma_after_ticks(checked, ticks);
    let range = (u32::MAX + 1) as int;
    let a = cpu.ticks as int;
    if a + ticks < range {
        assert((a + ticks) % range == a + ticks);
    } else {
        assert((a + ticks) % range == a + ticks - range);
    }
}

/// A CPU that has had timer interrupts and gets none between two health checks is found in a
/// hardlockup by the second one, whatever else the thresholds say.
pub proof fn law_stopped_timer_is_a_hardlockup(
    cpu: CpuModel,
    first_ns: u64,
    second_ns: u64,
    soft_thresh_ns: u64,
    lock_thresh_ns: u64,
)
    requires
        cpu.ticks != 0,
    ensures
        cpu.health_checked(first_ns, soft_thresh_ns, lock_thresh_ns).diagnosis(
            second_ns,
            soft_thresh_ns,
            lock_thresh_ns,
        ) == CpuHealth::HardLockup,
{
}

/// A softlockup is found just when the watchdog thread's last run, at a time other than zero,
/// lies back more than the threshold.
pub proof fn law_softlockup_after_touch(
    cpu: CpuModel,
    touched_ns: u64,
    now_ns: u64,
    threshold_ns: u64,
)
    requires
        touched_ns != 0,
    ensures
        (CpuModel { soft_timestamp: touched_ns, ..cpu }).soft_locked(now_ns, threshold_ns) <==> now_ns
            > touched_ns + threshold_ns,
{
}

/// A watchdog thread that has never run is not found in a softlockup.
pub proof fn law_no_softlockup_before_first_touch(now_ns: u64, threshold_ns: u64)
    ensures
        !CpuModel::initial().soft_locked(now_ns, threshold_ns),
{
}

/// Releasing a lock undoes acquiring it; the time is cleared with the last lock.
pub proof fn law_release_undoes_acquire(cpu: CpuModel, timestamp_ns: u64)
    ensures
        cpu.locked(timestamp_ns).unlocked() == (CpuModel {
            earliest_lock_time: if cpu.locks_held == 0 {
                0
            } else {
                cpu.earliest_lock_time
            },
            ..cpu
        }),
{
}

/// Locks are timed from the first of those held, in any sequence of acquisitions and releases in
/// which no lock is released while none is held: there is an event that took it, its time is the
/// one recorded, and a deadlock is suspected just when that time, if not zero, lies back more
/// than the threshold.
pub proof fn law_locks_timed_from_first(
    cpu: CpuModel,
    events: Seq<LockEvent>,
    now_ns: u64,
    threshold_ns: u64,
)
    requires
        cpu.locks_held == 0,
        only_held_released(cpu, events),
        events.len() <= u32::MAX,
    ensures
        ({
            let after = after_lock_events(cpu, events);
            after.locks_held > 0 ==> exists|first: int|
                {
                    let since_ns = events[first]->Acquired_0;
                    &&& #[trigger] took_first_lock(cpu, events, first)
                    &&& after.earliest_lock_time == since_ns
                    &&& after.deadlocked(now_ns, threshold_ns) <==> since_ns != 0 && now_ns
                        > since_ns + threshold_ns
                }
        }),
{
    if after_lock_events(cpu, events).locks_held > 0 {
        let first = lemma_first_lock(cpu, events);
        assert(took_first_lock(cpu, events, first));
    }
}

/// The event that took the first lock of those held, and the time recorded for it.
proof fn lemma_first_lock(cpu: CpuModel, events: Seq<LockEvent>) -> (first: int)
    requires
        cpu.locks_held == 0,
        only_held_released(cpu, events),
        events.len() <= u32::MAX,
        after_lock_events(cpu, events).locks_held > 0,
    ensures
        took_first_lock(cpu, events, first),
        after_lock_events(cpu, events).earliest_lock_time == events[first]->Acquired_0,
    decreases events.len(),
{
    let before = events.drop_last();
    let n = before.len() as int;
    lemma_without_last(cpu, events);
    lemma_locks_held_bound(cpu, before);
    if held_after(cpu, events, n) == 0 {
        assert(events[n] == events.last());
        n
    } else {
        let first = lemma_first_lock(cpu, before);
        assert forall|k: int| first < k <= events.len() implies #[trigger] held_after(
            cpu,
            events,
            k,
        ) > 0 by {
            if k <= n {
                assert(held_after(cpu, before, k) > 0);
            }
        }
        first
    }
}

/// What holds before the last event.
proof fn lemma_without_last(cpu: CpuModel, events: Seq<LockEvent>)
    requires
        events.len() > 0,
    ensures
        only_held_released(cpu, events) ==> only_held_released(cpu, events.drop_last()),
        held_after(cpu, events, events.len() - 1) == after_lock_events(
            cpu,
            events.drop_last(),
        ).locks_held,
        held_after(cpu, events, events.len() as int) == after_lock_events(cpu, events).locks_held,
        forall|k: int|
            0 <= k < events.len() ==> #[trigger] held_after(cpu, events, k) == held_after(
                cpu,
                events.drop_last(),
                k,
            ),
{
    let before = events.drop_last();
    assert(events.take(events.len() - 1) =~= before);
    assert(events.take(events.len() as int) =~= events);
    assert forall|k: int| 0 <= k < events.len() implies #[trigger] held_after(cpu, events, k)
        == held_after(cpu, before, k) by {
        assert(before.take(k) =~= events.take(k));
    }
    if only_held_released(cpu, events) {
        assert forall|k: int| 0 <= k < before.len() && (#[trigger] before[k]) is Released implies
            held_after(cpu, before, k) > 0 by {
            assert(events[k] is Released);
            assert(held_after(cpu, events, k) > 0);
        }
    }
}

/// No more locks are held than there were events.
proof fn lemma_locks_held_bound(cpu: CpuModel, events: Seq<LockEvent>)
    requires
        cpu.locks_held == 0,
        only_held_released(cpu, events),
        events.len() <= u32::MAX,
    ensures
        after_lock_events(cpu, events).locks_held <= events.len(),
    decreases events.len(),
{
    if events.len() > 0 {
        lemma_without_last(cpu, events);
        lemma_locks_held_bound(cpu, events.drop_last());
        assert(events[events.len() - 1] == events.last());
    }
}

/// A CPU that holds no lock is not suspected of a deadlock.
pub proof fn law_no_deadlock_without_locks(cpu: CpuModel, now_ns: u64, threshold_ns: u64)
    requires
        cpu.locks_held == 0,
    ensures
        !cpu.deadlocked(now_ns, threshold_ns),
{
}

/// The diagnosis is "healthy" just if there is no lockup of either kind and no suspected
/// deadlock, and otherwise names the gravest of them.
pub proof fn law_diagnosis_names_the_gravest(
    cpu: CpuModel,
    now_ns: u64,
    soft_thresh_ns: u64,
    lock_thresh_ns: u64,
)
    ensures
        ({
            let hard = cpu.hard_locked();
            let soft = cpu.soft_locked(now_ns, soft_thresh_ns);
            let dead = cpu.deadlocked(now_ns, lock_thresh_ns);
            let found = cpu.diagnosis(now_ns, soft_thresh_ns, lock_thresh_ns);
            &&& (found == CpuHealth::HardLockup <==> hard)
            &&& (found == CpuHealth::SoftLockup <==> soft && !hard)
            &&& (found == CpuHealth::PossibleDeadlock <==> dead && !soft && !hard)
            &&& (found == CpuHealth::Healthy <==> !dead && !soft && !hard)
        }),
{
}

} // verus!
