//! NMI (Non-Maskable Interrupt) source abstraction.
//!
//! This module defines the trait for NMI sources that can be used to trigger watchdog checks,
//! and the bookkeeping of two of them, SDEI and PMU overflow.
//!
//! An NMI source does not touch the hardware itself. Where an operation needs the hardware, it
//! returns a [`HardwareRequest`]; the caller carries it out and reports back with
//! [`NmiSource::complete`], which says how the operation ended.
//!
//! # Lock-free Requirement
//!
//! All NMI handlers MUST be lock-free. The handler runs in a special context
//! where acquiring any lock could cause deadlock. Only use:
//! - Atomic operations
//! - Per-CPU data structures
//! - Direct memory/register access

use vstd::prelude::*;

verus! {

/// Maximum number of CPUs supported.
pub const MAX_CPUS: usize = 64;

/// NMI context containing interrupted CPU state.
///
/// This is populated when an NMI fires and passed to the handler.
/// All fields are read-only snapshots of the interrupted state.
#[derive(Debug, Clone, Copy)]
pub struct NmiContext {
    /// CPU ID that received the NMI.
    pub cpu_id: usize,
    /// Program counter at interrupt.
    pub pc: usize,
    /// Stack pointer at interrupt.
    pub sp: usize,
    /// Link register at interrupt.
    pub lr: usize,
    /// Frame pointer at interrupt.
    pub fp: usize,
    /// Processor state at interrupt.
    pub pstate: u64,
    /// Timestamp (nanoseconds) when NMI occurred.
    pub timestamp_ns: u64,
}

impl NmiContext {
    /// A context of which only the CPU and the basic registers are known.
    pub open spec fn basic(cpu_id: usize, pc: usize, sp: usize, lr: usize, fp: usize) -> Self {
        NmiContext { cpu_id, pc, sp, lr, fp, pstate: 0, timestamp_ns: 0 }
    }

    /// Create a new empty NMI context.
    pub fn empty() -> (ctx: Self)
        ensures
            ctx == Self::basic(0, 0, 0, 0, 0),
    {
        Self::new(0, 0, 0, 0, 0)
    }

    /// Create context with basic information.
    pub fn new(cpu_id: usize, pc: usize, sp: usize, lr: usize, fp: usize) -> (ctx: Self)
        ensures
            ctx == Self::basic(cpu_id, pc, sp, lr, fp),
    {
        NmiContext { cpu_id, pc, sp, lr, fp, pstate: 0, timestamp_ns: 0 }
    }
}

impl Default for NmiContext {
    fn default() -> (ctx: Self)
        ensures
            ctx == Self::basic(0, 0, 0, 0, 0),
    {
        Self::empty()
    }
}

/// Error type for NMI operations.
#[derive(Debug, Clone, Copy, PartialEq, Eq, Structural)]
pub enum NmiError {
    /// NMI source not available on this platform.
    NotAvailable,
    /// NMI source not initialized.
    NotInitialized,
    /// NMI source already initialized.
    AlreadyInitialized,
    /// Invalid configuration parameter.
    InvalidConfig,
    /// Handler already registered.
    HandlerExists,
    /// No handler registered.
    NoHandler,
    /// Operation not supported.
    NotSupported,
    /// Hardware error.
    HardwareError,
}

impl NmiError {
    /// The error in words.
    pub open spec fn text(self) -> Seq<char> {
        match self {
            NmiError::NotAvailable => "NMI source not available"@,
            NmiError::NotInitialized => "NMI source not initialized"@,
            NmiError::AlreadyInitialized => "NMI source already initialized"@,
            NmiError::InvalidConfig => "Invalid configuration"@,
            NmiError::HandlerExists => "Handler already registered"@,
            NmiError::NoHandler => "No handler registered"@,
            NmiError::NotSupported => "Operation not supported"@,
            NmiError::HardwareError => "Hardware error"@,
        }
    }

    /// Describe the error.
    pub fn message(&self) -> (message: &'static str)
        ensures
            message@ == self.text(),
    {
        match self {
            NmiError::NotAvailable => "NMI source not available",
            NmiError::NotInitialized => "NMI source not initialized",
            NmiError::AlreadyInitialized => "NMI source already initialized",
            NmiError::InvalidConfig => "Invalid configuration",
            NmiError::HandlerExists => "Handler already registered",
            NmiError::NoHandler => "No handler registered",
            NmiError::NotSupported => "Operation not supported",
            NmiError::HardwareError => "Hardware error",
        }
    }
}

/// Result type for NMI operations.
pub type NmiResult<T> = Result<T, NmiError>;

/// What an NMI source needs from the hardware behind it.
#[derive(Debug, Clone, Copy, PartialEq, Eq, Structural)]
pub enum HardwareRequest {
    /// Configure the hardware, without starting to trigger.
    Initialize,
    /// Start triggering.
    Enable,
    /// Stop triggering.
    Disable,
}

/// Trait for NMI sources.
///
/// Implementors provide a mechanism to trigger NMI-like interrupts
/// at regular intervals for watchdog purposes. `H` is the type of the handler, which is called
/// with the CPU that received the NMI and the context of the interrupted state.
///
/// The operations that need the hardware return a request to it, to be answered with
/// [`NmiSource::complete`]; where they return none, they are done.
pub trait NmiSource<H>: Send + Sync {
    /// Initialize the NMI source.
    ///
    /// This should configure the hardware but not start triggering.
    fn init(&mut self) -> Option<HardwareRequest>;

    /// Set the NMI handler callback.
    ///
    /// Only one handler can be registered at a time.
    fn set_handler(&mut self, handler: H) -> NmiResult<()>;

    /// Clear the registered handler.
    fn clear_handler(&mut self) -> NmiResult<()>;

    /// Enable NMI generation.
    ///
    /// After this has completed, NMIs will be triggered at the configured period.
    fn enable(&mut self) -> Option<HardwareRequest>;

    /// Disable NMI generation.
    fn disable(&mut self) -> Option<HardwareRequest>;

    /// Complete an operation: `done` tells whether the hardware did what was requested.
    fn complete(&mut self, request: HardwareRequest, done: bool) -> NmiResult<()>;

    /// Check if NMI generation is currently enabled.
    fn is_enabled(&self) -> bool;

    /// Set the NMI trigger period in nanoseconds.
    ///
    /// The actual period may be approximate depending on hardware.
    fn set_period_ns(&mut self, period: u64) -> NmiResult<()>;

    /// Get the current configured period in nanoseconds.
    fn period_ns(&self) -> u64;

    /// Acknowledge/complete the NMI.
    ///
    /// Must be called at the end of NMI handling.
    fn acknowledge(&mut self);

    /// Get the name of this NMI source (for debugging).
    fn name(&self) -> &'static str;
}

/// What is recorded of an NMI source.
pub struct StorageModel<H> {
    /// The registered handler, if any.
    pub handler: Option<H>,
    /// Period in nanoseconds.
    pub period_ns: u64,
    /// Whether enabled.
    pub enabled: bool,
}

/// Storage for an NMI handler.
///
/// The handler MUST:
/// - Be completely lock-free (no mutexes, spinlocks, etc.)
/// - Use only atomic operations for shared data
/// - Complete quickly (avoid long computations)
/// - Not allocate memory
/// - Not call any function that may block
pub struct NmiHandlerStorage<H> {
    /// The registered handler.
    handler: Option<H>,
    /// Period in nanoseconds.
    period_ns: u64,
    /// Whether enabled.
    enabled: bool,
}

impl<H> View for NmiHandlerStorage<H> {
    type V = StorageModel<H>;

    closed spec fn view(&self) -> StorageModel<H> {
        StorageModel { handler: self.handler, period_ns: self.period_ns, enabled: self.enabled }
    }
}

impl<H> NmiHandlerStorage<H> {
    /// Create new empty storage.
    pub fn new() -> (storage: Self)
        ensures
            storage@ == (StorageModel::<H> { handler: None, period_ns: 0, enabled: false }),
    {
        NmiHandlerStorage { handler: None, period_ns: 0, enabled: false }
    }

    /// Set the handler. It replaces the one that was registered before.
    pub fn set_handler(&mut self, handler: H) -> (res: NmiResult<()>)
        ensures
            res == Ok::<(), NmiError>(()),
            final(self)@ == (StorageModel { handler: Some(handler), ..old(self)@ }),
    {
        self.handler = Some(handler);
        Ok(())
    }

    /// Clear the handler.
    pub fn clear_handler(&mut self) -> (res: NmiResult<()>)
        ensures
            res == Ok::<(), NmiError>(()),
            final(self)@ == (StorageModel { handler: None, ..old(self)@ }),
    {
        self.handler = None;
        Ok(())
    }

    /// Get the handler if registered.
    pub fn get_handler(&self) -> (handler: Option<&H>)
        ensures
            match handler {
                Some(handler) => self@.handler == Some(*handler),
                None => self@.handler is None,
            },
    {
        self.handler.as_ref()
    }

    /// Set enabled state.
    pub fn set_enabled(&mut self, enabled: bool)
        ensures
            final(self)@ == (StorageModel { enabled, ..old(self)@ }),
    {
        self.enabled = enabled;
    }

    /// Check if enabled.
    pub fn is_enabled(&self) -> (enabled: bool)
        ensures
            enabled == self@.enabled,
    {
        self.enabled
    }

    /// Set period.
    pub fn set_period_ns(&mut self, period: u64)
        ensures
            final(self)@ == (StorageModel { period_ns: period, ..old(self)@ }),
    {
        self.period_ns = period;
    }

    /// Get period.
    pub fn period_ns(&self) -> (period: u64)
        ensures
            period == self@.period_ns,
    {
        self.period_ns
    }
}

impl<H: Fn(usize, &NmiContext)> NmiHandlerStorage<H> {
    /// Invoke the handler if registered.
    pub fn invoke(&self, cpu_id: usize, ctx: &NmiContext)
        requires
            self@.handler matches Some(handler) ==> call_requires(handler, (cpu_id, ctx)),
        ensures
            self@.handler matches Some(handler) ==> call_ensures(handler, (cpu_id, ctx), ()),
    {
        if let Some(handler) = self.get_handler() {
            handler(cpu_id, ctx);
        }
    }
}

impl<H> Default for NmiHandlerStorage<H> {
    fn default() -> (storage: Self)
        ensures
            storage@ == (StorageModel::<H> { handler: None, period_ns: 0, enabled: false }),
    {
        Self::new()
    }
}

/// SDEI-based NMI source.
pub struct SdeiNmi<H> {
    storage: NmiHandlerStorage<H>,
}

impl<H> View for SdeiNmi<H> {
    type V = StorageModel<H>;

    closed spec fn view(&self) -> StorageModel<H> {
        self.storage@
    }
}

impl<H> SdeiNmi<H> {
    /// Create a new SDEI NMI source.
    pub fn new() -> (source: Self)
        ensures
            source@ == (StorageModel::<H> { handler: None, period_ns: 0, enabled: false }),
    {
        SdeiNmi { storage: NmiHandlerStorage::new() }
    }
}

impl<H: Send + Sync> NmiSource<H> for SdeiNmi<H> {
    fn init(&mut self) -> (request: Option<HardwareRequest>)
        ensures
            request == Some(HardwareRequest::Initialize),
            final(self)@ == old(self)@,
    {
        Some(HardwareRequest::Initialize)
    }

    fn set_handler(&mut self, handler: H) -> (res: NmiResult<()>)
        ensures
            res == Ok::<(), NmiError>(()),
            final(self)@ == (StorageModel { handler: Some(handler), ..old(self)@ }),
    {
        self.storage.set_handler(handler)
    }

    fn clear_handler(&mut self) -> (res: NmiResult<()>)
        ensures
            res == Ok::<(), NmiError>(()),
            final(self)@ == (StorageModel { handler: None, ..old(self)@ }),
    {
        self.storage.clear_handler()
    }

    /// For SDEI, enable happens when the event is registered and enabled; the actual triggering
    /// is done by signalling the event. So there is nothing to request here.
    fn enable(&mut self) -> (request: Option<HardwareRequest>)
        ensures
            request == None::<HardwareRequest>,
            final(self)@ == (StorageModel { enabled: true, ..old(self)@ }),
    {
        self.storage.set_enabled(true);
        None
    }

    fn disable(&mut self) -> (request: Option<HardwareRequest>)
        ensures
            request == Some(HardwareRequest::Disable),
            final(self)@ == (StorageModel { enabled: false, ..old(self)@ }),
    {
        self.storage.set_enabled(false);
        Some(HardwareRequest::Disable)
    }

    fn complete(&mut self, request: HardwareRequest, done: bool) -> (res: NmiResult<()>)
        ensures
            res == completion(request, done),
            final(self)@ == old(self)@,
    {
        if done {
            Ok(())
        } else {
            match request {
                HardwareRequest::Initialize => Err(NmiError::NotAvailable),
                HardwareRequest::Enable => Err(NmiError::HardwareError),
                HardwareRequest::Disable => Err(NmiError::HardwareError),
            }
        }
    }

    fn is_enabled(&self) -> (enabled: bool)
        ensures
            enabled == self@.enabled,
    {
        self.storage.is_enabled()
    }

    /// SDEI doesn't have built-in periodic triggering. The period is stored for informational
    /// purposes; actual triggering needs a timer.
    fn set_period_ns(&mut self, period: u64) -> (res: NmiResult<()>)
        ensures
            res == Ok::<(), NmiError>(()),
            final(self)@ == (StorageModel { period_ns: period, ..old(self)@ }),
    {
        self.storage.set_period_ns(period);
        Ok(())
    }

    fn period_ns(&self) -> (period: u64)
        ensures
            period == self@.period_ns,
    {
        self.storage.period_ns()
    }

    /// SDEI completion is handled by the low-level handler.
    fn acknowledge(&mut self)
        ensures
            *final(self) == *old(self),
    {
    }

    fn name(&self) -> (name: &'static str)
        ensures
            name@ == "SDEI"@,
    {
        "SDEI"
    }
}

impl<H> Default for SdeiNmi<H> {
    fn default() -> (source: Self)
        ensures
            source@ == (StorageModel::<H> { handler: None, period_ns: 0, enabled: false }),
    {
        Self::new()
    }
}

/// How an operation ends that made `request` of the hardware.
pub open spec fn completion(request: HardwareRequest, done: bool) -> NmiResult<()> {
    if done {
        Ok(())
    } else {
        match request {
            HardwareRequest::Initialize => Err(NmiError::NotAvailable),
            HardwareRequest::Enable => Err(NmiError::HardwareError),
            HardwareRequest::Disable => Err(NmiError::HardwareError),
        }
    }
}

/// PMU overflow-based NMI source.
pub struct PmuNmiSource<H> {
    /// Number of cycles from one overflow to the next.
    threshold: u64,
    storage: NmiHandlerStorage<H>,
}

impl<H> View for PmuNmiSource<H> {
    type V = StorageModel<H>;

    closed spec fn view(&self) -> StorageModel<H> {
        self.storage@
    }
}

impl<H> PmuNmiSource<H> {
    /// The cycle threshold of the source.
    pub closed spec fn cycles(&self) -> u64 {
        self.threshold
    }

    /// Create a new PMU NMI source with the given cycle threshold.
    pub fn new(threshold: u64) -> (source: Self)
        ensures
            source.cycles() == threshold,
            source@ == (StorageModel::<H> { handler: None, period_ns: 0, enabled: false }),
    {
        PmuNmiSource { threshold, storage: NmiHandlerStorage::new() }
    }

    /// Get the cycle threshold, to set up the hardware's cycle counter with.
    pub fn threshold(&self) -> (threshold: u64)
        ensures
            threshold == self.cycles(),
    {
        self.threshold
    }
}

impl<H: Fn(usize, &NmiContext)> PmuNmiSource<H> {
    /// Handle PMU overflow: `overflowed` tells whether the hardware found one to handle.
    ///
    /// Call this from your interrupt handler.
    /// Returns true if overflow was handled.
    pub fn handle_overflow(&self, cpu_id: usize, overflowed: bool) -> (handled: bool)
        requires
            overflowed ==> (self@.handler matches Some(handler) ==> call_requires(
                handler,
                (cpu_id, &NmiContext::basic(cpu_id, 0, 0, 0, 0)),
            )),
        ensures
            handled == overflowed,
            overflowed ==> (self@.handler matches Some(handler) ==> call_ensures(
                handler,
                (cpu_id, &NmiContext::basic(cpu_id, 0, 0, 0, 0)),
                (),
            )),
    {
        if overflowed {
            // Create context and invoke handler
            let ctx = NmiContext::new(cpu_id, 0, 0, 0, 0);
            self.storage.invoke(cpu_id, &ctx);
            true
        } else {
            false
        }
    }
}

impl<H: Send + Sync> NmiSource<H> for PmuNmiSource<H> {
    fn init(&mut self) -> (request: Option<HardwareRequest>)
        ensures
            request == Some(HardwareRequest::Initialize),
            *final(self) == *old(self),
    {
        Some(HardwareRequest::Initialize)
    }

    fn set_handler(&mut self, handler: H) -> (res: NmiResult<()>)
        ensures
            res == Ok::<(), NmiError>(()),
            final(self)@ == (StorageModel { handler: Some(handler), ..old(self)@ }),
            final(self).cycles() == old(self).cycles(),
    {
        self.storage.set_handler(handler)
    }

    fn clear_handler(&mut self) -> (res: NmiResult<()>)
        ensures
            res == Ok::<(), NmiError>(()),
            final(self)@ == (StorageModel { handler: None, ..old(self)@ }),
            final(self).cycles() == old(self).cycles(),
    {
        self.storage.clear_handler()
    }

    /// The source counts as enabled once the hardware has been.
    fn enable(&mut self) -> (request: Option<HardwareRequest>)
        ensures
            request == Some(HardwareRequest::Enable),
            *final(self) == *old(self),
    {
        Some(HardwareRequest::Enable)
    }

    /// The source counts as disabled at once, whatever the hardware will answer.
    fn disable(&mut self) -> (request: Option<HardwareRequest>)
        ensures
            request == Some(HardwareRequest::Disable),
            final(self)@ == (StorageModel { enabled: false, ..old(self)@ }),
            final(self).cycles() == old(self).cycles(),
    {
        self.storage.set_enabled(false);
        Some(HardwareRequest::Disable)
    }

    fn complete(&mut self, request: HardwareRequest, done: bool) -> (res: NmiResult<()>)
        ensures
            res == completion(request, done),
            final(self)@ == (if request == HardwareRequest::Enable && done {
                (StorageModel { enabled: true, ..old(self)@ })
            } else {
                old(self)@
            }),
            final(self).cycles() == old(self).cycles(),
    {
        match request {
            HardwareRequest::Initialize => {
                if done {
                    Ok(())
                } else {
                    Err(NmiError::NotAvailable)
                }
            },
            HardwareRequest::Enable => {
                if done {
                    self.storage.set_enabled(true);
                    Ok(())
                } else {
                    Err(NmiError::HardwareError)
                }
            },
            HardwareRequest::Disable => {
                if done {
                    Ok(())
                } else {
                    Err(NmiError::HardwareError)
                }
            },
        }
    }

    fn is_enabled(&self) -> (enabled: bool)
        ensures
            enabled == self@.enabled,
    {
        self.storage.is_enabled()
    }

    /// The period is stored; turning it into cycles would take the CPU's frequency.
    fn set_period_ns(&mut self, period: u64) -> (res: NmiResult<()>)
        ensures
            res == Ok::<(), NmiError>(()),
            final(self)@ == (StorageModel { period_ns: period, ..old(self)@ }),
            final(self).cycles() == old(self).cycles(),
    {
        self.storage.set_period_ns(period);
        Ok(())
    }

    fn period_ns(&self) -> (period: u64)
        ensures
            period == self@.period_ns,
    {
        self.storage.period_ns()
    }

    /// PMU acknowledgment is handled with the overflow.
    fn acknowledge(&mut self)
        ensures
            *final(self) == *old(self),
    {
    }

    fn name(&self) -> (name: &'static str)
        ensures
            name@ == "PMU"@,
    {
        "PMU"
    }
}

} // verus!
