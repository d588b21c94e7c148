//! Laws on NMI contexts, handlers and sources.

use vstd::prelude::*;

use crate::nmi::{
    HardwareRequest, NmiContext, NmiError, NmiHandlerStorage, NmiResult, NmiSource, PmuNmiSource,
    SdeiNmi, StorageModel,
};

verus! {

/// A context has the CPU and the registers it is given, or zeros, and zeros for the rest.
pub proof fn law_contexts(
    cpu_id: usize,
    pc: usize,
    sp: usize,
    lr: usize,
    fp: usize,
    ctx: NmiContext,
    empty: NmiContext,
    by_default: NmiContext,
)
    requires
        call_ensures(NmiContext::new, (cpu_id, pc, sp, lr, fp), ctx),
        call_ensures(NmiContext::empty, (), empty),
        call_ensures(<NmiContext as Default>::default, (), by_default),
    ensures
        ctx.cpu_id == cpu_id,
        ctx.pc == pc,
        ctx.sp == sp,
        ctx.lr == lr,
        ctx.fp == fp,
        ctx.pstate == 0,
        ctx.timestamp_ns == 0,
        empty.cpu_id == 0,
        empty.pc == 0,
        empty.sp == 0,
        empty.lr == 0,
        empty.fp == 0,
        empty.pstate == 0,
        empty.timestamp_ns == 0,
        by_default == empty,
{
}

/// New storage has no handler, no period, and is not enabled.
pub proof fn law_new_storage<H>(storage: NmiHandlerStorage<H>, by_default: NmiHandlerStorage<H>)
    requires
        call_ensures(NmiHandlerStorage::<H>::new, (), storage),
        call_ensures(<NmiHandlerStorage::<H> as Default>::default, (), by_default),
    ensures
        storage@.handler is None,
        storage@.period_ns == 0,
        !storage@.enabled,
        by_default@ == storage@,
{
}

/// A handler that is set is the one there is, whichever there was; one that is cleared is gone.
/// The period and the enabled state become what they are set to. Nothing else changes.
pub proof fn law_storage_settings<H>(
    set: &mut NmiHandlerStorage<H>,
    handler: H,
    set_res: NmiResult<()>,
    cleared: &mut NmiHandlerStorage<H>,
    cleared_res: NmiResult<()>,
    switched: &mut NmiHandlerStorage<H>,
    enabled: bool,
    timed: &mut NmiHandlerStorage<H>,
    period: u64,
)
    requires
        call_ensures(NmiHandlerStorage::<H>::set_handler, (set, handler), set_res),
        call_ensures(NmiHandlerStorage::<H>::clear_handler, (cleared,), cleared_res),
        call_ensures(NmiHandlerStorage::<H>::set_enabled, (switched, enabled), ()),
        call_ensures(NmiHandlerStorage::<H>::set_period_ns, (timed, period), ()),
    ensures
        set_res is Ok,
        final(set)@ == (StorageModel { handler: Some(handler), ..old(set)@ }),
        cleared_res is Ok,
        final(cleared)@ == (StorageModel { handler: None, ..old(cleared)@ }),
        final(switched)@ == (StorageModel { enabled, ..old(switched)@ }),
        final(timed)@ == (StorageModel { period_ns: period, ..old(timed)@ }),
{
}

/// What is stored is what is read.
pub proof fn law_storage_readings<H>(
    storage: &NmiHandlerStorage<H>,
    handler: Option<&H>,
    enabled: bool,
    period: u64,
)
    requires
        call_ensures(NmiHandlerStorage::<H>::get_handler, (storage,), handler),
        call_ensures(NmiHandlerStorage::<H>::is_enabled, (storage,), enabled),
        call_ensures(NmiHandlerStorage::<H>::period_ns, (storage,), period),
    ensures
        handler is Some <==> storage@.handler is Some,
        handler matches Some(found) ==> storage@.handler == Some(*found),
        enabled == storage@.enabled,
        period == storage@.period_ns,
{
}

/// The handler, if there is one, is called with the CPU and the context it is to be called with.
pub proof fn law_invocation<H: Fn(usize, &NmiContext)>(
    storage: &NmiHandlerStorage<H>,
    cpu_id: usize,
    ctx: &NmiContext,
)
    requires
        storage@.handler matches Some(handler) ==> call_requires(handler, (cpu_id, ctx)),
        call_ensures(NmiHandlerStorage::<H>::invoke, (storage, cpu_id, ctx), ()),
    ensures
        storage@.handler matches Some(handler) ==> call_ensures(handler, (cpu_id, ctx), ()),
{
}

/// An overflow is handled just if there was one, by calling the handler, if there is one, with the
/// CPU and a context in which nothing but the CPU is known.
pub proof fn law_overflow<H: Fn(usize, &NmiContext)>(
    source: &PmuNmiSource<H>,
    cpu_id: usize,
    overflowed: bool,
    handled: bool,
    ctx: NmiContext,
)
    requires
        call_ensures(NmiContext::new, (cpu_id, 0, 0, 0, 0), ctx),
        overflowed ==> (source@.handler matches Some(handler) ==> call_requires(
            handler,
            (cpu_id, &ctx),
        )),
        call_ensures(PmuNmiSource::<H>::handle_overflow, (source, cpu_id, overflowed), handled),
    ensures
        handled == overflowed,
        overflowed ==> (source@.handler matches Some(handler) ==> call_ensures(
            handler,
            (cpu_id, &ctx),
            (),
        )),
{
}

/// A new source has no handler, no period, and is not enabled; the PMU's has the threshold it is
/// given.
pub proof fn law_new_sources<H>(
    sdei: SdeiNmi<H>,
    by_default: SdeiNmi<H>,
    threshold: u64,
    pmu: PmuNmiSource<H>,
    source: &PmuNmiSource<H>,
    cycles: u64,
)
    requires
        call_ensures(SdeiNmi::<H>::new, (), sdei),
        call_ensures(<SdeiNmi::<H> as Default>::default, (), by_default),
        call_ensures(PmuNmiSource::<H>::new, (threshold,), pmu),
        call_ensures(PmuNmiSource::<H>::threshold, (source,), cycles),
    ensures
        sdei@.handler is None,
        sdei@.period_ns == 0,
        !sdei@.enabled,
        by_default@ == sdei@,
        pmu@ == sdei@,
        pmu.cycles() == threshold,
        cycles == source.cycles(),
{
}

/// The SDEI source asks the hardware to be initialized and to be disabled, and enables itself
/// without it. It counts as enabled from enabling to disabling, whatever the hardware answers.
pub proof fn law_sdei_source<H: Send + Sync>(
    initialized: &mut SdeiNmi<H>,
    init: Option<HardwareRequest>,
    enabled: &mut SdeiNmi<H>,
    enable: Option<HardwareRequest>,
    disabled: &mut SdeiNmi<H>,
    disable: Option<HardwareRequest>,
    completed: &mut SdeiNmi<H>,
    request: HardwareRequest,
    done: bool,
    res: NmiResult<()>,
)
    requires
        call_ensures(<SdeiNmi::<H> as NmiSource<H>>::init, (initialized,), init),
        call_ensures(<SdeiNmi::<H> as NmiSource<H>>::enable, (enabled,), enable),
        call_ensures(<SdeiNmi::<H> as NmiSource<H>>::disable, (disabled,), disable),
        call_ensures(
            <SdeiNmi::<H> as NmiSource<H>>::complete,
            (completed, request, done),
            res,
        ),
    ensures
        init == Some(HardwareRequest::Initialize),
        final(initialized)@ == old(initialized)@,
        enable is None,
        final(enabled)@ == (StorageModel { enabled: true, ..old(enabled)@ }),
        disable == Some(HardwareRequest::Disable),
        final(disabled)@ == (StorageModel { enabled: false, ..old(disabled)@ }),
        final(completed)@ == old(completed)@,
        res is Ok <==> done,
        res matches Err(error) ==> error == (if request == HardwareRequest::Initialize {
            NmiError::NotAvailable
        } else {
            NmiError::HardwareError
        }),
{
}

/// The PMU source asks the hardware to be initialized, enabled and disabled. It counts as enabled
/// once the hardware has done so, and as disabled at once.
pub proof fn law_pmu_source<H: Send + Sync>(
    initialized: &mut PmuNmiSource<H>,
    init: Option<HardwareRequest>,
    enabled: &mut PmuNmiSource<H>,
    enable: Option<HardwareRequest>,
    disabled: &mut PmuNmiSource<H>,
    disable: Option<HardwareRequest>,
    completed: &mut PmuNmiSource<H>,
    request: HardwareRequest,
    done: bool,
    res: NmiResult<()>,
)
    requires
        call_ensures(<PmuNmiSource::<H> as NmiSource<H>>::init, (initialized,), init),
        call_ensures(<PmuNmiSource::<H> as NmiSource<H>>::enable, (enabled,), enable),
        call_ensures(<PmuNmiSource::<H> as NmiSource<H>>::disable, (disabled,), disable),
        call_ensures(
            <PmuNmiSource::<H> as NmiSource<H>>::complete,
            (completed, request, done),
            res,
        ),
    ensures
        init == Some(HardwareRequest::Initialize),
        final(initialized)@ == old(initialized)@,
        final(initialized).cycles() == old(initialized).cycles(),
        enable == Some(HardwareRequest::Enable),
        final(enabled)@ == old(enabled)@,
        final(enabled).cycles() == old(enabled).cycles(),
        disable == Some(HardwareRequest::Disable),
        final(disabled)@ == (StorageModel { enabled: false, ..old(disabled)@ }),
        final(disabled).cycles() == old(disabled).cycles(),
        final(completed)@ == (StorageModel {
            enabled: old(completed)@.enabled || (request == HardwareRequest::Enable && done),
            ..old(completed)@
        }),
        final(completed).cycles() == old(completed).cycles(),
        res is Ok <==> done,
        res matches Err(error) ==> error == (if request == HardwareRequest::Initialize {
            NmiError::NotAvailable
        } else {
            NmiError::HardwareError
        }),
{
}

/// Both sources store the handler and the period they are given, drop the handler when told to,
/// and read as what they store. Acknowledging changes nothing.
pub proof fn law_sdei_settings<H: Send + Sync>(
    set: &mut SdeiNmi<H>,
    handler: H,
    set_res: NmiResult<()>,
    cleared: &mut SdeiNmi<H>,
    cleared_res: NmiResult<()>,
    timed: &mut SdeiNmi<H>,
    period: u64,
    timed_res: NmiResult<()>,
    acknowledged: &mut SdeiNmi<H>,
    source: &SdeiNmi<H>,
    enabled: bool,
    period_ns: u64,
)
    requires
        call_ensures(<SdeiNmi::<H> as NmiSource<H>>::set_handler, (set, handler), set_res),
        call_ensures(<SdeiNmi::<H> as NmiSource<H>>::clear_handler, (cleared,), cleared_res),
        call_ensures(<SdeiNmi::<H> as NmiSource<H>>::set_period_ns, (timed, period), timed_res),
        call_ensures(<SdeiNmi::<H> as NmiSource<H>>::acknowledge, (acknowledged,), ()),
        call_ensures(<SdeiNmi::<H> as NmiSource<H>>::is_enabled, (source,), enabled),
        call_ensures(<SdeiNmi::<H> as NmiSource<H>>::period_ns, (source,), period_ns),
    ensures
        set_res is Ok && cleared_res is Ok && timed_res is Ok,
        final(set)@ == (StorageModel { handler: Some(handler), ..old(set)@ }),
        final(cleared)@ == (StorageModel { handler: None, ..old(cleared)@ }),
        final(timed)@ == (StorageModel { period_ns: period, ..old(timed)@ }),
        final(acknowledged)@ == old(acknowledged)@,
        enabled == source@.enabled,
        period_ns == source@.period_ns,
{
}

/// As of the SDEI source, so of the PMU's, which keeps its threshold throughout.
pub proof fn law_pmu_settings<H: Send + Sync>(
    set: &mut PmuNmiSource<H>,
    handler: H,
    set_res: NmiResult<()>,
    cleared: &mut PmuNmiSource<H>,
    cleared_res: NmiResult<()>,
    timed: &mut PmuNmiSource<H>,
    period: u64,
    timed_res: NmiResult<()>,
    acknowledged: &mut PmuNmiSource<H>,
    source: &PmuNmiSource<H>,
    enabled: bool,
    period_ns: u64,
)
    requires
        call_ensures(<PmuNmiSource::<H> as NmiSource<H>>::set_handler, (set, handler), set_res),
        call_ensures(<PmuNmiSource::<H> as NmiSource<H>>::clear_handler, (cleared,), cleared_res),
        call_ensures(
            <PmuNmiSource::<H> as NmiSource<H>>::set_period_ns,
            (timed, period),
            timed_res,
        ),
        call_ensures(<PmuNmiSource::<H> as NmiSource<H>>::acknowledge, (acknowledged,), ()),
        call_ensures(<PmuNmiSource::<H> as NmiSource<H>>::is_enabled, (source,), enabled),
        call_ensures(<PmuNmiSource::<H> as NmiSource<H>>::period_ns, (source,), period_ns),
    ensures
        set_res is Ok && cleared_res is Ok && timed_res is Ok,
        final(set)@ == (StorageModel { handler: Some(handler), ..old(set)@ }),
        final(set).cycles() == old(set).cycles(),
        final(cleared)@ == (StorageModel { handler: None, ..old(cleared)@ }),
        final(cleared).cycles() == old(cleared).cycles(),
        final(timed)@ == (StorageModel { period_ns: period, ..old(timed)@ }),
        final(timed).cycles() == old(timed).cycles(),
        final(acknowledged)@ == old(acknowledged)@,
        final(acknowledged).cycles() == old(acknowledged).cycles(),
        enabled == source@.enabled,
        period_ns == source@.period_ns,
{
}

} // verus!
