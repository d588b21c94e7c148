//! Laws on the polling watchdog and the freeze sequence.

use vstd::prelude::*;

use crate::watchdog::{
    may_differ_in_id, may_share_id, FreezeStep, FrozenCpus, Watchdog, WatchdogError, WatchdogTask,
};

verus! {

/// A new polling watchdog has no tasks.
pub proof fn law_new_polling_watchdog<T: WatchdogTask>(
    watchdog: Watchdog<T>,
    by_default: Watchdog<T>,
)
    requires
        call_ensures(Watchdog::<T>::new, (), watchdog),
        call_ensures(<Watchdog::<T> as Default>::default, (), by_default),
    ensures
        watchdog.wf(),
        watchdog@.len() == 0,
        by_default.wf(),
        by_default@.len() == 0,
{
}

/// A task is registered behind the others if it gave another identifier than each of them, here
/// than task `i`; and refused, with nothing changed, if it gave the same as one of them.
pub proof fn law_polling_registration<T: WatchdogTask>(
    watchdog: &mut Watchdog<T>,
    task: T,
    res: Result<(), WatchdogError>,
    i: int,
)
    requires
        old(watchdog).wf(),
        call_ensures(Watchdog::<T>::register_task, (watchdog, task), res),
        0 <= i < old(watchdog)@.len(),
    ensures
        final(watchdog).wf(),
        res is Ok ==> {
            &&& final(watchdog)@ == old(watchdog)@.push(task)
            &&& exists|x: Seq<char>, y: Seq<char>|
                {
                    &&& #[trigger] old(watchdog)@[i].may_have_id(x)
                    &&& #[trigger] task.may_have_id(y)
                    &&& x != y
                }
        },
        res matches Err(error) ==> {
            &&& error == WatchdogError::DuplicateTaskId
            &&& final(watchdog)@ == old(watchdog)@
            &&& exists|k: int, id: Seq<char>|
                {
                    &&& 0 <= k < old(watchdog)@.len()
                    &&& #[trigger] old(watchdog)@[k].may_have_id(id)
                    &&& task.may_have_id(id)
                }
        },
{
    if res is Ok {
        assert(may_differ_in_id(old(watchdog)@[i], task));
    } else {
        let k = choose|k: int|
            0 <= k < old(watchdog)@.len() && #[trigger] may_share_id(old(watchdog)@[k], task);
        let id = choose|id: Seq<char>|
            #[trigger] old(watchdog)@[k].may_have_id(id) && task.may_have_id(id);
        assert(old(watchdog)@[k].may_have_id(id) && task.may_have_id(id));
    }
}

/// The first task to be registered always is.
pub proof fn law_first_registration<T: WatchdogTask>(
    watchdog: &mut Watchdog<T>,
    task: T,
    res: Result<(), WatchdogError>,
)
    requires
        old(watchdog)@.len() == 0,
        call_ensures(Watchdog::<T>::register_task, (watchdog, task), res),
    ensures
        res is Ok,
        final(watchdog)@ == seq![task],
{
    assert(old(watchdog)@.push(task) =~= seq![task]);
}

/// Polling finds the first task from the given number on that answers that it is not healthy: that
/// task answered so, and those before it, here task `i`, that they are healthy. If there is none,
/// all of them did.
pub proof fn law_polling<T: WatchdogTask>(
    watchdog: &Watchdog<T>,
    from: usize,
    unhealthy: Option<usize>,
    i: int,
)
    requires
        call_ensures(Watchdog::<T>::poll, (watchdog, from), unhealthy),
        from <= i < watchdog@.len(),
    ensures
        unhealthy matches Some(found) ==> {
            &&& from <= found < watchdog@.len()
            &&& watchdog@[found as int].may_answer(false)
            &&& i < found ==> watchdog@[i].may_answer(true)
        },
        unhealthy is None ==> watchdog@[i].may_answer(true),
{
    let args = (watchdog, from);
    assert(args.0@[i] == watchdog@[i]);
}

/// Polling from beyond the last task finds none.
pub proof fn law_polling_ends<T: WatchdogTask>(
    watchdog: &Watchdog<T>,
    from: usize,
    unhealthy: Option<usize>,
)
    requires
        call_ensures(Watchdog::<T>::poll, (watchdog, from), unhealthy),
        from >= watchdog@.len(),
    ensures
        unhealthy is None,
{
}

/// At first no CPU is frozen; a CPU that freezes is frozen, and no other changes.
pub proof fn law_freezing<const N: usize>(
    fresh: FrozenCpus<N>,
    frozen: &mut FrozenCpus<N>,
    cpu_id: usize,
)
    requires
        call_ensures(FrozenCpus::<N>::new, (), fresh),
        cpu_id < N,
        call_ensures(FrozenCpus::<N>::freeze, (frozen, cpu_id), ()),
    ensures
        fresh@.len() == N,
        forall|i: int| 0 <= i < N ==> !(#[trigger] fresh@[i]),
        final(frozen)@ == old(frozen)@.update(cpu_id as int, true),
{
}

/// A CPU waits just as long as some CPU is not frozen; then the first one dumps, and every other
/// one halts.
pub proof fn law_freeze_steps<const N: usize>(
    frozen: &FrozenCpus<N>,
    cpu_id: usize,
    all: bool,
    step: FreezeStep,
)
    requires
        call_ensures(FrozenCpus::<N>::all_frozen, (frozen,), all),
        call_ensures(FrozenCpus::<N>::next_step, (frozen, cpu_id), step),
    ensures
        all <==> forall|i: int| 0 <= i < N ==> #[trigger] frozen@[i],
        step == FreezeStep::Wait <==> exists|i: int| 0 <= i < N && !(#[trigger] frozen@[i]),
        step == FreezeStep::Dump <==> all && cpu_id == 0,
        step == FreezeStep::Halt <==> all && cpu_id != 0,
{
}

} // verus!
