//! Laws on the task registry.

use vstd::prelude::*;

use crate::task::{
    check_all_tasks, listed, occupied, register_task, slot_failed, slot_passed, slots_checked,
    task_bit, unregister_task, HeartbeatModel, HeartbeatTask, RegistryError, SlotModel, TaskHandle,
    TaskRegistry, WatchdogTask, MAX_WATCHDOG_TASKS,
};

verus! {

/// The slots that hold a task.
pub open spec fn slots_in_use<T>(slots: Seq<SlotModel<T>>) -> Set<int> {
    Set::new(|i: int| 0 <= i < slots.len() && slots[i].task is Some)
}

proof fn lemma_slots_in_use<T>(slots: Seq<SlotModel<T>>)
    ensures
        slots_in_use(slots).finite(),
        slots_in_use(slots).len() == occupied(slots),
    decreases slots.len(),
{
    if slots.len() == 0 {
        assert(slots_in_use(slots) =~= Set::<int>::empty());
    } else {
        let before = slots.drop_last();
        lemma_slots_in_use(before);
        if slots.last().task is Some {
            assert(slots_in_use(slots) =~= slots_in_use(before).insert(slots.len() - 1));
        } else {
            assert(slots_in_use(slots) =~= slots_in_use(before));
        }
    }
}

/// A new registry has 32 slots, none of which has ever held a task.
pub proof fn law_new_registry<T: WatchdogTask>(
    registry: TaskRegistry<T>,
    by_default: TaskRegistry<T>,
)
    requires
        call_ensures(TaskRegistry::<T>::new, (), registry),
        call_ensures(<TaskRegistry::<T> as Default>::default, (), by_default),
    ensures
        MAX_WATCHDOG_TASKS == 32,
        registry.wf(),
        registry@.len() == 32,
        forall|i: int|
            0 <= i < 32 ==> (#[trigger] registry@[i]).task is None && registry@[i].generation == 0,
        by_default.wf(),
        by_default@ == registry@,
{
}

/// A task is registered just if there is an empty slot: it goes to the first of these, whose
/// generation goes up by one. The handle names the slot and that generation. No other slot changes.
pub proof fn law_registration<T: WatchdogTask>(
    registry: &mut TaskRegistry<T>,
    task: T,
    res: Result<TaskHandle, RegistryError>,
)
    requires
        old(registry).wf(),
        call_ensures(TaskRegistry::<T>::register, (registry, task), res) || call_ensures(
            register_task::<T>,
            (registry, task),
            res,
        ),
    ensures
        final(registry).wf(),
        res is Ok <==> exists|i: int| 0 <= i < 32 && (#[trigger] old(registry)@[i]).task is None,
        res matches Err(error) ==> {
            &&& error == RegistryError::Full
            &&& final(registry)@ == old(registry)@
        },
        res matches Ok(handle) ==> {
            let slot = handle.slot() as int;
            &&& 0 <= slot < 32
            &&& old(registry)@[slot].task is None
            &&& forall|i: int| 0 <= i < slot ==> (#[trigger] old(registry)@[i]).task is Some
            &&& final(registry)@.len() == 32
            &&& final(registry)@[slot].task == Some(task)
            &&& final(registry)@[slot].generation == old(registry)@[slot].generation.wrapping_add(1)
            &&& handle.slot_generation() == final(registry)@[slot].generation
            &&& forall|i: int|
                0 <= i < 32 && i != slot ==> #[trigger] final(registry)@[i] == old(registry)@[i]
        },
{
}

/// A handle removes the task it stands for, just if its slot still holds a task of the handle's
/// generation; the generation stays, and so does every other slot. Any other handle is refused and
/// changes nothing.
pub proof fn law_removal<T: WatchdogTask>(
    registry: &mut TaskRegistry<T>,
    handle: TaskHandle,
    res: Result<(), RegistryError>,
)
    requires
        old(registry).wf(),
        call_ensures(TaskRegistry::<T>::unregister, (registry, handle), res) || call_ensures(
            unregister_task::<T>,
            (registry, handle),
            res,
        ),
    ensures
        final(registry).wf(),
        res is Ok <==> handle.slot() < 32 && old(registry)@[handle.slot() as int].task is Some
            && old(registry)@[handle.slot() as int].generation == handle.slot_generation(),
        res matches Err(error) ==> {
            &&& error == RegistryError::InvalidHandle
            &&& final(registry)@ == old(registry)@
        },
        res is Ok ==> {
            let slot = handle.slot() as int;
            &&& final(registry)@.len() == 32
            &&& final(registry)@[slot].task is None
            &&& final(registry)@[slot].generation == old(registry)@[slot].generation
            &&& forall|i: int|
                0 <= i < 32 && i != slot ==> #[trigger] final(registry)@[i] == old(registry)@[i]
        },
{
}

/// The count of tasks is the number of slots that hold one, and the registry is empty just if
/// none does. A handle tells its slot.
pub proof fn law_count<T: WatchdogTask>(
    registry: &TaskRegistry<T>,
    count: usize,
    empty: bool,
    handle: TaskHandle,
    index: usize,
)
    requires
        registry.wf(),
        call_ensures(TaskRegistry::<T>::count, (registry,), count),
        call_ensures(TaskRegistry::<T>::is_empty, (registry,), empty),
        call_ensures(TaskHandle::index, (&handle,), index),
    ensures
        count == slots_in_use(registry@).len(),
        empty <==> forall|i: int| 0 <= i < 32 ==> (#[trigger] registry@[i]).task is None,
        index == handle.slot(),
{
    lemma_slots_in_use(registry@);
    let in_use = slots_in_use(registry@);
    if empty {
        assert forall|i: int| 0 <= i < 32 implies (#[trigger] registry@[i]).task is None by {
            if registry@[i].task is Some {
                assert(in_use.contains(i));
                assert(in_use.len() > 0) by {
                    assert(in_use.remove(i).len() + 1 == in_use.len());
                }
            }
        }
    }
    if forall|i: int| 0 <= i < 32 ==> (#[trigger] registry@[i]).task is None {
        assert(in_use =~= Set::<int>::empty());
    }
}

/// A task is found in its slot, and can be acted on there; an empty slot, or one that does not
/// exist, gives none. Nothing but the task found can change.
pub proof fn law_slot_access<T: WatchdogTask>(
    registry: &TaskRegistry<T>,
    index: usize,
    task: Option<&T>,
    changed: &mut TaskRegistry<T>,
    entry: Option<&mut T>,
)
    requires
        registry.wf(),
        call_ensures(TaskRegistry::<T>::get, (registry, index), task),
        old(changed).wf(),
        call_ensures(TaskRegistry::<T>::get_mut, (changed, index), entry),
    ensures
        task is Some <==> index < 32 && registry@[index as int].task is Some,
        task matches Some(found) ==> registry@[index as int].task == Some(*found),
        entry is Some <==> index < 32 && old(changed)@[index as int].task is Some,
        entry is None ==> final(changed)@ == old(changed)@,
        entry matches Some(found) ==> {
            &&& old(changed)@[index as int].task == Some(*found)
            &&& final(changed)@.len() == 32
            &&& final(changed)@[index as int].task == Some(*final(found))
            &&& final(changed)@[index as int].generation == old(changed)@[index as int].generation
            &&& forall|i: int|
                0 <= i < 32 && i != index ==> #[trigger] final(changed)@[i] == old(changed)@[i]
        },
{
}

proof fn lemma_listed<T>(slots: Seq<SlotModel<T>>, count: nat)
    requires
        count <= slots.len() <= usize::MAX,
    ensures
        forall|k: int|
            0 <= k < listed(slots, count).len() ==> {
                let entry = #[trigger] listed(slots, count)[k];
                &&& entry.0 < count
                &&& slots[entry.0 as int].task == Some(entry.1)
            },
        forall|k: int, l: int|
            0 <= k < l < listed(slots, count).len() ==> (#[trigger] listed(slots, count)[k]).0 < (
            #[trigger] listed(slots, count)[l]).0,
        forall|i: int|
            0 <= i < count && (#[trigger] slots[i]).task is Some ==> exists|k: int|
                0 <= k < listed(slots, count).len() && (#[trigger] listed(slots, count)[k]).0 == i,
    decreases count,
{
    if count > 0 {
        let shorter = listed(slots, (count - 1) as nat);
        lemma_listed(slots, (count - 1) as nat);
        assert forall|i: int| 0 <= i < count && (#[trigger] slots[i]).task is Some implies exists|
            k: int,
        |
            0 <= k < listed(slots, count).len() && (#[trigger] listed(slots, count)[k]).0 == i by {
            if i < count - 1 {
                let k = choose|k: int| 0 <= k < shorter.len() && (#[trigger] shorter[k]).0 == i;
                assert(listed(slots, count)[k] == shorter[k]);
            } else {
                assert(listed(slots, count)[shorter.len() as int].0 == i);
            }
        }
    }
}

/// The listing has the slots that hold a task, each once, in order, with their tasks.
pub proof fn law_task_listing<T: WatchdogTask>(
    registry: &TaskRegistry<T>,
    tasks: Vec<(usize, &T)>,
)
    requires
        registry.wf(),
        call_ensures(TaskRegistry::<T>::iter, (registry,), tasks),
    ensures
        forall|k: int|
            0 <= k < tasks@.len() ==> {
                let entry = #[trigger] tasks@[k];
                &&& entry.0 < 32
                &&& registry@[entry.0 as int].task == Some(*entry.1)
            },
        forall|k: int, l: int|
            0 <= k < l < tasks@.len() ==> (#[trigger] tasks@[k]).0 < (#[trigger] tasks@[l]).0,
        forall|i: int|
            0 <= i < 32 && (#[trigger] registry@[i]).task is Some ==> exists|k: int|
                0 <= k < tasks@.len() && (#[trigger] tasks@[k]).0 == i,
{
    let plain = tasks@.map_values(|entry: (usize, &T)| (entry.0, *entry.1));
    lemma_listed(registry@, 32);
    assert(plain == listed(registry@, 32));
    assert forall|k: int| 0 <= k < tasks@.len() implies ({
        let entry = #[trigger] tasks@[k];
        &&& entry.0 < 32
        &&& registry@[entry.0 as int].task == Some(*entry.1)
    }) by {
        assert(plain[k] == (tasks@[k].0, *tasks@[k].1));
    }
    assert forall|k: int, l: int| 0 <= k < l < tasks@.len() implies (#[trigger] tasks@[k]).0 < (
    #[trigger] tasks@[l]).0 by {
        assert(plain[k].0 < plain[l].0);
    }
    assert forall|i: int| 0 <= i < 32 && (#[trigger] registry@[i]).task is Some implies exists|
        k: int,
    |
        0 <= k < tasks@.len() && (#[trigger] tasks@[k]).0 == i by {
        let k = choose|k: int| 0 <= k < plain.len() && (#[trigger] plain[k]).0 == i;
        assert(tasks@[k].0 == i);
    }
}

/// A check of all tasks asks them in order, up to the first that fails. It answers that all are
/// healthy just if each of them passed; a task after one that failed is not asked.
pub proof fn law_check_all_tasks<T: WatchdogTask>(registry: &mut TaskRegistry<T>, healthy: bool)
    requires
        old(registry).wf(),
        call_ensures(TaskRegistry::<T>::check_all, (registry,), healthy) || call_ensures(
            check_all_tasks::<T>,
            (registry,),
            healthy,
        ),
    ensures
        final(registry).wf(),
        healthy ==> forall|i: int|
            0 <= i < 32 ==> {
                let pre = old(registry)@[i];
                let post = #[trigger] final(registry)@[i];
                &&& post.generation == pre.generation
                &&& pre.task is None ==> post.task is None
                &&& pre.task matches Some(before) ==> {
                    &&& post.task matches Some(after)
                    &&& T::check_step(before, after, true)
                }
            },
        !healthy ==> exists|failed: int|
            {
                &&& 0 <= failed < 32
                &&& (#[trigger] final(registry)@[failed]).generation == old(
                    registry,
                )@[failed].generation
                &&& old(registry)@[failed].task matches Some(before)
                &&& final(registry)@[failed].task matches Some(after)
                &&& T::check_step(before, after, false)
                &&& forall|i: int|
                    0 <= i < failed ==> {
                        let pre = old(registry)@[i];
                        let post = #[trigger] final(registry)@[i];
                        &&& post.generation == pre.generation
                        &&& pre.task is None ==> post.task is None
                        &&& pre.task matches Some(earlier) ==> {
                            &&& post.task matches Some(later)
                            &&& T::check_step(earlier, later, true)
                        }
                    }
                &&& forall|i: int|
                    failed < i < 32 ==> #[trigger] final(registry)@[i] == old(registry)@[i]
            },
{
    assert(slots_checked(old(registry)@, final(registry)@, healthy));
    if healthy {
        assert forall|i: int| 0 <= i < 32 implies ({
            let pre = old(registry)@[i];
            let post = #[trigger] final(registry)@[i];
            &&& post.generation == pre.generation
            &&& pre.task is None ==> post.task is None
            &&& pre.task matches Some(before) ==> {
                &&& post.task matches Some(after)
                &&& T::check_step(before, after, true)
            }
        }) by {
            assert(slot_passed(old(registry)@[i], final(registry)@[i]));
        }
    } else {
        let failed = choose|failed: int|
            {
                &&& 0 <= failed < old(registry)@.len()
                &&& #[trigger] slot_failed(old(registry)@[failed], final(registry)@[failed])
                &&& forall|i: int|
                    0 <= i < failed ==> #[trigger] slot_passed(
                        old(registry)@[i],
                        final(registry)@[i],
                    )
                &&& forall|i: int|
                    failed < i < old(registry)@.len() ==> #[trigger] final(registry)@[i] == old(
                        registry,
                    )@[i]
            };
        assert forall|i: int| 0 <= i < failed implies ({
            let pre = old(registry)@[i];
            let post = #[trigger] final(registry)@[i];
            &&& post.generation == pre.generation
            &&& pre.task is None ==> post.task is None
            &&& pre.task matches Some(earlier) ==> {
                &&& post.task matches Some(later)
                &&& T::check_step(earlier, later, true)
            }
        }) by {
            assert(slot_passed(old(registry)@[i], final(registry)@[i]));
        }
        assert(final(registry)@[failed].generation == old(registry)@[failed].generation);
    }
}

/// A check for the bitmap asks every task, and sets the bit of each slot whose task fails, and no
/// other.
pub proof fn law_check_all_bitmap<T: WatchdogTask>(
    registry: &mut TaskRegistry<T>,
    unhealthy: u32,
)
    requires
        old(registry).wf(),
        call_ensures(TaskRegistry::<T>::check_all_bitmap, (registry,), unhealthy),
    ensures
        final(registry).wf(),
        forall|i: u32|
            #![trigger unhealthy & (1u32 << i)]
            i < 32 && unhealthy & (1u32 << i) != 0 ==> {
                &&& final(registry)@[i as int].generation == old(registry)@[i as int].generation
                &&& old(registry)@[i as int].task matches Some(before)
                &&& final(registry)@[i as int].task matches Some(after)
                &&& T::check_step(before, after, false)
            },
        forall|i: u32|
            #![trigger unhealthy & (1u32 << i)]
            i < 32 && unhealthy & (1u32 << i) == 0 ==> {
                &&& final(registry)@[i as int].generation == old(registry)@[i as int].generation
                &&& old(registry)@[i as int].task is None
                    ==> final(registry)@[i as int].task is None
                &&& old(registry)@[i as int].task matches Some(before) ==> {
                    &&& final(registry)@[i as int].task matches Some(after)
                    &&& T::check_step(before, after, true)
                }
            },
{
    assert forall|i: u32| i < 32 implies #[trigger] task_bit(unhealthy, i as int) == (unhealthy & (
    1u32 << i) != 0) by {}
    assert forall|i: u32|
        #![trigger unhealthy & (1u32 << i)]
        i < 32 && unhealthy & (1u32 << i) != 0 implies slot_failed(
        old(registry)@[i as int],
        final(registry)@[i as int],
    ) by {
        assert(task_bit(unhealthy, i as int));
    }
    assert forall|i: u32|
        #![trigger unhealthy & (1u32 << i)]
        i < 32 && unhealthy & (1u32 << i) == 0 implies slot_passed(
        old(registry)@[i as int],
        final(registry)@[i as int],
    ) by {
        assert(!task_bit(unhealthy, i as int));
    }
}

/// A notification asks every task, and calls back each that fails, with the CPU it is given.
pub proof fn law_notify_timeout<T: WatchdogTask>(registry: &mut TaskRegistry<T>, cpu_id: usize)
    requires
        old(registry).wf(),
        call_ensures(TaskRegistry::<T>::notify_timeout, (registry, cpu_id), ()),
    ensures
        final(registry).wf(),
        forall|i: int|
            0 <= i < 32 ==> {
                let pre = old(registry)@[i];
                let post = #[trigger] final(registry)@[i];
                &&& post.generation == pre.generation
                &&& pre.task is None ==> post.task is None
                &&& pre.task matches Some(before) ==> {
                    &&& post.task is Some
                    &&& exists|checked: T, healthy: bool|
                        {
                            &&& #[trigger] T::check_step(before, checked, healthy)
                            &&& healthy ==> post.task == Some(checked)
                            &&& !healthy ==> exists|notified: &mut T|
                                {
                                    &&& *notified == checked
                                    &&& Some(*final(notified)) == post.task
                                    &&& #[trigger] call_ensures(
                                        T::on_timeout,
                                        (notified, cpu_id),
                                        (),
                                    )
                                }
                        }
                }
            },
{
}

/// A heartbeat task starts at zero under its name, counts its pets, and passes a check just if its
/// counter is not what the last check saw; the check takes note of it.
pub proof fn law_heartbeat_operations(
    name: &'static str,
    task: HeartbeatTask,
    petted: &mut HeartbeatTask,
    asked: &HeartbeatTask,
    counter: u64,
    asked_name: &'static str,
    checked: &mut HeartbeatTask,
    healthy: bool,
)
    requires
        call_ensures(HeartbeatTask::new, (name,), task),
        call_ensures(HeartbeatTask::pet, (petted,), ()),
        call_ensures(HeartbeatTask::counter, (asked,), counter),
        call_ensures(<HeartbeatTask as WatchdogTask>::name, (asked,), asked_name),
        call_ensures(<HeartbeatTask as WatchdogTask>::health_check, (checked,), healthy),
    ensures
        task@.name == name@,
        task@.counter == 0,
        task@.last_checked == 0,
        final(petted)@ == (HeartbeatModel {
            counter: old(petted)@.counter.wrapping_add(1),
            ..old(petted)@
        }),
        counter == asked@.counter,
        asked_name@ == asked@.name,
        healthy <==> old(checked)@.counter != old(checked)@.last_checked,
        final(checked)@ == (HeartbeatModel {
            last_checked: old(checked)@.counter,
            ..old(checked)@
        }),
{
}

} // verus!
