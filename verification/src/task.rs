//! Watchdog task registration and management.
//!
//! This module provides a registry of fixed size for the tasks that need to be monitored by
//! the watchdog.

use vstd::prelude::*;

verus! {

/// Maximum number of tasks that can be registered.
pub const MAX_WATCHDOG_TASKS: usize = 32;

/// Trait for tasks that can be monitored by the watchdog.
///
/// # Safety Contract
///
/// The `health_check` method may be called from NMI context and MUST:
/// - Be completely lock-free
/// - Complete quickly
/// - Not allocate memory
/// - Not panic
pub trait WatchdogTask: Sized + Send + Sync {
    /// What a health check of a task in state `pre` may answer, and the state it may leave the
    /// task in. This is for each task to say; if not overridden, it may answer anything.
    open spec fn check_step(pre: Self, post: Self, healthy: bool) -> bool {
        true
    }

    /// Get the task name (for diagnostics).
    fn name(&self) -> &'static str;

    /// Check if the task is healthy.
    ///
    /// Returns `true` if the task is operating normally,
    /// `false` if it appears to be stuck or unhealthy.
    ///
    /// This method may be called from NMI context and must be lock-free.
    fn health_check(&mut self) -> (healthy: bool)
        ensures
            Self::check_step(*old(self), *final(self), healthy),
    ;

    /// Called when the watchdog detects that the task is unhealthy.
    ///
    /// This is called from normal context (not NMI) after detection.
    /// Can perform logging, recovery attempts, etc. The default does nothing.
    fn on_timeout(&mut self, cpu_id: usize)
        default_ensures
            *final(self) == *old(self),
    {
        let _ = cpu_id;
    }

    /// Get the timeout threshold of the task (in nanoseconds).
    ///
    /// If not overridden, uses the global watchdog timeout.
    fn timeout_ns(&self) -> (timeout: Option<u64>)
        default_ensures
            timeout == None::<u64>,
    {
        None
    }
}

/// Handle returned when registering a task.
///
/// Used to unregister the task later.
#[derive(Debug, Clone, Copy, PartialEq, Eq, Structural)]
pub struct TaskHandle {
    /// Slot index in the registry.
    index: usize,
    /// Generation counter to detect stale handles.
    generation: u32,
}

impl TaskHandle {
    /// The slot the handle is for.
    pub closed spec fn slot(self) -> usize {
        self.index
    }

    /// The generation of the slot's content that the handle is for.
    pub closed spec fn slot_generation(self) -> u32 {
        self.generation
    }

    /// Create a new task handle.
    fn new(index: usize, generation: u32) -> (handle: Self)
        ensures
            handle.slot() == index,
            handle.slot_generation() == generation,
    {
        TaskHandle { index, generation }
    }

    /// Get the slot index.
    pub fn index(&self) -> (index: usize)
        ensures
            index == self.slot(),
    {
        self.index
    }
}

/// Error type for task registry operations.
#[derive(Debug, Clone, Copy, PartialEq, Eq, Structural)]
pub enum RegistryError {
    /// Registry is full, cannot register more tasks.
    Full,
    /// Invalid handle (wrong index or generation).
    InvalidHandle,
    /// Slot is already occupied.
    SlotOccupied,
    /// Task not found.
    NotFound,
}

impl RegistryError {
    /// The error in words.
    pub open spec fn text(self) -> Seq<char> {
        match self {
            RegistryError::Full => "Task registry is full"@,
            RegistryError::InvalidHandle => "Invalid task handle"@,
            RegistryError::SlotOccupied => "Slot already occupied"@,
            RegistryError::NotFound => "Task not found"@,
        }
    }

    /// Describe the error.
    pub fn message(&self) -> (message: &'static str)
        ensures
            message@ == self.text(),
    {
        match self {
            RegistryError::Full => "Task registry is full",
            RegistryError::InvalidHandle => "Invalid task handle",
            RegistryError::SlotOccupied => "Slot already occupied",
            RegistryError::NotFound => "Task not found",
        }
    }
}

/// What a slot of the registry holds.
pub struct SlotModel<T> {
    /// The registered task, if any.
    pub task: Option<T>,
    /// How often a task was registered here, modulo the `u32` range.
    pub generation: u32,
}

/// A health check of the slot's task, if it has one, was passed: `pre` and `post` are the slot
/// before and after.
pub open spec fn slot_passed<T: WatchdogTask>(pre: SlotModel<T>, post: SlotModel<T>) -> bool {
    &&& post.generation == pre.generation
    &&& match (pre.task, post.task) {
        (None, None) => true,
        (Some(before), Some(after)) => T::check_step(before, after, true),
        _ => false,
    }
}

/// The slot has a task, which failed a health check.
pub open spec fn slot_failed<T: WatchdogTask>(pre: SlotModel<T>, post: SlotModel<T>) -> bool {
    &&& post.generation == pre.generation
    &&& match (pre.task, post.task) {
        (Some(before), Some(after)) => T::check_step(before, after, false),
        _ => false,
    }
}

/// The tasks were checked in order up to the first that failed, or all of them if none did.
pub open spec fn slots_checked<T: WatchdogTask>(
    pre: Seq<SlotModel<T>>,
    post: Seq<SlotModel<T>>,
    healthy: bool,
) -> bool {
    &&& post.len() == pre.len()
    &&& healthy ==> forall|i: int|
        0 <= i < pre.len() ==> #[trigger] slot_passed(pre[i], post[i])
    &&& !healthy ==> exists|failed: int|
        {
            &&& 0 <= failed < pre.len()
            &&& #[trigger] slot_failed(pre[failed], post[failed])
            &&& forall|i: int| 0 <= i < failed ==> #[trigger] slot_passed(pre[i], post[i])
            &&& forall|i: int| failed < i < pre.len() ==> #[trigger] post[i] == pre[i]
        }
}

/// The number of tasks in the slots.
pub open spec fn occupied<T>(slots: Seq<SlotModel<T>>) -> nat
    decreases slots.len(),
{
    if slots.len() == 0 {
        0
    } else {
        occupied(slots.drop_last()) + (if slots.last().task is Some {
            1nat
        } else {
            0nat
        })
    }
}

/// The tasks in the first `count` slots, with their slot indices.
pub open spec fn listed<T>(slots: Seq<SlotModel<T>>, count: nat) -> Seq<(usize, T)>
    decreases count,
{
    if count == 0 {
        Seq::empty()
    } else {
        let before = listed(slots, (count - 1) as nat);
        match slots[count - 1].task {
            Some(task) => before.push(((count - 1) as usize, task)),
            None => before,
        }
    }
}

/// Internal slot in the task registry.
struct TaskSlot<T> {
    /// The registered task (none if empty).
    task: Option<T>,
    /// Generation counter for this slot.
    generation: u32,
}

impl<T: WatchdogTask> TaskSlot<T> {
    spec fn model(self) -> SlotModel<T> {
        SlotModel { task: self.task, generation: self.generation }
    }

    fn new() -> (slot: Self)
        ensures
            slot.model() == (SlotModel::<T> { task: None, generation: 0 }),
    {
        TaskSlot { task: None, generation: 0 }
    }

    fn is_empty(&self) -> (empty: bool)
        ensures
            empty == (self.model().task is None),
    {
        self.task.is_none()
    }

    fn get(&self) -> (task: Option<&T>)
        ensures
            match task {
                Some(task) => self.model().task == Some(*task),
                None => self.model().task is None,
            },
    {
        self.task.as_ref()
    }

    /// Put a task into an empty slot and return the slot's new generation.
    fn set(&mut self, task: T) -> (generation: u32)
        requires
            old(self).model().task is None,
        ensures
            generation == old(self).model().generation.wrapping_add(1),
            final(self).model() == (SlotModel { task: Some(task), generation }),
    {
        self.task = Some(task);
        self.generation = self.generation.wrapping_add(1);
        self.generation
    }

    /// Remove the task, if there is one and the generation is the expected one.
    fn try_clear(&mut self, expected_generation: u32) -> (cleared: bool)
        ensures
            cleared == (old(self).model().generation == expected_generation
                && old(self).model().task is Some),
            cleared ==> final(self).model() == (SlotModel::<T> { task: None, ..old(self).model() }),
            !cleared ==> final(self).model() == old(self).model(),
    {
        if self.generation != expected_generation || self.is_empty() {
            return false;
        }
        self.task = None;
        true
    }

    /// Check the task, if there is one.
    fn check(&mut self) -> (healthy: bool)
        ensures
            healthy ==> slot_passed(old(self).model(), final(self).model()),
            !healthy ==> slot_failed(old(self).model(), final(self).model()),
    {
        match &mut self.task {
            Some(task) => task.health_check(),
            None => true,
        }
    }

    /// Check the task, if there is one, and notify it if it is unhealthy.
    fn notify(&mut self, cpu_id: usize)
        ensures
            final(self).model().generation == old(self).model().generation,
            old(self).model().task is None ==> final(self).model().task is None,
            old(self).model().task matches Some(before) ==> {
                &&& final(self).model().task is Some
                &&& exists|checked: T, healthy: bool|
                    {
                        &&& #[trigger] T::check_step(before, checked, healthy)
                        &&& healthy ==> final(self).model().task == Some(checked)
                        &&& !healthy ==> exists|notified: &mut T|
                            {
                                &&& *notified == checked
                                &&& Some(*final(notified)) == final(self).model().task
                                &&& #[trigger] call_ensures(T::on_timeout, (notified, cpu_id), ())
                            }
                    }
            },
    {
        match &mut self.task {
            Some(task) => {
                let ghost before = *task;
                let healthy = task.health_check();
                let ghost checked = *task;
                if !healthy {
                    task.on_timeout(cpu_id);
                    assert(exists|notified: &mut T| {
                        &&& *notified == checked
                        &&& *final(notified) == *task
                        &&& #[trigger] call_ensures(T::on_timeout, (notified, cpu_id), ())
                    });
                }
                assert(T::check_step(before, checked, healthy));
            },
            None => {},
        }
    }
}

/// Bit `i` of `bits` is set.
pub open spec fn task_bit(bits: u32, i: int) -> bool {
    bits & (1u32 << (i as u32)) != 0
}

/// Task registry.
///
/// Health checks iterate over all registered tasks. A task is owned by the registry while it
/// is registered.
pub struct TaskRegistry<T: WatchdogTask> {
    /// Task slots.
    slots: Vec<TaskSlot<T>>,
    /// Number of registered tasks.
    count: usize,
}

impl<T: WatchdogTask> View for TaskRegistry<T> {
    type V = Seq<SlotModel<T>>;

    /// The slots.
    closed spec fn view(&self) -> Seq<SlotModel<T>> {
        self.slots@.map_values(|slot: TaskSlot<T>| slot.model())
    }
}

impl<T: WatchdogTask> TaskRegistry<T> {
    /// What the registry counts as its number of tasks.
    pub closed spec fn counted(&self) -> nat {
        self.count as nat
    }

    /// The registry has its fixed number of slots, and counts its tasks right.
    pub open spec fn wf(&self) -> bool {
        &&& self@.len() == MAX_WATCHDOG_TASKS
        &&& self.counted() == occupied(self@)
    }

    /// Create a new empty registry.
    pub fn new() -> (registry: Self)
        ensures
            registry.wf(),
            registry@ == Seq::new(
                MAX_WATCHDOG_TASKS as nat,
                |i: int| (SlotModel::<T> { task: None, generation: 0 }),
            ),
    {
        let mut slots: Vec<TaskSlot<T>> = Vec::new();
        let mut i: usize = 0;
        while i < MAX_WATCHDOG_TASKS
            invariant
                i <= MAX_WATCHDOG_TASKS,
                slots@.len() == i,
                forall|j: int|
                    0 <= j < i ==> (#[trigger] slots@[j]).model() == (SlotModel::<T> {
                        task: None,
                        generation: 0,
                    }),
            decreases MAX_WATCHDOG_TASKS - i,
        {
            slots.push(TaskSlot::new());
            i = i + 1;
        }
        let registry = TaskRegistry { slots, count: 0 };
        proof {
            assert(registry@ =~= Seq::new(
                MAX_WATCHDOG_TASKS as nat,
                |i: int| (SlotModel::<T> { task: None, generation: 0 }),
            ));
            lemma_none_occupied(registry@);
        }
        registry
    }

    /// Register a task.
    ///
    /// The task goes to the first empty slot.
    /// Returns a handle that can be used to unregister the task.
    pub fn register(&mut self, task: T) -> (res: Result<TaskHandle, RegistryError>)
        requires
            old(self).wf(),
        ensures
            final(self).wf(),
            match res {
                Ok(handle) => {
                    let index = handle.slot() as int;
                    let slot = old(self)@[index];
                    &&& index < MAX_WATCHDOG_TASKS
                    &&& slot.task is None
                    &&& forall|i: int|
                        0 <= i < index ==> (#[trigger] old(self)@[i]).task is Some
                    &&& handle.slot_generation() == slot.generation.wrapping_add(1)
                    &&& final(self)@ == old(self)@.update(
                        index,
                        SlotModel { task: Some(task), generation: handle.slot_generation() },
                    )
                },
                Err(error) => {
                    &&& error == RegistryError::Full
                    &&& forall|i: int|
                        0 <= i < MAX_WATCHDOG_TASKS ==> (#[trigger] old(self)@[i]).task is Some
                    &&& final(self)@ == old(self)@
                },
            },
    {
        let mut index: usize = 0;
        while index < MAX_WATCHDOG_TASKS
            invariant
                index <= MAX_WATCHDOG_TASKS,
                self.slots@.len() == MAX_WATCHDOG_TASKS,
                *self == *old(self),
                self.wf(),
                forall|i: int| 0 <= i < index ==> (#[trigger] self@[i]).task is Some,
            decreases MAX_WATCHDOG_TASKS - index,
        {
            if self.slots[index].is_empty() {
                let ghost before = self@;
                let generation = self.slots[index].set(task);
                proof {
                    assert(self@ =~= before.update(
                        index as int,
                        SlotModel { task: Some(task), generation },
                    ));
                    lemma_occupied_update(before, index as int, self@[index as int]);
                    lemma_occupied_bound(self@);
                }
                self.count = self.count + 1;
                return Ok(TaskHandle::new(index, generation));
            }
            index = index + 1;
        }
        Err(RegistryError::Full)
    }

    /// Unregister a task using its handle.
    pub fn unregister(&mut self, handle: TaskHandle) -> (res: Result<(), RegistryError>)
        requires
            old(self).wf(),
        ensures
            final(self).wf(),
            ({
                let index = handle.slot() as int;
                let slot = old(self)@[index];
                let valid = index < MAX_WATCHDOG_TASKS && slot.generation
                    == handle.slot_generation() && slot.task is Some;
                &&& res == (if valid {
                    Ok::<(), RegistryError>(())
                } else {
                    Err(RegistryError::InvalidHandle)
                })
                &&& final(self)@ == (if valid {
                    old(self)@.update(index, SlotModel { task: None, ..slot })
                } else {
                    old(self)@
                })
            }),
    {
        if handle.index >= MAX_WATCHDOG_TASKS {
            return Err(RegistryError::InvalidHandle);
        }
        let ghost before = self@;
        let index = handle.index;
        if self.slots[index].try_clear(handle.generation) {
            proof {
                assert(self@ =~= before.update(
                    index as int,
                    SlotModel { task: None, ..before[index as int] },
                ));
                lemma_occupied_update(before, index as int, self@[index as int]);
            }
            self.count = self.count - 1;
            Ok(())
        } else {
            assert(self@ =~= before);
            Err(RegistryError::InvalidHandle)
        }
    }

    /// Get the number of registered tasks.
    pub fn count(&self) -> (count: usize)
        requires
            self.wf(),
        ensures
            count == occupied(self@),
    {
        self.count
    }

    /// Check if the registry is empty.
    pub fn is_empty(&self) -> (empty: bool)
        requires
            self.wf(),
        ensures
            empty == (occupied(self@) == 0),
    {
        self.count() == 0
    }

    /// Check health of all registered tasks.
    ///
    /// Returns `true` if all tasks are healthy, `false` if any task failed. The tasks after
    /// the first one that fails are not checked.
    ///
    /// This is safe to call from NMI context.
    pub fn check_all(&mut self) -> (healthy: bool)
        requires
            old(self).wf(),
        ensures
            final(self).wf(),
            slots_checked(old(self)@, final(self)@, healthy),
    {
        let mut index: usize = 0;
        while index < MAX_WATCHDOG_TASKS
            invariant
                index <= MAX_WATCHDOG_TASKS,
                self@.len() == MAX_WATCHDOG_TASKS,
                self.slots@.len() == MAX_WATCHDOG_TASKS,
                old(self)@.len() == MAX_WATCHDOG_TASKS,
                self.counted() == old(self).counted(),
                old(self).counted() == occupied(old(self)@),
                forall|i: int|
                    0 <= i < index ==> #[trigger] slot_passed(old(self)@[i], self@[i]),
                forall|i: int| index <= i < MAX_WATCHDOG_TASKS ==> #[trigger] self@[i] == old(
                    self,
                )@[i],
            decreases MAX_WATCHDOG_TASKS - index,
        {
            let ghost before = self@;
            assert(before[index as int] == self.slots@[index as int].model());
            let healthy = self.slots[index].check();
            proof {
                assert(self@ =~= before.update(
                    index as int,
                    self.slots@[index as int].model(),
                ));
                if healthy {
                    assert(slot_passed(old(self)@[index as int], self@[index as int]));
                } else {
                    assert(slot_failed(old(self)@[index as int], self@[index as int]));
                    assert forall|i: int| 0 <= i < index implies #[trigger] slot_passed(
                        old(self)@[i],
                        self@[i],
                    ) by {
                        assert(slot_passed(old(self)@[i], before[i]));
                    }
                    lemma_same_occupancy(old(self)@, self@);
                }
            }
            if !healthy {
                return false;
            }
            proof {
                assert forall|i: int| 0 <= i < index + 1 implies #[trigger] slot_passed(
                    old(self)@[i],
                    self@[i],
                ) by {
                    if i < index {
                        assert(slot_passed(old(self)@[i], before[i]));
                    }
                }
            }
            index = index + 1;
        }
        proof {
            lemma_same_occupancy(old(self)@, self@);
        }
        true
    }

    /// Check health and return bitmap of unhealthy tasks.
    ///
    /// Bit N is set if task at slot N is unhealthy.
    pub fn check_all_bitmap(&mut self) -> (unhealthy: u32)
        requires
            old(self).wf(),
        ensures
            final(self).wf(),
            forall|i: int|
                0 <= i < MAX_WATCHDOG_TASKS ==> if #[trigger] task_bit(unhealthy, i) {
                    slot_failed(old(self)@[i], final(self)@[i])
                } else {
                    slot_passed(old(self)@[i], final(self)@[i])
                },
    {
        let mut unhealthy: u32 = 0;
        let mut index: usize = 0;
        proof {
            assert forall|j: int| 0 <= j < MAX_WATCHDOG_TASKS implies !(#[trigger] task_bit(
                0,
                j,
            )) by {
                let b = j as u32;
                assert(0u32 & (1u32 << b) == 0) by (bit_vector);
            }
        }
        while index < MAX_WATCHDOG_TASKS
            invariant
                index <= MAX_WATCHDOG_TASKS,
                self@.len() == MAX_WATCHDOG_TASKS,
                self.slots@.len() == MAX_WATCHDOG_TASKS,
                old(self)@.len() == MAX_WATCHDOG_TASKS,
                self.counted() == old(self).counted(),
                old(self).counted() == occupied(old(self)@),
                forall|i: int|
                    0 <= i < index ==> if #[trigger] task_bit(unhealthy, i) {
                        slot_failed(old(self)@[i], self@[i])
                    } else {
                        slot_passed(old(self)@[i], self@[i])
                    },
                forall|i: int|
                    index <= i < MAX_WATCHDOG_TASKS ==> !(#[trigger] task_bit(unhealthy, i)),
                forall|i: int| index <= i < MAX_WATCHDOG_TASKS ==> #[trigger] self@[i] == old(
                    self,
                )@[i],
            decreases MAX_WATCHDOG_TASKS - index,
        {
            let ghost before = self@;
            let ghost bits = unhealthy;
            assert(before[index as int] == self.slots@[index as int].model());
            let healthy = self.slots[index].check();
            if !healthy {
                unhealthy = unhealthy | (1u32 << (index as u32));
            }
            proof {
                assert(self@ =~= before.update(
                    index as int,
                    self.slots@[index as int].model(),
                ));
                assert forall|i: int| 0 <= i < MAX_WATCHDOG_TASKS implies #[trigger] task_bit(
                    unhealthy,
                    i,
                ) == (task_bit(bits, i) || (!healthy && i == index)) by {
                    let a = index as u32;
                    let b = i as u32;
                    assert(((bits | (1u32 << a)) & (1u32 << b) != 0) == (bits & (1u32 << b) != 0
                        || a == b)) by (bit_vector)
                        requires
                            a < 32,
                            b < 32,
                    ;
                }
            }
            index = index + 1;
        }
        proof {
            assert forall|i: int| 0 <= i < MAX_WATCHDOG_TASKS implies (old(self)@[i].task is Some)
                == ((#[trigger] self@[i]).task is Some) by {
                if task_bit(unhealthy, i) {
                    assert(slot_failed(old(self)@[i], self@[i]));
                } else {
                    assert(slot_passed(old(self)@[i], self@[i]));
                }
            }
            lemma_equal_occupancy(old(self)@, self@);
        }
        unhealthy
    }

    /// Get a task by its slot index.
    pub fn get(&self, index: usize) -> (task: Option<&T>)
        requires
            self.wf(),
        ensures
            match task {
                Some(task) => index < MAX_WATCHDOG_TASKS && self@[index as int].task == Some(*task),
                None => index >= MAX_WATCHDOG_TASKS || self@[index as int].task is None,
            },
    {
        if index >= MAX_WATCHDOG_TASKS {
            return None;
        }
        assert(self@[index as int] == self.slots@[index as int].model());
        self.slots[index].get()
    }

    /// Get a task by its slot index, to act on it.
    pub fn get_mut(&mut self, index: usize) -> (task: Option<&mut T>)
        requires
            old(self).wf(),
        ensures
            match task {
                Some(task) => {
                    let slot = old(self)@[index as int];
                    &&& index < MAX_WATCHDOG_TASKS
                    &&& slot.task == Some(*task)
                    &&& final(self)@ == old(self)@.update(
                        index as int,
                        SlotModel { task: Some(*final(task)), ..slot },
                    )
                },
                None => {
                    &&& index >= MAX_WATCHDOG_TASKS || old(self)@[index as int].task is None
                    &&& final(self)@ == old(self)@
                },
            },
            final(self).wf(),
    {
        if index >= MAX_WATCHDOG_TASKS {
            return None;
        }
        proof {
            let slots = self@;
            let slot = slots[index as int];
            assert(slot == self.slots@[index as int].model());
            assert forall|task: T| slot.task is Some implies occupied(
                #[trigger] slots.update(index as int, SlotModel { task: Some(task), ..slot }),
            ) == occupied(slots) by {
                lemma_occupied_update(slots, index as int, SlotModel { task: Some(task), ..slot });
            }
        }
        self.slots[index].task.as_mut()
    }

    /// Get all registered tasks with their slot indices, in order.
    pub fn iter(&self) -> (tasks: Vec<(usize, &T)>)
        requires
            self.wf(),
        ensures
            tasks@.map_values(|entry: (usize, &T)| (entry.0, *entry.1)) == listed(
                self@,
                MAX_WATCHDOG_TASKS as nat,
            ),
    {
        let mut tasks: Vec<(usize, &T)> = Vec::new();
        let ghost plain = |entry: (usize, &T)| (entry.0, *entry.1);
        let mut index: usize = 0;
        assert(tasks@.map_values(plain) =~= listed(self@, 0));
        while index < MAX_WATCHDOG_TASKS
            invariant
                index <= MAX_WATCHDOG_TASKS,
                self.wf(),
                plain == (|entry: (usize, &T)| (entry.0, *entry.1)),
                tasks@.map_values(plain) == listed(self@, index as nat),
            decreases MAX_WATCHDOG_TASKS - index,
        {
            let ghost before = tasks@;
            if let Some(task) = self.get(index) {
                tasks.push((index, task));
                assert(tasks@.map_values(plain) =~= before.map_values(plain).push((index, *task)));
            }
            index = index + 1;
        }
        tasks
    }

    /// Call `on_timeout` for all unhealthy tasks.
    ///
    /// Every task is checked, and each that fails the check is notified at once, in the order
    /// of the slots. This should be called from normal context (not NMI).
    pub fn notify_timeout(&mut self, cpu_id: usize)
        requires
            old(self).wf(),
        ensures
            final(self).wf(),
            forall|i: int|
                0 <= i < MAX_WATCHDOG_TASKS ==> {
                    let slot = #[trigger] final(self)@[i];
                    &&& slot.generation == old(self)@[i].generation
                    &&& old(self)@[i].task is None ==> slot.task is None
                    &&& old(self)@[i].task matches Some(before) ==> {
                        &&& slot.task is Some
                        &&& exists|checked: T, healthy: bool|
                            {
                                &&& #[trigger] T::check_step(before, checked, healthy)
                                &&& healthy ==> slot.task == Some(checked)
                                &&& !healthy ==> exists|notified: &mut T|
                                    {
                                        &&& *notified == checked
                                        &&& Some(*final(notified)) == slot.task
                                        &&& #[trigger] call_ensures(
                                            T::on_timeout,
                                            (notified, cpu_id),
                                            (),
                                        )
                                    }
                            }
                    }
                },
    {
        let mut index: usize = 0;
        while index < MAX_WATCHDOG_TASKS
            invariant
                index <= MAX_WATCHDOG_TASKS,
                self@.len() == MAX_WATCHDOG_TASKS,
                self.slots@.len() == MAX_WATCHDOG_TASKS,
                old(self)@.len() == MAX_WATCHDOG_TASKS,
                self.counted() == old(self).counted(),
                old(self).counted() == occupied(old(self)@),
                forall|i: int|
                    0 <= i < index ==> {
                        let slot = #[trigger] self@[i];
                        &&& slot.generation == old(self)@[i].generation
                        &&& old(self)@[i].task is None ==> slot.task is None
                        &&& old(self)@[i].task matches Some(before) ==> {
                            &&& slot.task is Some
                            &&& exists|checked: T, healthy: bool|
                                {
                                    &&& #[trigger] T::check_step(before, checked, healthy)
                                    &&& healthy ==> slot.task == Some(checked)
                                    &&& !healthy ==> exists|notified: &mut T|
                                        {
                                            &&& *notified == checked
                                            &&& Some(*final(notified)) == slot.task
                                            &&& #[trigger] call_ensures(
                                                T::on_timeout,
                                                (notified, cpu_id),
                                                (),
                                            )
                                        }
                                }
                        }
                    },
                forall|i: int| index <= i < MAX_WATCHDOG_TASKS ==> #[trigger] self@[i] == old(
                    self,
                )@[i],
            decreases MAX_WATCHDOG_TASKS - index,
        {
            let ghost before = self@;
            assert(before[index as int] == self.slots@[index as int].model());
            self.slots[index].notify(cpu_id);
            assert(self@ =~= before.update(index as int, self.slots@[index as int].model()));
            index = index + 1;
        }
        proof {
            lemma_equal_occupancy(old(self)@, self@);
        }
    }
}

impl<T: WatchdogTask> Default for TaskRegistry<T> {
    fn default() -> (registry: Self)
        ensures
            registry.wf(),
            registry@ == Seq::new(
                MAX_WATCHDOG_TASKS as nat,
                |i: int| (SlotModel::<T> { task: None, generation: 0 }),
            ),
    {
        Self::new()
    }
}

/// Register a task with a registry.
pub fn register_task<T: WatchdogTask>(registry: &mut TaskRegistry<T>, task: T) -> (res: Result<
    TaskHandle,
    RegistryError,
>)
    requires
        old(registry).wf(),
    ensures
        final(registry).wf(),
        match res {
            Ok(handle) => {
                let index = handle.slot() as int;
                let slot = old(registry)@[index];
                &&& index < MAX_WATCHDOG_TASKS
                &&& slot.task is None
                &&& forall|i: int| 0 <= i < index ==> (#[trigger] old(registry)@[i]).task is Some
                &&& handle.slot_generation() == slot.generation.wrapping_add(1)
                &&& final(registry)@ == old(registry)@.update(
                    index,
                    SlotModel { task: Some(task), generation: handle.slot_generation() },
                )
            },
            Err(error) => {
                &&& error == RegistryError::Full
                &&& forall|i: int|
                    0 <= i < MAX_WATCHDOG_TASKS ==> (#[trigger] old(registry)@[i]).task is Some
                &&& final(registry)@ == old(registry)@
            },
        },
{
    registry.register(task)
}

/// Unregister a task from a registry.
pub fn unregister_task<T: WatchdogTask>(registry: &mut TaskRegistry<T>, handle: TaskHandle) -> (res:
    Result<(), RegistryError>)
    requires
        old(registry).wf(),
    ensures
        final(registry).wf(),
        ({
            let index = handle.slot() as int;
            let slot = old(registry)@[index];
            let valid = index < MAX_WATCHDOG_TASKS && slot.generation == handle.slot_generation()
                && slot.task is Some;
            &&& res == (if valid {
                Ok::<(), RegistryError>(())
            } else {
                Err(RegistryError::InvalidHandle)
            })
            &&& final(registry)@ == (if valid {
                old(registry)@.update(index, SlotModel { task: None, ..slot })
            } else {
                old(registry)@
            })
        }),
{
    registry.unregister(handle)
}

/// Check health of all tasks of a registry.
pub fn check_all_tasks<T: WatchdogTask>(registry: &mut TaskRegistry<T>) -> (healthy: bool)
    requires
        old(registry).wf(),
    ensures
        final(registry).wf(),
        slots_checked(old(registry)@, final(registry)@, healthy),
{
    registry.check_all()
}

/// What a heartbeat task records.
pub struct HeartbeatModel {
    /// The task's name.
    pub name: Seq<char>,
    /// How often the task was petted, modulo the `u64` range.
    pub counter: u64,
    /// The counter at the last health check.
    pub last_checked: u64,
}

/// A simple heartbeat-based watchdog task.
///
/// The task is considered healthy if `pet()` has been called
/// since the last health check.
pub struct HeartbeatTask {
    name: &'static str,
    counter: u64,
    last_checked: u64,
}

impl View for HeartbeatTask {
    type V = HeartbeatModel;

    closed spec fn view(&self) -> HeartbeatModel {
        HeartbeatModel {
            name: self.name@,
            counter: self.counter,
            last_checked: self.last_checked,
        }
    }
}

impl HeartbeatTask {
    /// Create a new heartbeat task.
    pub fn new(name: &'static str) -> (task: Self)
        ensures
            task@ == (HeartbeatModel { name: name@, counter: 0, last_checked: 0 }),
    {
        HeartbeatTask { name, counter: 0, last_checked: 0 }
    }

    /// Pet the watchdog (indicate the task is alive).
    pub fn pet(&mut self)
        ensures
            final(self)@ == (HeartbeatModel {
                counter: old(self)@.counter.wrapping_add(1),
                ..old(self)@
            }),
    {
        self.counter = self.counter.wrapping_add(1);
    }

    /// Get current counter value.
    pub fn counter(&self) -> (counter: u64)
        ensures
            counter == self@.counter,
    {
        self.counter
    }
}

impl WatchdogTask for HeartbeatTask {
    /// The check is passed if the counter has moved since the last one, and takes note of it.
    open spec fn check_step(pre: Self, post: Self, healthy: bool) -> bool {
        &&& healthy == (pre@.counter != pre@.last_checked)
        &&& post@ == (HeartbeatModel { last_checked: pre@.counter, ..pre@ })
    }

    fn name(&self) -> (name: &'static str)
        ensures
            name@ == self@.name,
    {
        self.name
    }

    fn health_check(&mut self) -> (healthy: bool) {
        let current = self.counter;
        let last = self.last_checked;
        self.last_checked = current;
        current != last
    }
}

/// The counter of a heartbeat task after it was petted `count` times.
pub open spec fn counter_after_pets(counter: u64, count: nat) -> u64
    decreases count,
{
    if count == 0 {
        counter
    } else {
        counter_after_pets(counter, (count - 1) as nat).wrapping_add(1)
    }
}

/// A heartbeat task passes a health check just if it has been petted since the last one, unless
/// it was petted so often that its counter came round to where it was.
pub proof fn law_heartbeat_task(
    before: HeartbeatTask,
    checked: HeartbeatTask,
    petted: HeartbeatTask,
    first: bool,
    pets: nat,
    after: HeartbeatTask,
    healthy: bool,
)
    requires
        HeartbeatTask::check_step(before, checked, first),
        petted@ == (HeartbeatModel {
            counter: counter_after_pets(checked@.counter, pets),
            ..checked@
        }),
        HeartbeatTask::check_step(petted, after, healthy),
        pets <= u64::MAX,
    ensures
        healthy <==> pets > 0,
{
    lemma_counter_after_pets(checked@.counter, pets);
    let range = (u64::MAX + 1) as int;
    let a = checked@.counter as int;
    if pets > 0 {
        if a + pets < range {
            assert((a + pets) % range == a + pets);
        } else {
            assert((a + pets) % range == a + pets - range);
        }
    }
}

proof fn lemma_counter_after_pets(counter: u64, count: nat)
    ensures
        counter_after_pets(counter, count) == (counter + count) % (u64::MAX + 1),
    decreases count,
{
    if count > 0 {
        lemma_counter_after_pets(counter, (count - 1) as nat);
    }
}

impl<T: WatchdogTask> TaskRegistry<T> {
    /// There is room in the registry just while it has fewer tasks than slots.
    pub proof fn law_full_when_count_is_maximal(&self)
        requires
            self.wf(),
        ensures
            occupied(self@) <= MAX_WATCHDOG_TASKS,
            occupied(self@) == MAX_WATCHDOG_TASKS <==> forall|i: int|
                0 <= i < MAX_WATCHDOG_TASKS ==> (#[trigger] self@[i]).task is Some,
    {
        lemma_occupied_bound(self@);
        lemma_all_occupied(self@);
    }

    /// Unregistering the task that was just registered gives the registry back, but for the
    /// generation of the slot, and leaves the handle with no task to remove.
    pub proof fn law_unregister_undoes_register(
        &self,
        task: T,
        handle: TaskHandle,
        registered: Seq<SlotModel<T>>,
        unregistered: Seq<SlotModel<T>>,
    )
        requires
            self.wf(),
            handle.slot() < MAX_WATCHDOG_TASKS,
            self@[handle.slot() as int].task is None,
            registered == self@.update(
                handle.slot() as int,
                SlotModel { task: Some(task), generation: handle.slot_generation() },
            ),
            unregistered == registered.update(
                handle.slot() as int,
                SlotModel { task: None, ..registered[handle.slot() as int] },
            ),
        ensures
            unregistered[handle.slot() as int].task is None,
            forall|i: int|
                0 <= i < MAX_WATCHDOG_TASKS && i != handle.slot() ==> #[trigger] unregistered[i]
                    == self@[i],
            occupied(unregistered) == occupied(self@),
    {
        let index = handle.slot() as int;
        lemma_occupied_update(self@, index, registered[index]);
        lemma_occupied_update(registered, index, unregistered[index]);
    }

    /// A handle is stale once its slot has been given to another task, until there have been
    /// as many registrations in the slot as there are generations.
    pub proof fn law_stale_handle(handle: TaskHandle, later: nat)
        requires
            0 < later <= u32::MAX,
        ensures
            generation_after(handle.slot_generation(), later) != handle.slot_generation(),
    {
        lemma_generation_after(handle.slot_generation(), later);
        let range = (u32::MAX + 1) as int;
        let a = handle.slot_generation() as int;
        if a + later < range {
            assert((a + later) % range == a + later);
        } else {
            assert((a + later) % range == a + later - range);
        }
    }

    /// An empty bitmap means that every task passed its check, any other that some task failed.
    pub proof fn law_bitmap_tells_all(
        before: Seq<SlotModel<T>>,
        after: Seq<SlotModel<T>>,
        unhealthy: u32,
    )
        requires
            forall|i: int|
                0 <= i < MAX_WATCHDOG_TASKS ==> if #[trigger] task_bit(unhealthy, i) {
                    slot_failed(before[i], after[i])
                } else {
                    slot_passed(before[i], after[i])
                },
        ensures
            unhealthy == 0 ==> forall|i: int|
                0 <= i < MAX_WATCHDOG_TASKS ==> #[trigger] slot_passed(before[i], after[i]),
            unhealthy != 0 ==> exists|i: int|
                0 <= i < MAX_WATCHDOG_TASKS && #[trigger] slot_failed(before[i], after[i]),
    {
        if unhealthy == 0 {
            assert forall|i: int| 0 <= i < MAX_WATCHDOG_TASKS implies #[trigger] slot_passed(
                before[i],
                after[i],
            ) by {
                let b = i as u32;
                assert(0u32 & (1u32 << b) == 0) by (bit_vector);
                assert(!task_bit(unhealthy, i));
            }
        } else {
            vstd::std_specs::bits::axiom_u32_trailing_zeros(unhealthy);
            let b = vstd::std_specs::bits::u32_trailing_zeros(unhealthy);
            assert(unhealthy & (1u32 << b) != 0) by (bit_vector)
                requires
                    (unhealthy >> b) & 1u32 == 1u32,
                    b < 32,
            ;
            assert(task_bit(unhealthy, b as int));
            assert(slot_failed(before[b as int], after[b as int]));
        }
    }
}

/// The generation of a slot after `registrations` more tasks were registered in it.
pub open spec fn generation_after(generation: u32, registrations: nat) -> u32
    decreases registrations,
{
    if registrations == 0 {
        generation
    } else {
        generation_after(generation, (registrations - 1) as nat).wrapping_add(1)
    }
}

proof fn lemma_generation_after(generation: u32, registrations: nat)
    ensures
        generation_after(generation, registrations) == (generation + registrations) % (u32::MAX
            + 1),
    decreases registrations,
{
    if registrations > 0 {
        lemma_generation_after(generation, (registrations - 1) as nat);
    }
}

/// As many tasks as slots means that every slot has one.
proof fn lemma_all_occupied<T>(slots: Seq<SlotModel<T>>)
    ensures
        occupied(slots) == slots.len() <==> forall|i: int|
            0 <= i < slots.len() ==> (#[trigger] slots[i]).task is Some,
    decreases slots.len(),
{
    if slots.len() > 0 {
        let rest = slots.drop_last();
        lemma_occupied_bound(rest);
        lemma_all_occupied(rest);
        assert(slots.last() == slots[slots.len() - 1]);
        if occupied(slots) == slots.len() {
            assert forall|i: int| 0 <= i < slots.len() implies (#[trigger] slots[i]).task is Some by {
                if i < rest.len() {
                    assert(rest[i] == slots[i]);
                }
            }
        }
        if forall|i: int| 0 <= i < slots.len() ==> (#[trigger] slots[i]).task is Some {
            assert forall|i: int| 0 <= i < rest.len() implies (#[trigger] rest[i]).task is Some by {
                assert(rest[i] == slots[i]);
            }
        }
    }
}

/// Slots without tasks count as none.
proof fn lemma_none_occupied<T>(slots: Seq<SlotModel<T>>)
    requires
        forall|i: int| 0 <= i < slots.len() ==> (#[trigger] slots[i]).task is None,
    ensures
        occupied(slots) == 0,
    decreases slots.len(),
{
    if slots.len() > 0 {
        assert(slots.last() == slots[slots.len() - 1]);
        assert forall|i: int| 0 <= i < slots.drop_last().len() implies (
        #[trigger] slots.drop_last()[i]).task is None by {
            assert(slots.drop_last()[i] == slots[i]);
        }
        lemma_none_occupied(slots.drop_last());
    }
}

/// There are no more tasks than slots.
proof fn lemma_occupied_bound<T>(slots: Seq<SlotModel<T>>)
    ensures
        occupied(slots) <= slots.len(),
    decreases slots.len(),
{
    if slots.len() > 0 {
        lemma_occupied_bound(slots.drop_last());
    }
}

/// Changing one slot changes the number of tasks by what changes in it.
proof fn lemma_occupied_update<T>(slots: Seq<SlotModel<T>>, index: int, slot: SlotModel<T>)
    requires
        0 <= index < slots.len(),
    ensures
        occupied(slots.update(index, slot)) == occupied(slots) + (if slot.task is Some {
            1int
        } else {
            0int
        }) - (if slots[index].task is Some {
            1int
        } else {
            0int
        }),
    decreases slots.len(),
{
    let updated = slots.update(index, slot);
    if index == slots.len() - 1 {
        assert(updated.drop_last() =~= slots.drop_last());
    } else {
        assert(updated.drop_last() =~= slots.drop_last().update(index, slot));
        lemma_occupied_update(slots.drop_last(), index, slot);
    }
}

/// Where the same slots have tasks, there are as many tasks.
proof fn lemma_equal_occupancy<T>(a: Seq<SlotModel<T>>, b: Seq<SlotModel<T>>)
    requires
        a.len() == b.len(),
        forall|i: int| 0 <= i < a.len() ==> (a[i].task is Some) == ((#[trigger] b[i]).task is Some),
    ensures
        occupied(a) == occupied(b),
    decreases a.len(),
{
    if a.len() > 0 {
        assert(b.last() == b[b.len() - 1]);
        assert forall|i: int| 0 <= i < a.drop_last().len() implies (a.drop_last()[i].task is Some)
            == ((#[trigger] b.drop_last()[i]).task is Some) by {
            assert(b.drop_last()[i] == b[i]);
        }
        lemma_equal_occupancy(a.drop_last(), b.drop_last());
    }
}

/// Checking tasks removes none of them.
proof fn lemma_same_occupancy<T: WatchdogTask>(a: Seq<SlotModel<T>>, b: Seq<SlotModel<T>>)
    requires
        a.len() == b.len(),
        forall|i: int|
            0 <= i < a.len() ==> #[trigger] slot_passed(a[i], b[i]) || slot_failed(a[i], b[i])
                || b[i] == a[i],
    ensures
        occupied(a) == occupied(b),
{
    assert forall|i: int| 0 <= i < a.len() implies (a[i].task is Some) == ((
    #[trigger] b[i]).task is Some) by {
        assert(slot_passed(a[i], b[i]) || slot_failed(a[i], b[i]) || b[i] == a[i]);
    }
    lemma_equal_occupancy(a, b);
}

} // verus!
