//! A polling watchdog that freezes the whole system when a task is unhealthy.
//!
//! [`Watchdog::poll`] looks for unhealthy tasks. When there is one, every CPU is to run through
//! the freeze sequence: mark itself as frozen, wait until all CPUs are, and then either dump
//! the system (the CPU in charge) or halt. [`FrozenCpus`] tells each CPU what to do next.

use vstd::prelude::*;

verus! {

/// Watchdog task trait. Modules that should be monitored implement this trait.
pub trait WatchdogTask: Send {
    /// What the task may give as its identifier. This is for each task to say; if not
    /// overridden, it may be anything.
    open spec fn may_have_id(&self, id: Seq<char>) -> bool {
        true
    }

    /// What a health check may answer. This is for each task to say; if not overridden, it may
    /// be anything.
    open spec fn may_answer(&self, healthy: bool) -> bool {
        true
    }

    /// Unique identifier for the task (e.g. name or ID).
    fn id(&self) -> (id: &str)
        ensures
            self.may_have_id(id@),
    ;

    /// Check whether the task is healthy.
    /// Return `true` if healthy, `false` to trigger recovery actions.
    fn is_healthy(&self) -> (healthy: bool)
        ensures
            self.may_answer(healthy),
    ;
}

/// The two tasks may give the same identifier.
pub open spec fn may_share_id<T: WatchdogTask>(a: T, b: T) -> bool {
    exists|id: Seq<char>| #[trigger] a.may_have_id(id) && b.may_have_id(id)
}

/// The two tasks may give different identifiers.
pub open spec fn may_differ_in_id<T: WatchdogTask>(a: T, b: T) -> bool {
    exists|x: Seq<char>, y: Seq<char>|
        #[trigger] a.may_have_id(x) && #[trigger] b.may_have_id(y) && x != y
}

/// The task has one identifier, which it always gives.
pub open spec fn has_fixed_id<T: WatchdogTask>(task: T) -> bool {
    forall|x: Seq<char>, y: Seq<char>|
        #[trigger] task.may_have_id(x) && #[trigger] task.may_have_id(y) ==> x == y
}

/// Watchdog error type.
#[derive(Debug, PartialEq, Eq, Structural)]
pub enum WatchdogError {
    /// A task with the same ID is already registered.
    DuplicateTaskId,
}

/// Check if two identifiers are the same.
fn same_id(a: &str, b: &str) -> (same: bool)
    ensures
        same == (a@ == b@),
{
    a.to_owned() == b.to_owned()
}

/// A watchdog with its tasks.
pub struct Watchdog<T: WatchdogTask> {
    tasks: Vec<T>,
}

impl<T: WatchdogTask> View for Watchdog<T> {
    type V = Seq<T>;

    /// The tasks, in the order of their registration.
    closed spec fn view(&self) -> Seq<T> {
        self.tasks@
    }
}

impl<T: WatchdogTask> Watchdog<T> {
    /// Of any two tasks, the one registered later has given another identifier than the
    /// earlier one.
    pub open spec fn wf(&self) -> bool {
        forall|i: int, j: int|
            0 <= i < j < self@.len() ==> #[trigger] may_differ_in_id(self@[i], self@[j])
    }

    /// Create a watchdog without tasks.
    pub fn new() -> (watchdog: Self)
        ensures
            watchdog.wf(),
            watchdog@ == Seq::<T>::empty(),
    {
        Watchdog { tasks: Vec::new() }
    }

    /// Register a task. Returns error on duplicate ID.
    pub fn register_task(&mut self, task: T) -> (res: Result<(), WatchdogError>)
        requires
            old(self).wf(),
        ensures
            final(self).wf(),
            match res {
                Ok(()) => {
                    &&& forall|i: int|
                        0 <= i < old(self)@.len() ==> #[trigger] may_differ_in_id(
                            old(self)@[i],
                            task,
                        )
                    &&& final(self)@ == old(self)@.push(task)
                },
                Err(error) => {
                    &&& error == WatchdogError::DuplicateTaskId
                    &&& exists|i: int|
                        0 <= i < old(self)@.len() && #[trigger] may_share_id(old(self)@[i], task)
                    &&& final(self)@ == old(self)@
                },
            },
    {
        let mut i: usize = 0;
        while i < self.tasks.len()
            invariant
                i <= self.tasks@.len(),
                *self == *old(self),
                self.wf(),
                forall|j: int| 0 <= j < i ==> #[trigger] may_differ_in_id(self@[j], task),
            decreases self.tasks@.len() - i,
        {
            let registered = self.tasks[i].id();
            let new = task.id();
            assert(self@[i as int].may_have_id(registered@) && task.may_have_id(new@));
            if same_id(registered, new) {
                assert(may_share_id(self@[i as int], task));
                return Err(WatchdogError::DuplicateTaskId);
            }
            assert(may_differ_in_id(self@[i as int], task));
            i = i + 1;
        }
        let ghost before = self@;
        self.tasks.push(task);
        proof {
            assert(self@ == before.push(task));
            assert forall|i: int, j: int| 0 <= i < j < self@.len() implies
                #[trigger] may_differ_in_id(self@[i], self@[j]) by {
                assert(self@[i] == before[i]);
                if j < before.len() {
                    assert(may_differ_in_id(before[i], before[j]));
                }
            }
        }
        Ok(())
    }

    /// Poll the registered tasks from number `from` on, up to the first that is unhealthy, and
    /// return its number.
    ///
    /// For each one that is found all CPUs are to be frozen and the system to be dumped; a
    /// caller that gets past that goes on polling with the next number.
    pub fn poll(&self, from: usize) -> (unhealthy: Option<usize>)
        ensures
            match unhealthy {
                Some(found) => {
                    &&& from <= found < self@.len()
                    &&& self@[found as int].may_answer(false)
                    &&& forall|i: int|
                        from <= i < found ==> (#[trigger] self@[i]).may_answer(true)
                },
                None => forall|i: int|
                    from <= i < self@.len() ==> (#[trigger] self@[i]).may_answer(true),
            },
    {
        let mut i: usize = from;
        while i < self.tasks.len()
            invariant
                from <= i,
                forall|j: int| from <= j < i ==> (#[trigger] self@[j]).may_answer(true),
            decreases self.tasks@.len() - i,
        {
            if !self.tasks[i].is_healthy() {
                return Some(i);
            }
            i = i + 1;
        }
        None
    }
}

impl<T: WatchdogTask> Watchdog<T> {
    /// Where the tasks have fixed identifiers, no two registered tasks have the same one.
    pub proof fn law_identifiers_are_unique(&self, i: int, j: int)
        requires
            self.wf(),
            forall|k: int| 0 <= k < self@.len() ==> #[trigger] has_fixed_id(self@[k]),
            0 <= i < j < self@.len(),
        ensures
            !may_share_id(self@[i], self@[j]),
    {
        assert(may_differ_in_id(self@[i], self@[j]));
        assert(has_fixed_id(self@[i]) && has_fixed_id(self@[j]));
    }
}

/// Among tasks with fixed identifiers, a new one is a duplicate of a registered one just if it
/// is not different from it: exactly one of the two answers to a registration is possible.
pub proof fn law_duplicate_or_different<T: WatchdogTask>(registered: T, task: T)
    requires
        has_fixed_id(registered),
        has_fixed_id(task),
        exists|id: Seq<char>| #[trigger] registered.may_have_id(id),
        exists|id: Seq<char>| #[trigger] task.may_have_id(id),
    ensures
        may_share_id(registered, task) <==> !may_differ_in_id(registered, task),
{
    let x = choose|id: Seq<char>| #[trigger] registered.may_have_id(id);
    let y = choose|id: Seq<char>| #[trigger] task.may_have_id(id);
    assert(registered.may_have_id(x) && task.may_have_id(y));
}

impl<T: WatchdogTask> Default for Watchdog<T> {
    fn default() -> (watchdog: Self)
        ensures
            watchdog.wf(),
            watchdog@ == Seq::<T>::empty(),
    {
        Self::new()
    }
}

/// What a CPU in the freeze sequence does next.
#[derive(Debug, Clone, Copy, PartialEq, Eq, Structural)]
pub enum FreezeStep {
    /// Wait: not all CPUs are frozen yet.
    Wait,
    /// Generate the system snapshot, and stop the system.
    Dump,
    /// Halt for good, waiting for debugging or restart.
    Halt,
}

/// Which of `N` CPUs are frozen.
pub struct FrozenCpus<const N: usize> {
    flags: [bool; N],
}

impl<const N: usize> View for FrozenCpus<N> {
    type V = Seq<bool>;

    /// Whether each CPU is frozen, by CPU ID.
    closed spec fn view(&self) -> Seq<bool> {
        self.flags@
    }
}

impl<const N: usize> FrozenCpus<N> {
    /// Every CPU is frozen.
    pub open spec fn complete(&self) -> bool {
        forall|i: int| 0 <= i < N ==> #[trigger] self@[i]
    }

    /// No CPU is frozen.
    pub fn new() -> (frozen: Self)
        ensures
            frozen@ == Seq::new(N as nat, |i: int| false),
    {
        let frozen = FrozenCpus { flags: [false; N] };
        assert(frozen@ =~= Seq::new(N as nat, |i: int| false));
        frozen
    }

    /// Mark a CPU as frozen. It has to be one of the `N`.
    pub fn freeze(&mut self, cpu_id: usize)
        requires
            cpu_id < N,
        ensures
            final(self)@ == old(self)@.update(cpu_id as int, true),
    {
        self.flags[cpu_id] = true;
    }

    /// Check if all CPUs are frozen.
    pub fn all_frozen(&self) -> (all: bool)
        ensures
            all == self.complete(),
    {
        let mut i: usize = 0;
        while i < N
            invariant
                i <= N,
                forall|j: int| 0 <= j < i ==> #[trigger] self@[j],
            decreases N - i,
        {
            if !self.flags[i] {
                assert(!self@[i as int]);
                return false;
            }
            i = i + 1;
        }
        true
    }

    /// What a CPU that is frozen does next: it waits until all CPUs are, and then the first
    /// one is responsible for the snapshot while the others halt.
    pub fn next_step(&self, cpu_id: usize) -> (step: FreezeStep)
        ensures
            step == (if !self.complete() {
                FreezeStep::Wait
            } else if cpu_id == 0 {
                FreezeStep::Dump
            } else {
                FreezeStep::Halt
            }),
    {
        if !self.all_frozen() {
            FreezeStep::Wait
        } else if cpu_id == 0 {
            FreezeStep::Dump
        } else {
            FreezeStep::Halt
        }
    }
}

/// The CPUs after those with the given IDs were frozen, one after the other.
pub open spec fn after_freezes(frozen: Seq<bool>, cpu_ids: Seq<usize>) -> Seq<bool>
    decreases cpu_ids.len(),
{
    if cpu_ids.len() == 0 {
        frozen
    } else {
        after_freezes(frozen, cpu_ids.drop_last()).update(cpu_ids.last() as int, true)
    }
}

impl<const N: usize> FrozenCpus<N> {
    /// Nothing is dumped before every CPU has frozen itself: starting from none, all of them
    /// are frozen just when each has been.
    pub proof fn law_complete_when_each_has_frozen(&self, cpu_ids: Seq<usize>)
        requires
            self@ == after_freezes(Seq::new(N as nat, |i: int| false), cpu_ids),
            forall|k: int| 0 <= k < cpu_ids.len() ==> (#[trigger] cpu_ids[k]) < N,
        ensures
            self.complete() <==> forall|i: usize| i < N ==> #[trigger] cpu_ids.contains(i),
    {
        let start = Seq::new(N as nat, |i: int| false);
        lemma_after_freezes(start, cpu_ids);
        if self.complete() {
            assert forall|i: usize| i < N implies #[trigger] cpu_ids.contains(i) by {
                assert(self@[i as int]);
            }
        }
        if forall|i: usize| i < N ==> #[trigger] cpu_ids.contains(i) {
            assert forall|i: int| 0 <= i < N implies #[trigger] self@[i] by {
                assert(cpu_ids.contains(i as usize));
            }
        }
    }
}

proof fn lemma_after_freezes(frozen: Seq<bool>, cpu_ids: Seq<usize>)
    requires
        frozen.len() <= usize::MAX,
        forall|k: int| 0 <= k < cpu_ids.len() ==> (#[trigger] cpu_ids[k]) < frozen.len(),
    ensures
        after_freezes(frozen, cpu_ids).len() == frozen.len(),
        forall|i: int|
            0 <= i < frozen.len() ==> #[trigger] after_freezes(frozen, cpu_ids)[i] == (frozen[i]
                || cpu_ids.contains(i as usize)),
    decreases cpu_ids.len(),
{
    if cpu_ids.len() > 0 {
        let rest = cpu_ids.drop_last();
        assert forall|k: int| 0 <= k < rest.len() implies (#[trigger] rest[k]) < frozen.len() by {
            assert(rest[k] == cpu_ids[k]);
        }
        lemma_after_freezes(frozen, rest);
        assert(cpu_ids[cpu_ids.len() - 1] == cpu_ids.last());
        assert forall|i: int| 0 <= i < frozen.len() implies #[trigger] after_freezes(
            frozen,
            cpu_ids,
        )[i] == (frozen[i] || cpu_ids.contains(i as usize)) by {
            if cpu_ids.contains(i as usize) {
                let k = choose|k: int| 0 <= k < cpu_ids.len() && cpu_ids[k] == i as usize;
                if k < rest.len() {
                    assert(rest[k] == i as usize);
                }
            }
            if rest.contains(i as usize) {
                let k = choose|k: int| 0 <= k < rest.len() && rest[k] == i as usize;
                assert(cpu_ids[k] == i as usize);
            }
        }
    }
}

} // verus!
