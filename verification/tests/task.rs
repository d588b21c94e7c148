use axwatchdog::task::MAX_WATCHDOG_TASKS;
use axwatchdog::{
    check_all_tasks, register_task, unregister_task, HeartbeatTask, RegistryError, TaskRegistry,
    WatchdogTask,
};

/// A task that answers as told and counts what is asked of it.
struct Scripted {
    healthy: bool,
    checks: u32,
    timeouts: Vec<usize>,
}

impl Scripted {
    fn new(healthy: bool) -> Self {
        Scripted {
            healthy,
            checks: 0,
            timeouts: Vec::new(),
        }
    }
}

impl WatchdogTask for Scripted {
    fn name(&self) -> &'static str {
        "scripted"
    }

    fn health_check(&mut self) -> bool {
        self.checks += 1;
        self.healthy
    }

    fn on_timeout(&mut self, cpu_id: usize) {
        self.timeouts.push(cpu_id);
    }
}

/// A task with no more than it must have.
struct Minimal;

impl WatchdogTask for Minimal {
    fn name(&self) -> &'static str {
        "my_task"
    }

    fn health_check(&mut self) -> bool {
        true
    }
}

#[test]
fn minimal_task_has_defaults() {
    let mut task = Minimal;
    task.on_timeout(3);
    assert_eq!(task.timeout_ns(), None);
    assert_eq!(task.name(), "my_task");
}

#[test]
fn registering_takes_the_first_empty_slot() {
    let mut registry = TaskRegistry::new();
    assert!(registry.is_empty());
    let a = register_task(&mut registry, HeartbeatTask::new("a")).unwrap();
    let b = register_task(&mut registry, HeartbeatTask::new("b")).unwrap();
    let c = register_task(&mut registry, HeartbeatTask::new("c")).unwrap();
    assert_eq!((a.index(), b.index(), c.index()), (0, 1, 2));
    assert_eq!(registry.count(), 3);
    assert_eq!(unregister_task(&mut registry, b), Ok(()));
    assert_eq!(registry.count(), 2);
    assert!(registry.get(1).is_none());
    let d = registry.register(HeartbeatTask::new("d")).unwrap();
    assert_eq!(d.index(), 1);
    assert_eq!(registry.get(1).unwrap().name(), "d");
    let names: Vec<(usize, &str)> = registry.iter().iter().map(|(i, t)| (*i, t.name())).collect();
    assert_eq!(names, vec![(0, "a"), (1, "d"), (2, "c")]);
}

#[test]
fn stale_handles_are_rejected() {
    let mut registry = TaskRegistry::default();
    let a = registry.register(HeartbeatTask::new("a")).unwrap();
    assert_eq!(registry.unregister(a), Ok(()));
    assert_eq!(registry.unregister(a), Err(RegistryError::InvalidHandle));
    let b = registry.register(HeartbeatTask::new("b")).unwrap();
    assert_eq!(b.index(), a.index());
    assert!(a != b);
    assert_eq!(registry.unregister(a), Err(RegistryError::InvalidHandle));
    assert_eq!(registry.count(), 1);
    assert_eq!(registry.unregister(b), Ok(()));
    assert!(registry.is_empty());
}

#[test]
fn full_registry_refuses() {
    let mut registry = TaskRegistry::new();
    let mut handles = Vec::new();
    for _ in 0..MAX_WATCHDOG_TASKS {
        handles.push(registry.register(HeartbeatTask::new("t")).unwrap());
    }
    assert_eq!(MAX_WATCHDOG_TASKS, 32);
    assert_eq!(registry.count(), 32);
    assert_eq!(
        registry.register(HeartbeatTask::new("t")),
        Err(RegistryError::Full)
    );
    assert_eq!(registry.count(), 32);
    registry.unregister(handles[17]).unwrap();
    assert_eq!(registry.register(HeartbeatTask::new("t")).unwrap().index(), 17);
    assert!(registry.get(32).is_none());
    assert!(registry.get_mut(32).is_none());
}

#[test]
fn check_all_stops_at_the_first_failure() {
    let mut registry = TaskRegistry::new();
    registry.register(Scripted::new(true)).unwrap();
    registry.register(Scripted::new(false)).unwrap();
    registry.register(Scripted::new(false)).unwrap();
    assert!(!registry.check_all());
    let checks: Vec<u32> = registry.iter().iter().map(|(_, t)| t.checks).collect();
    assert_eq!(checks, vec![1, 1, 0]);
    registry.get_mut(1).unwrap().healthy = true;
    registry.get_mut(2).unwrap().healthy = true;
    assert!(check_all_tasks(&mut registry));
}

#[test]
fn empty_registry_is_healthy() {
    let mut registry: TaskRegistry<Scripted> = TaskRegistry::new();
    assert!(registry.check_all());
    assert_eq!(registry.check_all_bitmap(), 0);
    assert!(registry.iter().is_empty());
}

#[test]
fn bitmap_has_a_bit_per_unhealthy_slot() {
    let mut registry = TaskRegistry::new();
    for i in 0..32 {
        registry.register(Scripted::new(i % 5 != 0)).unwrap();
    }
    let expected = (0..32).filter(|i| i % 5 == 0).fold(0u32, |bits, i| bits | 1 << i);
    assert_eq!(registry.check_all_bitmap(), expected);
    for (_, task) in registry.iter() {
        assert_eq!(task.checks, 1);
    }
}

#[test]
fn timeout_goes_to_the_unhealthy_tasks() {
    let mut registry = TaskRegistry::new();
    registry.register(Scripted::new(false)).unwrap();
    registry.register(Scripted::new(true)).unwrap();
    registry.register(Scripted::new(false)).unwrap();
    registry.notify_timeout(9);
    let notified: Vec<Vec<usize>> = registry
        .iter()
        .iter()
        .map(|(_, t)| t.timeouts.clone())
        .collect();
    assert_eq!(notified, vec![vec![9], vec![], vec![9]]);
}

#[test]
fn heartbeat_task_is_healthy_after_a_pet() {
    let mut task = HeartbeatTask::new("beat");
    assert_eq!(task.name(), "beat");
    assert!(!task.health_check());
    task.pet();
    task.pet();
    assert_eq!(task.counter(), 2);
    assert!(task.health_check());
    assert!(!task.health_check());
    assert_eq!(task.timeout_ns(), None);
}

#[test]
fn registered_heartbeat_task_can_be_petted() {
    let mut registry = TaskRegistry::new();
    let handle = registry.register(HeartbeatTask::new("beat")).unwrap();
    assert!(!registry.check_all());
    registry.get_mut(handle.index()).unwrap().pet();
    assert!(registry.check_all());
    assert!(!registry.check_all());
    assert_eq!(registry.get(handle.index()).unwrap().counter(), 1);
}

#[test]
fn registry_errors_in_words() {
    assert_eq!(RegistryError::Full.message(), "Task registry is full");
    assert_eq!(RegistryError::InvalidHandle.message(), "Invalid task handle");
    assert_eq!(RegistryError::SlotOccupied.message(), "Slot already occupied");
    assert_eq!(RegistryError::NotFound.message(), "Task not found");
}
