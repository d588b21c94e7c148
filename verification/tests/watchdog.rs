use axwatchdog::watchdog::{FreezeStep, FrozenCpus, Watchdog, WatchdogError, WatchdogTask};

struct Probe {
    id: String,
    healthy: bool,
}

impl WatchdogTask for Probe {
    fn id(&self) -> &str {
        &self.id
    }

    fn is_healthy(&self) -> bool {
        self.healthy
    }
}

fn probe(id: &str, healthy: bool) -> Probe {
    Probe {
        id: id.to_string(),
        healthy,
    }
}

#[test]
fn duplicate_ids_are_refused() {
    let mut w = Watchdog::new();
    assert_eq!(w.register_task(probe("net", true)), Ok(()));
    assert_eq!(w.register_task(probe("disk", true)), Ok(()));
    assert_eq!(
        w.register_task(probe("net", false)),
        Err(WatchdogError::DuplicateTaskId)
    );
    assert_eq!(w.poll(0), None);
}

#[test]
fn poll_finds_each_unhealthy_task() {
    let mut w = Watchdog::default();
    assert_eq!(w.poll(0), None);
    w.register_task(probe("a", true)).unwrap();
    w.register_task(probe("b", false)).unwrap();
    w.register_task(probe("c", true)).unwrap();
    w.register_task(probe("d", false)).unwrap();
    assert_eq!(w.poll(0), Some(1));
    assert_eq!(w.poll(1), Some(1));
    assert_eq!(w.poll(2), Some(3));
    assert_eq!(w.poll(4), None);
    assert_eq!(w.poll(usize::MAX), None);
}

#[test]
fn freeze_sequence() {
    let mut frozen: FrozenCpus<3> = FrozenCpus::new();
    assert!(!frozen.all_frozen());
    frozen.freeze(1);
    frozen.freeze(0);
    assert_eq!(frozen.next_step(0), FreezeStep::Wait);
    assert_eq!(frozen.next_step(1), FreezeStep::Wait);
    frozen.freeze(1);
    assert!(!frozen.all_frozen());
    frozen.freeze(2);
    assert!(frozen.all_frozen());
    assert_eq!(frozen.next_step(0), FreezeStep::Dump);
    assert_eq!(frozen.next_step(1), FreezeStep::Halt);
    assert_eq!(frozen.next_step(2), FreezeStep::Halt);
}
