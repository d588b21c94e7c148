use std::cell::RefCell;
use std::sync::Mutex;

use axwatchdog::{
    HardwareRequest, NmiContext, NmiError, NmiHandlerStorage, NmiSource, PmuNmiSource, SdeiNmi,
};

type Handler = fn(usize, &NmiContext);

fn ignore(_cpu_id: usize, _ctx: &NmiContext) {}

#[test]
fn contexts() {
    let c = NmiContext::new(1, 2, 3, 4, 5);
    assert_eq!((c.cpu_id, c.pc, c.sp, c.lr, c.fp), (1, 2, 3, 4, 5));
    assert_eq!((c.pstate, c.timestamp_ns), (0, 0));
    let e = NmiContext::empty();
    assert_eq!((e.cpu_id, e.pc, e.sp, e.lr, e.fp), (0, 0, 0, 0, 0));
    let d = NmiContext::default();
    assert_eq!((d.pc, d.pstate, d.timestamp_ns), (0, 0, 0));
}

#[test]
fn storage_calls_the_registered_handler() {
    let calls = RefCell::new(Vec::new());
    let first = |cpu_id: usize, ctx: &NmiContext| calls.borrow_mut().push((cpu_id, ctx.pc));
    let mut storage = NmiHandlerStorage::new();
    storage.invoke(1, &NmiContext::empty());
    assert!(storage.get_handler().is_none());
    assert_eq!(storage.set_handler(&first), Ok(()));
    assert!(storage.get_handler().is_some());
    storage.invoke(7, &NmiContext::new(7, 0x99, 0, 0, 0));
    assert_eq!(storage.clear_handler(), Ok(()));
    storage.invoke(8, &NmiContext::empty());
    assert_eq!(*calls.borrow(), vec![(7, 0x99)]);
}

#[test]
fn storage_replaces_a_handler() {
    let calls = RefCell::new(Vec::new());
    let one = |_: usize, _: &NmiContext| calls.borrow_mut().push(1);
    let two = |_: usize, _: &NmiContext| calls.borrow_mut().push(2);
    let mut storage: NmiHandlerStorage<&dyn Fn(usize, &NmiContext)> = NmiHandlerStorage::default();
    storage.set_handler(&one).unwrap();
    storage.set_handler(&two).unwrap();
    storage.invoke(0, &NmiContext::empty());
    assert_eq!(*calls.borrow(), vec![2]);
}

#[test]
fn storage_settings() {
    let mut storage: NmiHandlerStorage<Handler> = NmiHandlerStorage::new();
    assert!(!storage.is_enabled());
    assert_eq!(storage.period_ns(), 0);
    storage.set_enabled(true);
    storage.set_period_ns(5);
    assert!(storage.is_enabled());
    assert_eq!(storage.period_ns(), 5);
    storage.set_enabled(false);
    assert!(!storage.is_enabled());
}

#[test]
fn sdei_source() {
    let mut source: SdeiNmi<Handler> = SdeiNmi::default();
    assert_eq!(source.name(), "SDEI");
    assert_eq!(source.init(), Some(HardwareRequest::Initialize));
    assert_eq!(
        source.complete(HardwareRequest::Initialize, false),
        Err(NmiError::NotAvailable)
    );
    assert_eq!(source.complete(HardwareRequest::Initialize, true), Ok(()));
    assert_eq!(source.set_handler(ignore), Ok(()));
    assert_eq!(source.enable(), None);
    assert!(source.is_enabled());
    assert_eq!(source.set_period_ns(3), Ok(()));
    assert_eq!(source.period_ns(), 3);
    source.acknowledge();
    assert_eq!(source.disable(), Some(HardwareRequest::Disable));
    assert!(!source.is_enabled());
    assert_eq!(
        source.complete(HardwareRequest::Disable, false),
        Err(NmiError::HardwareError)
    );
    assert!(!source.is_enabled());
    assert_eq!(source.clear_handler(), Ok(()));
}

#[test]
fn pmu_source_is_enabled_with_the_hardware() {
    let mut source: PmuNmiSource<Handler> = PmuNmiSource::new(1_000_000);
    assert_eq!(source.threshold(), 1_000_000);
    assert_eq!(source.name(), "PMU");
    assert_eq!(source.init(), Some(HardwareRequest::Initialize));
    assert_eq!(
        source.complete(HardwareRequest::Initialize, false),
        Err(NmiError::NotAvailable)
    );
    assert_eq!(source.enable(), Some(HardwareRequest::Enable));
    assert!(!source.is_enabled());
    assert_eq!(
        source.complete(HardwareRequest::Enable, false),
        Err(NmiError::HardwareError)
    );
    assert!(!source.is_enabled());
    assert_eq!(source.enable(), Some(HardwareRequest::Enable));
    assert_eq!(source.complete(HardwareRequest::Enable, true), Ok(()));
    assert!(source.is_enabled());
    assert_eq!(source.disable(), Some(HardwareRequest::Disable));
    assert!(!source.is_enabled());
    assert_eq!(source.complete(HardwareRequest::Disable, true), Ok(()));
    source.set_period_ns(8).unwrap();
    assert_eq!(source.period_ns(), 8);
    source.acknowledge();
    source.clear_handler().unwrap();
}

#[test]
fn pmu_overflow_calls_the_handler() {
    let calls = Mutex::new(Vec::new());
    let record = |cpu_id: usize, ctx: &NmiContext| {
        calls.lock().unwrap().push((cpu_id, ctx.cpu_id, ctx.pc, ctx.timestamp_ns))
    };
    let mut source = PmuNmiSource::new(1);
    assert!(source.handle_overflow(2, true));
    source.set_handler(&record).unwrap();
    assert!(!source.handle_overflow(3, false));
    assert!(source.handle_overflow(4, true));
    source.clear_handler().unwrap();
    assert!(source.handle_overflow(5, true));
    assert_eq!(*calls.lock().unwrap(), vec![(4, 4, 0, 0)]);
}

#[test]
fn nmi_errors_in_words() {
    assert_eq!(NmiError::NotAvailable.message(), "NMI source not available");
    assert_eq!(NmiError::NotInitialized.message(), "NMI source not initialized");
    assert_eq!(NmiError::AlreadyInitialized.message(), "NMI source already initialized");
    assert_eq!(NmiError::InvalidConfig.message(), "Invalid configuration");
    assert_eq!(NmiError::HandlerExists.message(), "Handler already registered");
    assert_eq!(NmiError::NoHandler.message(), "No handler registered");
    assert_eq!(NmiError::NotSupported.message(), "Operation not supported");
    assert_eq!(NmiError::HardwareError.message(), "Hardware error");
}
