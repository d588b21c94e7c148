use axwatchdog::snapshot::{capture_current_state, format_snapshot, MAX_SNAPSHOTS_PER_CPU};
use axwatchdog::{CpuSnapshot, SnapshotCollector};

#[test]
fn empty_snapshot_is_not_valid() {
    let s = CpuSnapshot::empty();
    assert!(!s.is_valid());
    assert!(!CpuSnapshot::default().is_valid());
    assert!(!capture_current_state().is_valid());
    assert!(s.with_sequence(1).is_valid());
    assert!(CpuSnapshot::new(0, 1, 0, 0, 0).is_valid());
    assert!(!CpuSnapshot::new(5, 0, 1, 1, 1).is_valid());
}

#[test]
fn snapshot_builders() {
    let s = CpuSnapshot::new(1, 2, 3, 4, 5).with_timestamp(6).with_sequence(7);
    assert_eq!(
        (s.cpu_id, s.pc, s.sp, s.lr, s.fp, s.timestamp_ns, s.sequence),
        (1, 2, 3, 4, 5, 6, 7)
    );
    assert_eq!((s.pstate, s.esr, s.far, s.elr), (0, 0, 0, 0));
    assert_eq!(s.gpr, [0; 31]);
    let r = CpuSnapshot::from_registers(1, 2, 3, 4, 5, 6, 7, 8);
    assert_eq!((r.cpu_id, r.timestamp_ns, r.sequence), (0, 0, 0));
    assert_eq!((r.pc, r.sp, r.lr, r.fp), (1, 2, 3, 4));
    assert_eq!((r.pstate, r.esr, r.far, r.elr), (5, 6, 7, 8));
    assert_eq!(r.gpr, [0; 31]);
}

#[test]
fn captured_snapshot_is_the_latest() {
    let mut c = SnapshotCollector::new();
    assert!(c.latest().is_none());
    assert!(c.get(0).is_none());
    assert!(c.iter_valid().is_empty());
    let s = *c.capture(1, 0x10, 0x20, 0x30, 0x40, 99);
    assert_eq!((s.cpu_id, s.pc, s.sp, s.lr, s.fp), (1, 0x10, 0x20, 0x30, 0x40));
    assert_eq!((s.timestamp_ns, s.sequence), (99, 1));
    assert_eq!(c.latest().unwrap().sequence, 1);
    let mut gpr = [0; 31];
    gpr[30] = 8;
    let s = *c.capture_full(2, 0, 1, 2, 3, 4, 5, 6, 7, &gpr, 100);
    assert_eq!((s.pstate, s.esr, s.far, s.elr), (4, 5, 6, 7));
    assert_eq!(s.gpr[30], 8);
    assert_eq!(s.sequence, 2);
    // Valid by its sequence number, although its program counter is zero.
    assert_eq!(c.latest().unwrap().cpu_id, 2);
    assert_eq!(c.total_count(), 2);
}

#[test]
fn snapshots_come_oldest_first() {
    let mut c = SnapshotCollector::default();
    c.capture(0, 1, 0, 0, 0, 0);
    c.capture(0, 2, 0, 0, 0, 0);
    assert_eq!(c.get(0).unwrap().pc, 1);
    assert_eq!(c.get(1).unwrap().pc, 2);
    assert!(c.get(2).is_none());
    for pc in 3..=6 {
        c.capture(0, pc, 0, 0, 0, 0);
    }
    let ages: Vec<usize> = (0..MAX_SNAPSHOTS_PER_CPU)
        .map(|i| c.get(i).unwrap().pc)
        .collect();
    assert_eq!(ages, vec![3, 4, 5, 6]);
    assert!(c.get(MAX_SNAPSHOTS_PER_CPU).is_none());
    let listed: Vec<u64> = c.iter_valid().iter().map(|s| s.sequence).collect();
    assert_eq!(listed, vec![3, 4, 5, 6]);
    assert_eq!(c.latest().unwrap().pc, 6);
    assert_eq!(c.total_count(), 6);
}

#[test]
fn clear_keeps_the_sequence_going() {
    let mut c = SnapshotCollector::new();
    for pc in 1..=5 {
        c.capture(0, pc, 0, 0, 0, 0);
    }
    c.clear();
    assert!(c.latest().is_none());
    assert!(c.iter_valid().is_empty());
    assert_eq!(c.total_count(), 5);
    assert_eq!(c.capture(0, 9, 0, 0, 0, 0).sequence, 6);
    assert_eq!(c.get(0).unwrap().pc, 9);
    assert!(c.get(1).is_none());
}

#[test]
fn formatted_snapshot() {
    let mut gpr = [0u64; 31];
    gpr[0] = 0xdead_beef;
    gpr[30] = u64::MAX;
    let s = CpuSnapshot {
        cpu_id: 12,
        timestamp_ns: 1_000_000,
        sequence: 0,
        pc: 0x4008_0000,
        sp: 0xabc,
        lr: 1,
        fp: 2,
        pstate: 0x3c5,
        esr: 0x9600_0045,
        far: 3,
        elr: 4,
        gpr,
    };
    let mut expected = String::new();
    expected += "=== CPU 12 Snapshot (seq: 0) ===\n";
    expected += "Timestamp: 1000000 ns\n";
    expected += "PC:  0x0000000040080000\n";
    expected += "SP:  0x0000000000000abc\n";
    expected += "LR:  0x0000000000000001\n";
    expected += "FP:  0x0000000000000002\n";
    expected += "ELR: 0x0000000000000004\n";
    expected += "ESR: 0x0000000096000045\n";
    expected += "FAR: 0x0000000000000003\n";
    expected += "PSTATE: 0x00000000000003c5\n";
    for i in (0..31).step_by(4) {
        expected += &format!("X{:02}: {:#018x}", i, gpr[i]);
        for k in i + 1..31.min(i + 4) {
            expected += &format!("  X{:02}: {:#018x}", k, gpr[k]);
        }
        expected += "\n";
    }
    assert_eq!(format_snapshot(&s), expected);
}

#[test]
fn formatted_numbers_match_the_standard_library() {
    for n in [0u64, 7, 9, 10, 42, 99, 100, 12_345_678_901, u64::MAX] {
        let text = format_snapshot(&CpuSnapshot::empty().with_timestamp(n));
        assert!(text.contains(&format!("Timestamp: {} ns\n", n)));
        let mut s = CpuSnapshot::empty();
        s.far = n;
        assert!(format_snapshot(&s).contains(&format!("FAR: {:#018x}\n", n)));
    }
}
