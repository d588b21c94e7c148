//! CPU snapshots for watchdog dumps.
//!
//! A [`SnapshotCollector`] keeps the state of a CPU at the moments a timeout was detected, in
//! a buffer of fixed size.

use vstd::prelude::*;

use crate::text::{address, decimal, push_address, push_decimal, push_two_digits, two_digits};

verus! {

/// Maximum number of snapshots to keep per CPU.
pub const MAX_SNAPSHOTS_PER_CPU: usize = 4;

/// CPU register snapshot.
///
/// Captures the essential CPU state at the time of watchdog trigger.
#[derive(Debug, Clone, Copy)]
pub struct CpuSnapshot {
    /// CPU ID that this snapshot belongs to.
    pub cpu_id: usize,
    /// Timestamp when snapshot was taken (nanoseconds since boot).
    pub timestamp_ns: u64,
    /// Sequence number for this snapshot.
    pub sequence: u64,
    /// Program counter at interrupt.
    pub pc: usize,
    /// Stack pointer.
    pub sp: usize,
    /// Link register (return address).
    pub lr: usize,
    /// Frame pointer.
    pub fp: usize,
    /// Processor state (PSTATE/CPSR).
    pub pstate: u64,
    /// Exception Syndrome Register (ESR_EL1).
    pub esr: u64,
    /// Fault Address Register (FAR_EL1).
    pub far: u64,
    /// Exception Link Register (ELR_EL1).
    pub elr: u64,
    /// General purpose registers (x0-x30).
    pub gpr: [u64; 31],
}

impl CpuSnapshot {
    /// The general purpose registers are all zero.
    pub open spec fn registers_clear(&self) -> bool {
        forall|i: int| 0 <= i < 31 ==> #[trigger] self.gpr@[i] == 0
    }

    /// The processor state and the exception registers are all zero.
    pub open spec fn exception_state_clear(&self) -> bool {
        &&& self.pstate == 0
        &&& self.esr == 0
        &&& self.far == 0
        &&& self.elr == 0
    }

    /// All fields are zero.
    pub open spec fn is_blank(&self) -> bool {
        &&& self.cpu_id == 0
        &&& self.timestamp_ns == 0
        &&& self.sequence == 0
        &&& self.pc == 0
        &&& self.sp == 0
        &&& self.lr == 0
        &&& self.fp == 0
        &&& self.exception_state_clear()
        &&& self.registers_clear()
    }

    /// The snapshot has been populated.
    pub open spec fn valid(&self) -> bool {
        self.sequence > 0 || self.pc != 0
    }

    /// Create an empty snapshot.
    pub fn empty() -> (snapshot: Self)
        ensures
            snapshot.is_blank(),
    {
        Self::new(0, 0, 0, 0, 0)
    }

    /// Create a snapshot with basic info.
    pub fn new(cpu_id: usize, pc: usize, sp: usize, lr: usize, fp: usize) -> (snapshot: Self)
        ensures
            snapshot.cpu_id == cpu_id,
            snapshot.timestamp_ns == 0,
            snapshot.sequence == 0,
            snapshot.pc == pc,
            snapshot.sp == sp,
            snapshot.lr == lr,
            snapshot.fp == fp,
            snapshot.exception_state_clear(),
            snapshot.registers_clear(),
    {
        CpuSnapshot {
            cpu_id,
            timestamp_ns: 0,
            sequence: 0,
            pc,
            sp,
            lr,
            fp,
            pstate: 0,
            esr: 0,
            far: 0,
            elr: 0,
            gpr: [0; 31],
        }
    }

    /// Create a snapshot of the given registers. The caller has to set the CPU ID and the
    /// timestamp; the general purpose registers need separate capture.
    pub fn from_registers(
        pc: usize,
        sp: usize,
        lr: usize,
        fp: usize,
        pstate: u64,
        esr: u64,
        far: u64,
        elr: u64,
    ) -> (snapshot: Self)
        ensures
            snapshot.cpu_id == 0,
            snapshot.timestamp_ns == 0,
            snapshot.sequence == 0,
            snapshot.pc == pc,
            snapshot.sp == sp,
            snapshot.lr == lr,
            snapshot.fp == fp,
            snapshot.pstate == pstate,
            snapshot.esr == esr,
            snapshot.far == far,
            snapshot.elr == elr,
            snapshot.registers_clear(),
    {
        CpuSnapshot { pstate, esr, far, elr, ..Self::new(0, pc, sp, lr, fp) }
    }

    /// Set timestamp.
    pub fn with_timestamp(self, timestamp_ns: u64) -> (snapshot: Self)
        ensures
            snapshot == (CpuSnapshot { timestamp_ns, ..self }),
    {
        CpuSnapshot { timestamp_ns, ..self }
    }

    /// Set sequence number.
    pub fn with_sequence(self, sequence: u64) -> (snapshot: Self)
        ensures
            snapshot == (CpuSnapshot { sequence, ..self }),
    {
        CpuSnapshot { sequence, ..self }
    }

    /// Check if this snapshot is valid (has been populated).
    pub fn is_valid(&self) -> (valid: bool)
        ensures
            valid == self.valid(),
    {
        self.sequence > 0 || self.pc != 0
    }
}

impl Default for CpuSnapshot {
    fn default() -> (snapshot: Self)
        ensures
            snapshot.is_blank(),
    {
        Self::empty()
    }
}

/// What a collector holds.
pub struct CollectorModel {
    /// The snapshots held, oldest first.
    pub recent: Seq<CpuSnapshot>,
    /// The number of snapshots ever taken, which is the last sequence number given out.
    pub total: u64,
}

/// The last [`MAX_SNAPSHOTS_PER_CPU`] of a run of snapshots, or all if there are fewer.
pub open spec fn latest_of(taken: Seq<CpuSnapshot>) -> Seq<CpuSnapshot> {
    if taken.len() <= MAX_SNAPSHOTS_PER_CPU {
        taken
    } else {
        taken.skip(taken.len() - MAX_SNAPSHOTS_PER_CPU)
    }
}

/// Snapshot collector for a single CPU.
///
/// Uses a circular buffer to store multiple snapshots without allocation: once it is full, a
/// new snapshot takes the place of the oldest one.
pub struct SnapshotCollector {
    /// Circular buffer of snapshots.
    snapshots: [CpuSnapshot; MAX_SNAPSHOTS_PER_CPU],
    /// Number of snapshots written since the last clear; the next one goes to this slot, modulo
    /// the size of the buffer.
    write_index: u64,
    /// Sequence number of the last snapshot.
    sequence: u64,
}

impl View for SnapshotCollector {
    type V = CollectorModel;

    closed spec fn view(&self) -> CollectorModel {
        CollectorModel {
            recent: Seq::new(
                held(self.write_index) as nat,
                |i: int| self.snapshots@[slot_of(self.write_index, i)],
            ),
            total: self.sequence,
        }
    }
}

/// How many snapshots are held after `written` writes.
spec fn held(written: u64) -> int {
    if written < MAX_SNAPSHOTS_PER_CPU {
        written as int
    } else {
        MAX_SNAPSHOTS_PER_CPU as int
    }
}

/// The slot of the snapshot that `i` held ones are older than.
spec fn slot_of(written: u64, i: int) -> int {
    if written < MAX_SNAPSHOTS_PER_CPU {
        i
    } else {
        (written + i) % (MAX_SNAPSHOTS_PER_CPU as int)
    }
}

impl SnapshotCollector {
    /// The snapshots held are the last ones taken, with consecutive sequence numbers.
    pub open spec fn wf(&self) -> bool {
        &&& self@.recent.len() <= MAX_SNAPSHOTS_PER_CPU
        &&& forall|i: int|
            0 <= i < self@.recent.len() ==> (#[trigger] self@.recent[i]).sequence
                == self@.total.wrapping_sub((self@.recent.len() - 1 - i) as u64)
    }

    /// Create a new snapshot collector.
    pub fn new() -> (collector: Self)
        ensures
            collector.wf(),
            collector@.recent == Seq::<CpuSnapshot>::empty(),
            collector@.total == 0,
    {
        let collector = SnapshotCollector {
            snapshots: [CpuSnapshot::empty(); MAX_SNAPSHOTS_PER_CPU],
            write_index: 0,
            sequence: 0,
        };
        assert(collector@.recent =~= Seq::<CpuSnapshot>::empty());
        collector
    }

    /// Store a snapshot under the next sequence number and return its slot.
    fn store(&mut self, snapshot: CpuSnapshot) -> (slot: usize)
        requires
            old(self).wf(),
        ensures
            final(self).wf(),
            final(self)@.total == old(self)@.total.wrapping_add(1),
            final(self)@.recent == latest_of(
                old(self)@.recent.push(
                    (CpuSnapshot { sequence: old(self)@.total.wrapping_add(1), ..snapshot }),
                ),
            ),
            slot < MAX_SNAPSHOTS_PER_CPU,
            final(self).snapshots@[slot as int] == final(self)@.recent.last(),
    {
        let ghost before = *self;
        let seq = self.sequence.wrapping_add(1);
        let written = self.write_index;
        let slot = (written % (MAX_SNAPSHOTS_PER_CPU as u64)) as usize;
        let stored = CpuSnapshot { sequence: seq, ..snapshot };
        self.sequence = seq;
        self.snapshots[slot] = stored;
        // Counting on from the size of the buffer keeps the slot and the buffer full.
        self.write_index = if written == u64::MAX {
            MAX_SNAPSHOTS_PER_CPU as u64
        } else {
            written + 1
        };
        proof {
            let after = latest_of(before@.recent.push(stored));
            assert(slot == written % 4);
            assert(self@.recent.len() == after.len());
            assert forall|i: int| 0 <= i < after.len() implies self@.recent[i] == after[i] by {
                assert(slot_of(self.write_index, i) == if self.write_index < 4 {
                    i
                } else {
                    (self.write_index + i) % 4
                });
                if written >= 4 && i + 1 < 4 {
                    assert(slot_of(written, i + 1) == (written + i + 1) % 4);
                    assert((self.write_index + i) % 4 == (written + i + 1) % 4);
                    assert((written + i + 1) % 4 != written % 4);
                }
            }
            assert(self@.recent =~= after);
        }
        slot
    }

    /// Capture a snapshot from the current context.
    ///
    /// # Arguments
    /// * `cpu_id` - Current CPU ID
    /// * `pc` - Program counter
    /// * `sp` - Stack pointer
    /// * `lr` - Link register
    /// * `fp` - Frame pointer
    /// * `timestamp_ns` - Current timestamp
    ///
    /// # Returns
    /// Reference to the stored snapshot.
    pub fn capture(
        &mut self,
        cpu_id: usize,
        pc: usize,
        sp: usize,
        lr: usize,
        fp: usize,
        timestamp_ns: u64,
    ) -> (snapshot: &CpuSnapshot)
        requires
            old(self).wf(),
        ensures
            final(self).wf(),
            final(self)@.total == old(self)@.total.wrapping_add(1),
            final(self)@.recent == latest_of(old(self)@.recent.push(*snapshot)),
            snapshot.cpu_id == cpu_id,
            snapshot.timestamp_ns == timestamp_ns,
            snapshot.sequence == final(self)@.total,
            snapshot.pc == pc,
            snapshot.sp == sp,
            snapshot.lr == lr,
            snapshot.fp == fp,
            snapshot.exception_state_clear(),
            snapshot.registers_clear(),
    {
        let slot = self.store(
            CpuSnapshot::new(cpu_id, pc, sp, lr, fp).with_timestamp(timestamp_ns),
        );
        &self.snapshots[slot]
    }

    /// Capture with full register state.
    pub fn capture_full(
        &mut self,
        cpu_id: usize,
        pc: usize,
        sp: usize,
        lr: usize,
        fp: usize,
        pstate: u64,
        esr: u64,
        far: u64,
        elr: u64,
        gpr: &[u64; 31],
        timestamp_ns: u64,
    ) -> (snapshot: &CpuSnapshot)
        requires
            old(self).wf(),
        ensures
            final(self).wf(),
            final(self)@.total == old(self)@.total.wrapping_add(1),
            final(self)@.recent == latest_of(old(self)@.recent.push(*snapshot)),
            *snapshot == (CpuSnapshot {
                cpu_id,
                timestamp_ns,
                sequence: final(self)@.total,
                pc,
                sp,
                lr,
                fp,
                pstate,
                esr,
                far,
                elr,
                gpr: *gpr,
            }),
    {
        let slot = self.store(
            CpuSnapshot {
                cpu_id,
                timestamp_ns,
                sequence: 0,
                pc,
                sp,
                lr,
                fp,
                pstate,
                esr,
                far,
                elr,
                gpr: *gpr,
            },
        );
        &self.snapshots[slot]
    }

    /// Get the most recent snapshot.
    pub fn latest(&self) -> (snapshot: Option<&CpuSnapshot>)
        ensures
            match snapshot {
                Some(s) => self@.recent.len() > 0 && self@.recent.last().valid() && *s
                    == self@.recent.last(),
                None => self@.recent.len() == 0 || !self@.recent.last().valid(),
            },
    {
        let written = self.write_index;
        if written == 0 {
            return None;
        }
        let slot = ((written - 1) % (MAX_SNAPSHOTS_PER_CPU as u64)) as usize;
        proof {
            let newest = held(written) - 1;
            assert(slot == (written - 1) % 4);
            if written >= 4 {
                assert(slot_of(written, newest) == (written + 3) % 4);
            }
            assert(slot_of(written, newest) == slot);
            assert(self@.recent.last() == self.snapshots@[slot as int]);
        }
        let snapshot = &self.snapshots[slot];
        if snapshot.is_valid() {
            Some(snapshot)
        } else {
            None
        }
    }

    /// Get snapshot by age (0 = oldest, N-1 = newest, of the N that are held).
    pub fn get(&self, index: usize) -> (snapshot: Option<&CpuSnapshot>)
        ensures
            match snapshot {
                Some(s) => index < self@.recent.len() && self@.recent[index as int].valid() && *s
                    == self@.recent[index as int],
                None => index >= self@.recent.len() || !self@.recent[index as int].valid(),
            },
    {
        let written = self.write_index;
        if index >= MAX_SNAPSHOTS_PER_CPU || (index as u64) >= written {
            return None;
        }
        let slot = if written < MAX_SNAPSHOTS_PER_CPU as u64 {
            index
        } else {
            ((written % (MAX_SNAPSHOTS_PER_CPU as u64)) as usize + index) % MAX_SNAPSHOTS_PER_CPU
        };
        proof {
            if written >= 4 {
                assert(slot == (written % 4 + index) % 4);
                assert(slot_of(written, index as int) == (written + index) % 4);
            }
            assert(slot_of(written, index as int) == slot);
        }
        let snapshot = &self.snapshots[slot];
        if snapshot.is_valid() {
            Some(snapshot)
        } else {
            None
        }
    }

    /// Get all valid snapshots, oldest first.
    pub fn iter_valid(&self) -> (snapshots: Vec<CpuSnapshot>)
        ensures
            snapshots@ == self@.recent.filter(|s: CpuSnapshot| s.valid()),
    {
        let ghost valid = |s: CpuSnapshot| s.valid();
        let mut snapshots: Vec<CpuSnapshot> = Vec::new();
        let mut index: usize = 0;
        proof {
            assert(self@.recent.take(0) =~= Seq::<CpuSnapshot>::empty());
            reveal(Seq::filter);
        }
        while index < MAX_SNAPSHOTS_PER_CPU
            invariant
                index <= MAX_SNAPSHOTS_PER_CPU,
                self@.recent.len() <= MAX_SNAPSHOTS_PER_CPU,
                valid == (|s: CpuSnapshot| s.valid()),
                index <= self@.recent.len() ==> snapshots@ == self@.recent.take(
                    index as int,
                ).filter(valid),
                index > self@.recent.len() ==> snapshots@ == self@.recent.filter(valid),
            decreases MAX_SNAPSHOTS_PER_CPU - index,
        {
            proof {
                let recent = self@.recent;
                if index < recent.len() {
                    let prefix = recent.take(index + 1);
                    assert(prefix.drop_last() =~= recent.take(index as int));
                    assert(prefix.last() == recent[index as int]);
                    reveal(Seq::filter);
                } else {
                    assert(recent.take(recent.len() as int) =~= recent);
                }
            }
            if let Some(snapshot) = self.get(index) {
                snapshots.push(*snapshot);
            }
            index = index + 1;
        }
        assert(self@.recent.take(self@.recent.len() as int) =~= self@.recent);
        snapshots
    }

    /// Get the total number of snapshots taken.
    pub fn total_count(&self) -> (count: u64)
        ensures
            count == self@.total,
    {
        self.sequence
    }

    /// Clear all snapshots.
    ///
    /// The sequence number goes on, to preserve history.
    pub fn clear(&mut self)
        ensures
            final(self).wf(),
            final(self)@.recent == Seq::<CpuSnapshot>::empty(),
            final(self)@.total == old(self)@.total,
    {
        self.snapshots = [CpuSnapshot::empty(); MAX_SNAPSHOTS_PER_CPU];
        self.write_index = 0;
        assert(self@.recent =~= Seq::<CpuSnapshot>::empty());
    }
}

impl Default for SnapshotCollector {
    fn default() -> (collector: Self)
        ensures
            collector.wf(),
            collector@.recent == Seq::<CpuSnapshot>::empty(),
            collector@.total == 0,
    {
        Self::new()
    }
}

impl SnapshotCollector {
    /// The snapshot just captured is the most recent one, and a valid one unless its sequence
    /// number has wrapped around to zero and its program counter is zero.
    pub proof fn law_captured_is_latest(&self, after: Self, snapshot: CpuSnapshot)
        requires
            self.wf(),
            after@.recent == latest_of(self@.recent.push(snapshot)),
            after@.total == self@.total.wrapping_add(1),
            snapshot.sequence == after@.total,
            self@.total != u64::MAX || snapshot.pc != 0,
        ensures
            after@.recent.len() > 0,
            after@.recent.last() == snapshot,
            snapshot.valid(),
    {
    }

    /// A full buffer loses its oldest snapshot and keeps the others, in order.
    pub proof fn law_oldest_is_replaced(&self, snapshot: CpuSnapshot)
        requires
            self.wf(),
            self@.recent.len() == MAX_SNAPSHOTS_PER_CPU,
        ensures
            latest_of(self@.recent.push(snapshot)) == self@.recent.skip(1).push(snapshot),
    {
        assert(latest_of(self@.recent.push(snapshot)) =~= self@.recent.skip(1).push(snapshot));
    }

    /// Older snapshots have smaller sequence numbers: they count up by one from snapshot to
    /// snapshot, except where the number wraps around.
    pub proof fn law_oldest_first(&self, i: int, j: int)
        requires
            self.wf(),
            0 <= i < j < self@.recent.len(),
            self@.recent[i].sequence + (j - i) <= u64::MAX,
        ensures
            self@.recent[i].sequence + (j - i) == self@.recent[j].sequence,
    {
    }

    /// Every snapshot held is valid, so that all of them are listed, unless the sequence
    /// numbers have wrapped around and a program counter is zero.
    pub proof fn law_all_held_are_listed(&self)
        requires
            self.wf(),
            self@.total >= self@.recent.len() || forall|i: int|
                0 <= i < self@.recent.len() ==> (#[trigger] self@.recent[i]).pc != 0,
        ensures
            self@.recent.filter(|s: CpuSnapshot| s.valid()) == self@.recent,
    {
        lemma_filter_keeps_all(self@.recent);
    }
}

/// Capture current CPU state, where the CPU's registers cannot be read: an empty snapshot.
pub fn capture_current_state() -> (snapshot: CpuSnapshot)
    ensures
        snapshot.is_blank(),
{
    CpuSnapshot::empty()
}

/// A line with a label and a register.
pub open spec fn register_line(label: Seq<char>, value: nat) -> Seq<char> {
    label + address(value) + "\n"@
}

/// The lines of a formatted snapshot that come before the general purpose registers.
pub open spec fn header_text(s: CpuSnapshot) -> Seq<char> {
    "=== CPU "@ + decimal(s.cpu_id as nat) + " Snapshot (seq: "@ + decimal(s.sequence as nat)
        + ") ===\n"@ + "Timestamp: "@ + decimal(s.timestamp_ns as nat) + " ns\n"@ + register_line(
        "PC:  "@,
        s.pc as nat,
    ) + register_line("SP:  "@, s.sp as nat) + register_line("LR:  "@, s.lr as nat) + register_line(
        "FP:  "@,
        s.fp as nat,
    ) + register_line("ELR: "@, s.elr as nat) + register_line("ESR: "@, s.esr as nat)
        + register_line("FAR: "@, s.far as nat) + register_line("PSTATE: "@, s.pstate as nat)
}

/// General purpose register `i` in a formatted snapshot: four registers to a line, with two
/// blanks between them.
pub open spec fn gpr_text(s: CpuSnapshot, i: int) -> Seq<char> {
    (if i % 4 == 0 {
        Seq::<char>::empty()
    } else {
        "  "@
    }) + "X"@ + two_digits(i as nat) + ": "@ + address(s.gpr@[i] as nat) + (if i % 4 == 3 || i
        == 30 {
        "\n"@
    } else {
        Seq::<char>::empty()
    })
}

/// The first `count` general purpose registers in a formatted snapshot.
pub open spec fn gprs_text(s: CpuSnapshot, count: nat) -> Seq<char>
    decreases count,
{
    if count == 0 {
        Seq::empty()
    } else {
        gprs_text(s, (count - 1) as nat) + gpr_text(s, count - 1)
    }
}

/// A snapshot as text.
pub open spec fn snapshot_text(s: CpuSnapshot) -> Seq<char> {
    header_text(s) + gprs_text(s, 31)
}

/// Append a line with a label and a register.
fn push_register_line(out: &mut String, label: &str, value: u64)
    ensures
        final(out)@ == old(out)@ + register_line(label@, value as nat),
{
    out.append(label);
    push_address(out, value);
    out.append("\n");
    assert(out@ =~= old(out)@ + register_line(label@, value as nat));
}

/// Format a snapshot for display.
pub fn format_snapshot(snapshot: &CpuSnapshot) -> (out: String)
    ensures
        out@ == snapshot_text(*snapshot),
{
    let mut out = String::new();
    out.append("=== CPU ");
    push_decimal(&mut out, snapshot.cpu_id as u64);
    out.append(" Snapshot (seq: ");
    push_decimal(&mut out, snapshot.sequence);
    out.append(") ===\n");
    out.append("Timestamp: ");
    push_decimal(&mut out, snapshot.timestamp_ns);
    out.append(" ns\n");
    push_register_line(&mut out, "PC:  ", snapshot.pc as u64);
    push_register_line(&mut out, "SP:  ", snapshot.sp as u64);
    push_register_line(&mut out, "LR:  ", snapshot.lr as u64);
    push_register_line(&mut out, "FP:  ", snapshot.fp as u64);
    push_register_line(&mut out, "ELR: ", snapshot.elr);
    push_register_line(&mut out, "ESR: ", snapshot.esr);
    push_register_line(&mut out, "FAR: ", snapshot.far);
    push_register_line(&mut out, "PSTATE: ", snapshot.pstate);
    assert(out@ =~= header_text(*snapshot));
    let mut i: usize = 0;
    assert(out@ =~= header_text(*snapshot) + gprs_text(*snapshot, 0));
    while i < 31
        invariant
            i <= 31,
            out@ == header_text(*snapshot) + gprs_text(*snapshot, i as nat),
        decreases 31 - i,
    {
        let ghost before = out@;
        if i % 4 != 0 {
            out.append("  ");
        }
        out.append("X");
        push_two_digits(&mut out, i as u64);
        out.append(": ");
        push_address(&mut out, snapshot.gpr[i]);
        if i % 4 == 3 || i == 30 {
            out.append("\n");
        }
        assert(out@ =~= before + gpr_text(*snapshot, i as int));
        i = i + 1;
        assert(out@ =~= header_text(*snapshot) + gprs_text(*snapshot, i as nat));
    }
    out
}

proof fn lemma_filter_keeps_all(s: Seq<CpuSnapshot>)
    requires
        forall|i: int| 0 <= i < s.len() ==> (#[trigger] s[i]).valid(),
    ensures
        s.filter(|s: CpuSnapshot| s.valid()) == s,
    decreases s.len(),
{
    reveal(Seq::filter);
    if s.len() > 0 {
        lemma_filter_keeps_all(s.drop_last());
        assert(s.drop_last().push(s.last()) =~= s);
    } else {
        assert(s.filter(|s: CpuSnapshot| s.valid()) =~= s);
    }
}

} // verus!
