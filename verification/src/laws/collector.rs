//! Laws on CPU snapshots: making, collecting and printing them.

use vstd::prelude::*;

use crate::laws::numbers::{
    digit_value, is_decimal, is_hexadecimal, law_address, law_two_digits, number,
};
use crate::snapshot::{
    capture_current_state, format_snapshot, gpr_text, gprs_text, header_text, CpuSnapshot,
    SnapshotCollector, MAX_SNAPSHOTS_PER_CPU,
};
use crate::text::{address, decimal, two_digits};

verus! {

/// An empty snapshot, however it is made, is zero throughout.
pub proof fn law_empty_snapshot(
    empty: CpuSnapshot,
    by_default: CpuSnapshot,
    captured: CpuSnapshot,
)
    requires
        call_ensures(CpuSnapshot::empty, (), empty),
        call_ensures(<CpuSnapshot as Default>::default, (), by_default),
        call_ensures(capture_current_state, (), captured),
    ensures
        empty.cpu_id == 0 && empty.timestamp_ns == 0 && empty.sequence == 0,
        empty.pc == 0 && empty.sp == 0 && empty.lr == 0 && empty.fp == 0,
        empty.pstate == 0 && empty.esr == 0 && empty.far == 0 && empty.elr == 0,
        forall|i: int| 0 <= i < 31 ==> #[trigger] empty.gpr@[i] == 0,
        by_default.cpu_id == 0 && by_default.timestamp_ns == 0 && by_default.sequence == 0,
        by_default.pc == 0 && by_default.sp == 0 && by_default.lr == 0 && by_default.fp == 0,
        by_default.pstate == 0 && by_default.esr == 0 && by_default.far == 0 && by_default.elr == 0,
        forall|i: int| 0 <= i < 31 ==> #[trigger] by_default.gpr@[i] == 0,
        captured.cpu_id == 0 && captured.timestamp_ns == 0 && captured.sequence == 0,
        captured.pc == 0 && captured.sp == 0 && captured.lr == 0 && captured.fp == 0,
        captured.pstate == 0 && captured.esr == 0 && captured.far == 0 && captured.elr == 0,
        forall|i: int| 0 <= i < 31 ==> #[trigger] captured.gpr@[i] == 0,
{
}

/// A snapshot has the registers it is given, and zeros for the rest.
pub proof fn law_basic_snapshot(
    cpu_id: usize,
    pc: usize,
    sp: usize,
    lr: usize,
    fp: usize,
    snapshot: CpuSnapshot,
)
    requires
        call_ensures(CpuSnapshot::new, (cpu_id, pc, sp, lr, fp), snapshot),
    ensures
        snapshot.cpu_id == cpu_id,
        snapshot.pc == pc,
        snapshot.sp == sp,
        snapshot.lr == lr,
        snapshot.fp == fp,
        snapshot.timestamp_ns == 0 && snapshot.sequence == 0,
        snapshot.pstate == 0 && snapshot.esr == 0 && snapshot.far == 0 && snapshot.elr == 0,
        forall|i: int| 0 <= i < 31 ==> #[trigger] snapshot.gpr@[i] == 0,
{
}

/// A snapshot of registers has each of them in its place, and zeros for the rest.
pub proof fn law_register_snapshot(
    pc: usize,
    sp: usize,
    lr: usize,
    fp: usize,
    pstate: u64,
    esr: u64,
    far: u64,
    elr: u64,
    snapshot: CpuSnapshot,
)
    requires
        call_ensures(
            CpuSnapshot::from_registers,
            (pc, sp, lr, fp, pstate, esr, far, elr),
            snapshot,
        ),
    ensures
        snapshot.pc == pc,
        snapshot.sp == sp,
        snapshot.lr == lr,
        snapshot.fp == fp,
        snapshot.pstate == pstate,
        snapshot.esr == esr,
        snapshot.far == far,
        snapshot.elr == elr,
        snapshot.cpu_id == 0 && snapshot.timestamp_ns == 0 && snapshot.sequence == 0,
        forall|i: int| 0 <= i < 31 ==> #[trigger] snapshot.gpr@[i] == 0,
{
}

/// The timestamp and the sequence number become what they are set to, and nothing else changes. A
/// snapshot is valid just if it has a sequence number or a program counter other than zero.
pub proof fn law_snapshot_settings(
    snapshot: CpuSnapshot,
    timestamp_ns: u64,
    timed: CpuSnapshot,
    sequence: u64,
    numbered: CpuSnapshot,
    valid: bool,
)
    requires
        call_ensures(CpuSnapshot::with_timestamp, (snapshot, timestamp_ns), timed),
        call_ensures(CpuSnapshot::with_sequence, (snapshot, sequence), numbered),
        call_ensures(CpuSnapshot::is_valid, (&snapshot,), valid),
    ensures
        timed == (CpuSnapshot { timestamp_ns, ..snapshot }),
        numbered == (CpuSnapshot { sequence, ..snapshot }),
        valid <==> snapshot.sequence != 0 || snapshot.pc != 0,
{
}

/// A new collector holds nothing and has counted nothing. Clearing one drops what it holds, and
/// keeps its count. The count is what it reads as.
pub proof fn law_collector(
    collector: SnapshotCollector,
    by_default: SnapshotCollector,
    cleared: &mut SnapshotCollector,
    asked: &SnapshotCollector,
    count: u64,
)
    requires
        call_ensures(SnapshotCollector::new, (), collector),
        call_ensures(<SnapshotCollector as Default>::default, (), by_default),
        call_ensures(SnapshotCollector::clear, (cleared,), ()),
        call_ensures(SnapshotCollector::total_count, (asked,), count),
    ensures
        MAX_SNAPSHOTS_PER_CPU == 4,
        collector.wf() && by_default.wf() && final(cleared).wf(),
        collector@.recent.len() == 0 && collector@.total == 0,
        by_default@.recent.len() == 0 && by_default@.total == 0,
        final(cleared)@.recent.len() == 0,
        final(cleared)@.total == old(cleared)@.total,
        count == asked@.total,
{
}

/// A captured snapshot has the registers and the time it is given and the next sequence number. It
/// is held behind the others; of more than four the oldest goes.
pub proof fn law_capture(
    collector: &mut SnapshotCollector,
    cpu_id: usize,
    pc: usize,
    sp: usize,
    lr: usize,
    fp: usize,
    timestamp_ns: u64,
    snapshot: &CpuSnapshot,
)
    requires
        old(collector).wf(),
        call_ensures(
            SnapshotCollector::capture,
            (collector, cpu_id, pc, sp, lr, fp, timestamp_ns),
            snapshot,
        ),
    ensures
        final(collector).wf(),
        snapshot.cpu_id == cpu_id,
        snapshot.timestamp_ns == timestamp_ns,
        snapshot.sequence == old(collector)@.total.wrapping_add(1),
        snapshot.pc == pc,
        snapshot.sp == sp,
        snapshot.lr == lr,
        snapshot.fp == fp,
        snapshot.pstate == 0 && snapshot.esr == 0 && snapshot.far == 0 && snapshot.elr == 0,
        forall|i: int| 0 <= i < 31 ==> #[trigger] snapshot.gpr@[i] == 0,
        final(collector)@.total == snapshot.sequence,
        old(collector)@.recent.len() <= 4,
        old(collector)@.recent.len() < 4 ==> final(collector)@.recent == old(
            collector,
        )@.recent.push(*snapshot),
        old(collector)@.recent.len() == 4 ==> final(collector)@.recent == old(
            collector,
        )@.recent.skip(1).push(*snapshot),
{
    if old(collector)@.recent.len() == 4 {
        old(collector).law_oldest_is_replaced(*snapshot);
    }
}

/// A fully captured snapshot has every register in its place, the general purpose ones included.
/// It is held as any other.
pub proof fn law_capture_full(
    collector: &mut SnapshotCollector,
    cpu_id: usize,
    pc: usize,
    sp: usize,
    lr: usize,
    fp: usize,
    pstate: u64,
    esr: u64,
    far: u64,
    elr: u64,
    gpr: &[u64; 31],
    timestamp_ns: u64,
    snapshot: &CpuSnapshot,
)
    requires
        old(collector).wf(),
        call_ensures(
            SnapshotCollector::capture_full,
            (collector, cpu_id, pc, sp, lr, fp, pstate, esr, far, elr, gpr, timestamp_ns),
            snapshot,
        ),
    ensures
        final(collector).wf(),
        snapshot.cpu_id == cpu_id,
        snapshot.timestamp_ns == timestamp_ns,
        snapshot.sequence == old(collector)@.total.wrapping_add(1),
        snapshot.pc == pc,
        snapshot.sp == sp,
        snapshot.lr == lr,
        snapshot.fp == fp,
        snapshot.pstate == pstate,
        snapshot.esr == esr,
        snapshot.far == far,
        snapshot.elr == elr,
        forall|i: int| 0 <= i < 31 ==> #[trigger] snapshot.gpr@[i] == gpr@[i],
        final(collector)@.total == snapshot.sequence,
        old(collector)@.recent.len() < 4 ==> final(collector)@.recent == old(
            collector,
        )@.recent.push(*snapshot),
        old(collector)@.recent.len() == 4 ==> final(collector)@.recent == old(
            collector,
        )@.recent.skip(1).push(*snapshot),
{
    if old(collector)@.recent.len() == 4 {
        old(collector).law_oldest_is_replaced(*snapshot);
    }
}

/// The latest snapshot is the last one held, and the one of an age is that from the oldest on, as
/// far as they are valid. The listing has the valid ones held, in order.
pub proof fn law_looking_back(
    collector: &SnapshotCollector,
    latest: Option<&CpuSnapshot>,
    index: usize,
    aged: Option<&CpuSnapshot>,
    listed: Vec<CpuSnapshot>,
)
    requires
        collector.wf(),
        call_ensures(SnapshotCollector::latest, (collector,), latest),
        call_ensures(SnapshotCollector::get, (collector, index), aged),
        call_ensures(SnapshotCollector::iter_valid, (collector,), listed),
    ensures
        ({
            let held = collector@.recent;
            &&& latest is Some <==> held.len() > 0 && (held.last().sequence != 0 || held.last().pc
                != 0)
            &&& latest matches Some(found) ==> *found == held.last()
            &&& aged is Some <==> index < held.len() && (held[index as int].sequence != 0
                || held[index as int].pc != 0)
            &&& aged matches Some(found) ==> *found == held[index as int]
            &&& listed@ == held.filter(|s: CpuSnapshot| s.sequence != 0 || s.pc != 0)
        }),
{
    let by_name = |s: CpuSnapshot| s.valid();
    let by_fields = |s: CpuSnapshot| s.sequence != 0 || s.pc != 0;
    assert forall|s: CpuSnapshot| #[trigger] by_name(s) == by_fields(s) by {}
    assert(by_name =~= by_fields);
}

/// Where the label of general purpose register `i` stands, counted from the first label: four to a
/// line of 99 characters, 25 characters apart.
pub open spec fn label_offset(i: int) -> int {
    (i / 4) * 99 + (i % 4) * 25
}

/// How many characters the first `count` registers take.
spec fn registers_len(count: int) -> int {
    if count % 4 == 0 {
        (count / 4) * 99
    } else if count == 31 {
        767
    } else {
        (count / 4) * 99 + (count % 4) * 25 - 2
    }
}

/// The label and value of a register.
spec fn entry(s: CpuSnapshot, i: int) -> Seq<char> {
    "X"@ + two_digits(i as nat) + ": "@ + address(s.gpr@[i] as nat)
}

proof fn lemma_entry(s: CpuSnapshot, i: int)
    requires
        0 <= i < 31,
    ensures
        entry(s, i).len() == 23,
        gpr_text(s, i).len() == (if i % 4 == 0 {
            23int
        } else {
            25
        }) + (if i % 4 == 3 || i == 30 {
            1int
        } else {
            0
        }),
        gpr_text(s, i).subrange(
            if i % 4 == 0 {
                0
            } else {
                2
            },
            if i % 4 == 0 {
                23
            } else {
                25
            },
        ) == entry(s, i),
        i % 4 != 0 ==> gpr_text(s, i)[0] == ' ' && gpr_text(s, i)[1] == ' ',
        i % 4 == 3 || i == 30 ==> gpr_text(s, i).last() == '\n',
{
    reveal_strlit("X");
    reveal_strlit(": ");
    reveal_strlit("  ");
    reveal_strlit("\n");
    law_two_digits(i as u64);
    law_address(s.gpr@[i]);
    assert(gpr_text(s, i).subrange(
        if i % 4 == 0 {
            0
        } else {
            2
        },
        if i % 4 == 0 {
            23
        } else {
            25
        },
    ) =~= entry(s, i));
}

proof fn lemma_registers(s: CpuSnapshot, count: nat)
    requires
        count <= 31,
    ensures
        gprs_text(s, count).len() == registers_len(count as int),
        forall|i: int|
            0 <= i < count ==> {
                &&& label_offset(i) + 23 <= registers_len(count as int)
                &&& #[trigger] gprs_text(s, count).subrange(label_offset(i), label_offset(i) + 23)
                    == entry(s, i)
            },
        forall|i: int|
            #![trigger label_offset(i)]
            0 <= i < count && i % 4 != 0 ==> {
                &&& gprs_text(s, count)[label_offset(i) - 2] == ' '
                &&& gprs_text(s, count)[label_offset(i) - 1] == ' '
            },
        forall|i: int|
            #![trigger label_offset(i)]
            0 <= i < count && (i % 4 == 3 || i == 30) ==> {
                &&& label_offset(i) + 24 <= registers_len(count as int)
                &&& gprs_text(s, count)[label_offset(i) + 23] == '\n'
            },
    decreases count,
{
    if count > 0 {
        let last = count - 1;
        let before = gprs_text(s, last as nat);
        let text = gprs_text(s, count);
        lemma_registers(s, last as nat);
        lemma_entry(s, last);
        assert(text == before + gpr_text(s, last));
        assert forall|i: int| 0 <= i < count implies {
            &&& label_offset(i) + 23 <= registers_len(count as int)
            &&& #[trigger] text.subrange(label_offset(i), label_offset(i) + 23) == entry(s, i)
        } by {
            if i < last {
                assert(before.subrange(label_offset(i), label_offset(i) + 23) == entry(s, i));
                assert(text.subrange(label_offset(i), label_offset(i) + 23) =~= before.subrange(
                    label_offset(i),
                    label_offset(i) + 23,
                ));
            } else {
                let skip: int = if last % 4 == 0 {
                    0
                } else {
                    2
                };
                assert(label_offset(last) == before.len() + skip);
                assert(text.subrange(label_offset(i), label_offset(i) + 23) =~= gpr_text(
                    s,
                    last,
                ).subrange(skip, skip + 23));
            }
        }
    }
}

/// A formatted snapshot ends with its 31 general purpose registers, in 767 characters: there each
/// register `i` has its label, an X with its number in two digits, a colon and a blank, and right
/// behind that `0x` and the sixteen hexadecimal digits of just that register. Registers of a line
/// are two blanks apart, and a line ends behind every fourth register and the last.
pub proof fn law_formatted_registers(snapshot: CpuSnapshot, out: String, i: int)
    requires
        call_ensures(format_snapshot, (&snapshot,), out),
        0 <= i < 31,
    ensures
        ({
            let at = out@.len() - 767 + label_offset(i);
            &&& out@.len() >= 767
            &&& out@[at] == 'X'
            &&& is_decimal(out@[at + 1]) && digit_value(out@[at + 1]) == i / 10
            &&& is_decimal(out@[at + 2]) && digit_value(out@[at + 2]) == i % 10
            &&& out@[at + 3] == ':'
            &&& out@[at + 4] == ' '
            &&& out@[at + 5] == '0'
            &&& out@[at + 6] == 'x'
            &&& forall|k: int| at + 7 <= k < at + 23 ==> is_hexadecimal(#[trigger] out@[k])
            &&& number(out@.subrange(at + 7, at + 23), 16) == snapshot.gpr@[i]
            &&& i % 4 != 0 ==> out@[at - 2] == ' ' && out@[at - 1] == ' '
            &&& i % 4 == 3 || i == 30 ==> out@[at + 23] == '\n'
        }),
{
    let args = (&snapshot,);
    assert(out@ == header_text(*args.0) + gprs_text(*args.0, 31));
    let registers = gprs_text(snapshot, 31);
    let start = out@.len() - 767;
    lemma_registers(snapshot, 31);
    assert(out@.skip(start) =~= registers);
    let at = start + label_offset(i);
    let text = registers.subrange(label_offset(i), label_offset(i) + 23);
    assert(text == entry(snapshot, i));
    assert(out@.subrange(at, at + 23) =~= text);
    reveal_strlit("X");
    reveal_strlit(": ");
    law_two_digits(i as u64);
    law_address(snapshot.gpr@[i]);
    let value = address(snapshot.gpr@[i] as nat);
    assert(text.skip(5) =~= value);
    assert forall|k: int| 0 <= k < 23 implies #[trigger] out@[at + k] == text[k] by {
        assert(out@.subrange(at, at + 23)[k] == text[k]);
    }
    assert(out@.subrange(at + 7, at + 23) =~= value.skip(2));
    assert forall|k: int| at + 7 <= k < at + 23 implies is_hexadecimal(#[trigger] out@[k]) by {
        assert(out@[k] == value[k - at - 5]);
    }
    assert(out@[at] == text[0]);
    assert(out@[at + 1] == text[1]);
    assert(out@[at + 2] == text[2]);
    assert(out@[at + 3] == text[3]);
    assert(out@[at + 4] == text[4]);
    assert(out@[at + 5] == text[5]);
    assert(out@[at + 6] == text[6]);
    if i % 4 != 0 {
        assert(out@[at - 2] == registers[label_offset(i) - 2]);
        assert(out@[at - 1] == registers[label_offset(i) - 1]);
    }
    if i % 4 == 3 || i == 30 {
        assert(out@[at + 23] == registers[label_offset(i) + 23]);
    }
}

/// Before its registers a formatted snapshot has the CPU and the sequence number, the time, and
/// each of the other registers on a line of its own under its name, as an address.
pub proof fn law_formatted_header(snapshot: CpuSnapshot, out: String)
    requires
        call_ensures(format_snapshot, (&snapshot,), out),
    ensures
        out@.len() >= 767,
        out@.take(out@.len() - 767) == "=== CPU "@ + decimal(snapshot.cpu_id as nat)
            + " Snapshot (seq: "@ + decimal(snapshot.sequence as nat) + ") ===\n"@ + "Timestamp: "@
            + decimal(snapshot.timestamp_ns as nat) + " ns\n"@
            + ("PC:  "@ + address(snapshot.pc as nat) + "\n"@)
            + ("SP:  "@ + address(snapshot.sp as nat) + "\n"@)
            + ("LR:  "@ + address(snapshot.lr as nat) + "\n"@)
            + ("FP:  "@ + address(snapshot.fp as nat) + "\n"@)
            + ("ELR: "@ + address(snapshot.elr as nat) + "\n"@)
            + ("ESR: "@ + address(snapshot.esr as nat) + "\n"@)
            + ("FAR: "@ + address(snapshot.far as nat) + "\n"@)
            + ("PSTATE: "@ + address(snapshot.pstate as nat) + "\n"@),
{
    let args = (&snapshot,);
    assert(out@ == header_text(*args.0) + gprs_text(*args.0, 31));
    lemma_registers(snapshot, 31);
    assert(out@.take(out@.len() - 767) =~= header_text(snapshot));
}

/// Two snapshots that differ in general purpose register `i` alone differ in their text, and only
/// in the digits right behind the label of that register.
pub proof fn law_register_in_its_place(
    one: CpuSnapshot,
    other: CpuSnapshot,
    i: int,
    one_out: String,
    other_out: String,
)
    requires
        call_ensures(format_snapshot, (&one,), one_out),
        call_ensures(format_snapshot, (&other,), other_out),
        0 <= i < 31,
        other == (CpuSnapshot { gpr: other.gpr, ..one }),
        one.gpr@[i] != other.gpr@[i],
        forall|k: int| 0 <= k < 31 && k != i ==> one.gpr@[k] == other.gpr@[k],
    ensures
        ({
            let at = one_out@.len() - 767 + label_offset(i);
            &&& one_out@.len() == other_out@.len()
            &&& one_out@.subrange(at + 7, at + 23) != other_out@.subrange(at + 7, at + 23)
            &&& forall|k: int|
                0 <= k < one_out@.len() && !(at + 7 <= k < at + 23) ==> #[trigger] one_out@[k]
                    == other_out@[k]
        }),
{
    let one_args = (&one,);
    let other_args = (&other,);
    assert(one_out@ == header_text(*one_args.0) + gprs_text(*one_args.0, 31));
    assert(other_out@ == header_text(*other_args.0) + gprs_text(*other_args.0, 31));
    assert(header_text(one) == header_text(other));
    lemma_registers(one, 31);
    lemma_registers(other, 31);
    law_formatted_registers(one, one_out, i);
    law_formatted_registers(other, other_out, i);
    lemma_registers_alike(one, other, i, 31);
}

proof fn lemma_registers_alike(one: CpuSnapshot, other: CpuSnapshot, i: int, count: nat)
    requires
        0 <= i < 31,
        count <= 31,
        forall|k: int| 0 <= k < 31 && k != i ==> one.gpr@[k] == other.gpr@[k],
    ensures
        gprs_text(one, count).len() == gprs_text(other, count).len(),
        forall|p: int|
            0 <= p < gprs_text(one, count).len() && !(label_offset(i) + 7 <= p < label_offset(i)
                + 23) ==> #[trigger] gprs_text(one, count)[p] == gprs_text(other, count)[p],
    decreases count,
{
    if count > 0 {
        let last = count - 1;
        lemma_registers_alike(one, other, i, last as nat);
        lemma_registers(one, last as nat);
        lemma_registers(other, last as nat);
        lemma_entry(one, last);
        lemma_entry(other, last);
        if last != i {
            assert(one.gpr@[last] == other.gpr@[last]);
            assert(gpr_text(one, last) == gpr_text(other, last));
        } else {
            lemma_label_alike(one, other, i);
        }
    }
}

proof fn lemma_label_alike(one: CpuSnapshot, other: CpuSnapshot, i: int)
    requires
        0 <= i < 31,
    ensures
        gpr_text(one, i).len() == gpr_text(other, i).len(),
        forall|p: int|
            0 <= p < gpr_text(one, i).len() && !((if i % 4 == 0 {
                7int
            } else {
                9
            }) <= p < (if i % 4 == 0 {
                23int
            } else {
                25
            })) ==> #[trigger] gpr_text(one, i)[p] == gpr_text(other, i)[p],
{
    reveal_strlit("X");
    reveal_strlit(": ");
    reveal_strlit("  ");
    reveal_strlit("\n");
    law_two_digits(i as u64);
    law_address(one.gpr@[i]);
    law_address(other.gpr@[i]);
}

} // verus!
