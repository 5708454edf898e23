//! The recorder of instruction execution: it attributes the cycles between
//! two readings of the counter to the opcode that ran in between.
use super::types::{call_opcode_index, call_opcode_slot, OpcodeRecord, OpcodeRecordView, SLOAD};
use crate::utils::time_utils::cycles::{convert_cycles_to_ns, saturate_u64, CycleClock};
use crate::utils::time_utils::instant::Instant;
use vstd::prelude::*;

verus! {

impl OpcodeRecordView {
    /// The record after one more execution of `opcode` has been counted.
    pub open spec fn count_op(self, opcode: u8) -> OpcodeRecordView {
        let slot = self.table[opcode as int];
        OpcodeRecordView {
            table: self.table.update(opcode as int, (slot.0 + 1, slot.1, slot.2)),
            ..self
        }
    }

    /// The record after `cycles` have been added to the time of `opcode`.
    pub open spec fn add_cycles(self, opcode: u8, cycles: nat) -> OpcodeRecordView {
        let slot = self.table[opcode as int];
        OpcodeRecordView {
            table: self.table.update(opcode as int, (slot.0, slot.1 + cycles, slot.2)),
            ..self
        }
    }

    /// The record after `gas` has been added to the gas of `opcode`.
    pub open spec fn add_gas(self, opcode: u8, gas: nat) -> OpcodeRecordView {
        let slot = self.table[opcode as int];
        OpcodeRecordView {
            table: self.table.update(opcode as int, (slot.0, slot.1, slot.2 + gas)),
            ..self
        }
    }

    /// The record after `cycles` have been attributed to `opcode` and the
    /// total time has been set to `total`.
    pub open spec fn timed(self, opcode: u8, cycles: nat, total: nat) -> OpcodeRecordView {
        OpcodeRecordView { total_time: total, ..self.add_cycles(opcode, cycles) }
    }

    /// The record after one execution of `opcode` that took `cycles` cycles,
    /// which are `nanos` nanoseconds, with `total` cycles gone since the
    /// start: the opcode is counted and timed, the total is set, the
    /// execution enters the distribution if the opcode is `SLOAD`, and the
    /// record is marked as updated.
    pub open spec fn executed(self, opcode: u8, cycles: nat, nanos: nat, total: nat)
        -> OpcodeRecordView {
        let timed = self.count_op(opcode).timed(opcode, cycles, total);
        OpcodeRecordView {
            sload: if opcode == SLOAD {
                timed.sload.record(nanos)
            } else {
                timed.sload
            },
            is_updated: true,
            ..timed
        }
    }

    /// The record after the interpreter was entered again by the call-like
    /// opcode `opcode`: the `cycles` up to the entry go to the opcode, the
    /// total is set, and the entry is counted.
    pub open spec fn reentered(self, opcode: u8, cycles: nat, total: nat) -> OpcodeRecordView {
        let timed = self.timed(opcode, cycles, total);
        match call_opcode_slot(opcode) {
            Some(slot) => OpcodeRecordView {
                additional: timed.additional.update(slot, timed.additional[slot] + 1),
                ..timed
            },
            None => timed,
        }
    }
}

/// Records information during instruction execution and keeps it in an
/// `OpcodeRecord` until it is retrieved.
#[derive(Debug, Clone, Copy)]
pub struct InstructionMetricRecoder {
    /// What was recorded since the last retrieval.
    pub record: OpcodeRecord,
    /// When recording started.
    pub start_time: Option<Instant>,
    /// When the last measurement was taken.
    pub pre_time: Option<Instant>,
    /// The opcode that was last announced.
    pub pre_opcode: Option<u8>,
    /// Whether recording has started.
    pub started: bool,
}

impl Default for InstructionMetricRecoder {
    fn default() -> (r: Self)
        ensures
            r.is_reset(),
    {
        InstructionMetricRecoder {
            record: OpcodeRecord::default(),
            start_time: None,
            pre_time: None,
            pre_opcode: None,
            started: false,
        }
    }
}

impl InstructionMetricRecoder {
    /// The recorder holds an empty record and has not started.
    pub open spec fn is_reset(self) -> bool {
        &&& self.record@ == OpcodeRecordView::empty()
        &&& self.start_time is None
        &&& self.pre_time is None
        &&& self.pre_opcode is None
        &&& !self.started
    }

    /// Both the start and the last measurement are known.
    pub open spec fn is_timing(self) -> bool {
        self.start_time is Some && self.pre_time is Some
    }

    /// Whether the opcode that was last announced is a call-like one.
    pub open spec fn announced_call(self) -> bool {
        self.pre_opcode matches Some(opcode) && call_opcode_slot(opcode) is Some
    }

    /// The cycles from the last measurement to `now`.
    pub open spec fn slice(self, now: Instant) -> nat {
        now.elapsed_since(self.pre_time->0) as nat
    }

    /// The cycles from the start to `now`.
    pub open spec fn span(self, now: Instant) -> nat {
        now.elapsed_since(self.start_time->0) as nat
    }

    /// Whether `start_record` at `now` finds the times it reads and room in
    /// the counters it raises.
    pub open spec fn start_fits(self, now: Instant) -> bool {
        self.started && self.announced_call() ==> {
            &&& self.is_timing()
            &&& self.time_fits(now, self.pre_opcode->0)
            &&& self.record@.additional[call_opcode_slot(self.pre_opcode->0)->0] < u64::MAX
        }
    }

    /// Whether `post` is this recorder after `start_record` at `now`. The
    /// first start sets the start and the last measurement to `now`. A later
    /// one, which comes when a call-like opcode enters the interpreter again,
    /// attributes the cycles so far to that opcode and counts the entry;
    /// after any other opcode it changes nothing.
    pub open spec fn start_record_gives(self, now: Instant, post: Self) -> bool {
        &&& post.started
        &&& post.pre_opcode == self.pre_opcode
        &&& !self.started ==> {
            &&& post.record == self.record
            &&& post.start_time == Some(now)
            &&& post.pre_time == Some(now)
        }
        &&& self.started && !self.announced_call() ==> post == self
        &&& self.started && self.announced_call() ==> {
            &&& post.record@ == self.record@.reentered(
                self.pre_opcode->0,
                self.slice(now),
                self.span(now),
            )
            &&& post.start_time == self.start_time
            &&& post.pre_time == Some(now)
        }
    }

    /// Whether the time of `opcode` can take the cycles up to `now`.
    pub open spec fn time_fits(self, now: Instant, opcode: u8) -> bool {
        self.record@.table[opcode as int].1 + self.slice(now) <= u64::MAX
    }

    /// Whether `post` is this recorder after `record_time`: the cycles from
    /// the last measurement to `now` have gone to `opcode`, `now` is the last
    /// measurement, and the total time is the cycles since the start.
    pub open spec fn record_time_gives(self, now: Instant, opcode: u8, post: Self) -> bool {
        &&& post.record@ == self.record@.timed(opcode, self.slice(now), self.span(now))
        &&& post.pre_time == Some(now)
        &&& post.start_time == self.start_time
        &&& post.pre_opcode == self.pre_opcode
        &&& post.started == self.started
    }

    /// Whether everything that `record_op` raises can take what it adds.
    pub open spec fn op_fits(self, now: Instant, opcode: u8, clock: CycleClock) -> bool {
        &&& self.record@.table[opcode as int].0 < u64::MAX
        &&& self.time_fits(now, opcode)
        &&& opcode == SLOAD ==> {
            &&& self.record@.sload.spans_fit()
            &&& self.record@.sload.record_fits(saturate_u64(clock.nanos(self.slice(now))) as nat)
        }
    }

    /// Whether `post` is this recorder after `record_op`: one execution of
    /// `opcode` that ended at `now` is in the record, and `now` is the last
    /// measurement.
    pub open spec fn record_op_gives(
        self,
        opcode: u8,
        now: Instant,
        clock: CycleClock,
        post: Self,
    ) -> bool {
        &&& post.record@ == self.record@.executed(
            opcode,
            self.slice(now),
            saturate_u64(clock.nanos(self.slice(now))) as nat,
            self.span(now),
        )
        &&& post.pre_time == Some(now)
        &&& post.start_time == self.start_time
        &&& post.pre_opcode == self.pre_opcode
        &&& post.started == self.started
    }

    /// Whether the gas of `opcode` can take `gas_used` more.
    pub open spec fn gas_fits(self, opcode: u8, gas_used: u64) -> bool {
        self.record@.table[opcode as int].2 + gas_used <= i128::MAX
    }

    /// Whether `post` is this recorder after `record_gas`.
    pub open spec fn record_gas_gives(self, opcode: u8, gas_used: u64, post: Self) -> bool {
        &&& post.record@ == self.record@.add_gas(opcode, gas_used as nat)
        &&& post.start_time == self.start_time
        &&& post.pre_time == self.pre_time
        &&& post.pre_opcode == self.pre_opcode
        &&& post.started == self.started
    }

    /// Decides whether `record_time` can attribute the cycles up to `now` to
    /// `opcode`: the times it reads are there and the time of the opcode
    /// can take the cycles.
    pub fn can_record_time(&self, now: Instant, opcode: u8) -> (r: bool)
        ensures
            r == (self.is_timing() && self.time_fits(now, opcode)),
    {
        match (self.start_time, self.pre_time) {
            (Some(_), Some(pre_time)) => {
                let slot = self.record.opcode_record[opcode as usize];
                assert(slot.1 == self.record@.table[opcode as int].1);
                slot.1 <= u64::MAX - now.cycles_since(pre_time)
            },
            _ => false,
        }
    }

    /// Decides `start_fits`.
    pub fn can_start(&self, now: Instant) -> (r: bool)
        ensures
            r == self.start_fits(now),
    {
        if !self.started {
            return true;
        }
        match self.pre_opcode {
            Some(opcode) => match call_opcode_index(opcode) {
                Some(index) => {
                    assert(self.record@.additional[index as int]
                        == self.record.additional_count[index as int]);
                    self.can_record_time(now, opcode) && self.record.additional_count[index]
                        < u64::MAX
                },
                None => true,
            },
            None => true,
        }
    }

    /// Decides whether `record_op` can record an execution of `opcode` that
    /// ended at `now`: the times it reads are there, and everything that it
    /// raises can take what it adds.
    pub fn can_record_op(&self, opcode: u8, now: Instant, clock: &CycleClock) -> (r: bool)
        ensures
            r == (self.is_timing() && self.op_fits(now, opcode, *clock)),
    {
        match self.pre_time {
            Some(pre_time) => {
                let slot = self.record.opcode_record[opcode as usize];
                assert(slot.0 == self.record@.table[opcode as int].0);
                if slot.0 == u64::MAX || !self.can_record_time(now, opcode) {
                    return false;
                }
                if opcode == SLOAD {
                    let cycles: u64 = now.cycles_since(pre_time);
                    self.record.sload_percentile.can_record(convert_cycles_to_ns(clock, cycles))
                } else {
                    true
                }
            },
            None => false,
        }
    }

    /// Decides `gas_fits`.
    pub fn can_record_gas(&self, opcode: u8, gas_used: u64) -> (r: bool)
        ensures
            r == self.gas_fits(opcode, gas_used),
    {
        let slot = self.record.opcode_record[opcode as usize];
        assert(slot.2 == self.record@.table[opcode as int].2);
        slot.2 <= i128::MAX - gas_used as i128
    }

    /// Starts recording at `now`; `start_record_gives` says what that does.
    pub fn start_record(&mut self, now: Instant)
        requires
            old(self).start_fits(now),
        ensures
            old(self).start_record_gives(now, *final(self)),
    {
        if !self.started {
            self.start_time = Some(now);
            self.pre_time = Some(now);
        } else if self.has_call_opcode() {
            match self.pre_opcode {
                Some(opcode) => {
                    let _ = self.record_time(now, opcode);
                    self.record.add_additional_count(opcode, 1);
                },
                None => {},
            }
        }
        self.started = true;
    }

    /// Whether the opcode that was last announced is a call-like one.
    pub fn has_call_opcode(&self) -> (r: bool)
        ensures
            r == self.announced_call(),
    {
        match self.pre_opcode {
            Some(opcode) => call_opcode_index(opcode).is_some(),
            None => false,
        }
    }

    /// Announces the opcode that is about to run.
    pub fn record_before_op(&mut self, opcode: u8)
        ensures
            *final(self) == (InstructionMetricRecoder { pre_opcode: Some(opcode), ..*old(self) }),
    {
        self.pre_opcode = Some(opcode);
    }

    /// Attributes the cycles from the last measurement to `now` to `opcode`,
    /// makes `now` the last measurement and sets the total time to the cycles
    /// since the start. Returns the cycles attributed.
    pub fn record_time(&mut self, now: Instant, opcode: u8) -> (cycles: u64)
        requires
            old(self).is_timing(),
            old(self).time_fits(now, opcode),
        ensures
            cycles == old(self).slice(now),
            old(self).record_time_gives(now, opcode, *final(self)),
    {
        let pre_time: Instant = match self.pre_time {
            Some(time) => time,
            None => now,
        };
        let start_time: Instant = match self.start_time {
            Some(time) => time,
            None => now,
        };
        let cycles: u64 = now.cycles_since(pre_time);
        let index: usize = opcode as usize;
        let slot = self.record.opcode_record[index];
        assert(slot.1 == old(self).record@.table[opcode as int].1);
        self.record.opcode_record[index] = (slot.0, slot.1 + cycles, slot.2);
        self.pre_time = Some(now);
        self.record.total_time = now.cycles_since(start_time);
        assert(self.record@.table =~= old(self).record@.timed(
            opcode,
            old(self).slice(now),
            old(self).span(now),
        ).table);
        assert(self.record@.additional =~= old(self).record@.additional);
        cycles
    }

    /// Records one execution of `opcode` that ended at `now`: the count, the
    /// time and, for `SLOAD`, the distribution of its duration on `clock`.
    pub fn record_op(&mut self, opcode: u8, now: Instant, clock: &CycleClock)
        requires
            old(self).is_timing(),
            old(self).op_fits(now, opcode, *clock),
        ensures
            old(self).record_op_gives(opcode, now, *clock, *final(self)),
    {
        let index: usize = opcode as usize;
        let slot = self.record.opcode_record[index];
        assert(slot.0 == old(self).record@.table[opcode as int].0);
        assert(slot.1 == old(self).record@.table[opcode as int].1);
        self.record.opcode_record[index] = (slot.0 + 1, slot.1, slot.2);
        assert(self.record@.table =~= old(self).record@.count_op(opcode).table);
        assert(self.record@.additional =~= old(self).record@.additional);
        assert(self.record@ == old(self).record@.count_op(opcode));

        let cycles: u64 = self.record_time(now, opcode);

        if opcode == SLOAD {
            self.record.add_sload_opcode_record(convert_cycles_to_ns(clock, cycles));
        }
        self.record.is_updated = true;
        assert(self.record@.table =~= old(self).record@.executed(
            opcode,
            old(self).slice(now),
            saturate_u64(clock.nanos(old(self).slice(now))) as nat,
            old(self).span(now),
        ).table);
        assert(self.record@.additional =~= old(self).record@.additional);
    }

    /// Retrieves what was recorded; the recorder is reset by the retrieval.
    pub fn get_record(&mut self) -> (record: OpcodeRecord)
        ensures
            record == old(self).record,
            final(self).is_reset(),
    {
        self.start_time = None;
        self.pre_time = None;
        self.pre_opcode = None;
        self.started = false;
        let record = self.record;
        self.record = OpcodeRecord::default();
        record
    }

    /// Adds the gas that an execution of `opcode` used.
    pub fn record_gas(&mut self, opcode: u8, gas_used: u64)
        requires
            old(self).gas_fits(opcode, gas_used),
        ensures
            old(self).record_gas_gives(opcode, gas_used, *final(self)),
    {
        let index: usize = opcode as usize;
        let slot = self.record.opcode_record[index];
        assert(slot.2 == old(self).record@.table[opcode as int].2);
        self.record.opcode_record[index] = (slot.0, slot.1, slot.2 + gas_used as i128);
        assert(self.record@.table =~= old(self).record@.add_gas(opcode, gas_used as nat).table);
        assert(self.record@.additional =~= old(self).record@.additional);
    }
}

/// The cycles attributed to all opcodes of a table together.
pub open spec fn table_cycles(table: Seq<(nat, nat, int)>) -> nat
    decreases table.len(),
{
    if table.len() == 0 {
        0
    } else {
        table_cycles(table.drop_last()) + table.last().1
    }
}

/// The executions counted for all opcodes of a table together.
pub open spec fn table_counts(table: Seq<(nat, nat, int)>) -> nat
    decreases table.len(),
{
    if table.len() == 0 {
        0
    } else {
        table_counts(table.drop_last()) + table.last().0
    }
}

/// Replacing one slot of a table changes its sums by the difference.
pub proof fn lemma_table_sums_update(table: Seq<(nat, nat, int)>, i: int, slot: (nat, nat, int))
    requires
        0 <= i < table.len(),
    ensures
        table_cycles(table.update(i, slot)) == table_cycles(table) - table[i].1 + slot.1,
        table_counts(table.update(i, slot)) == table_counts(table) - table[i].0 + slot.0,
    decreases table.len(),
{
    if i == table.len() - 1 {
        assert(table.update(i, slot).drop_last() =~= table.drop_last());
    } else {
        assert(table.update(i, slot).drop_last() =~= table.drop_last().update(i, slot));
        lemma_table_sums_update(table.drop_last(), i, slot);
    }
}

/// A table of zeros sums to zero.
pub proof fn lemma_table_sums_zero(table: Seq<(nat, nat, int)>)
    requires
        forall|i: int| 0 <= i < table.len() ==> table[i] == (0nat, 0nat, 0int),
    ensures
        table_cycles(table) == 0,
        table_counts(table) == 0,
    decreases table.len(),
{
    if table.len() > 0 {
        lemma_table_sums_zero(table.drop_last());
    }
}

impl InstructionMetricRecoder {
    /// Every cycle from the start to the last measurement is attributed to
    /// exactly one opcode: the times of the opcodes sum to that span, and so
    /// does the total time.
    pub open spec fn is_accounted(self) -> bool {
        &&& self.is_timing()
        &&& self.start_time->0.cycles() <= self.pre_time->0.cycles()
        &&& table_cycles(self.record@.table) == self.pre_time->0.cycles()
            - self.start_time->0.cycles()
        &&& self.record@.total_time == self.pre_time->0.cycles() - self.start_time->0.cycles()
    }
}

/// Starting a recorder that was reset accounts for every cycle: none has
/// passed, and none is attributed.
pub proof fn lemma_start_is_accounted(
    pre: InstructionMetricRecoder,
    now: Instant,
    post: InstructionMetricRecoder,
)
    requires
        pre.is_reset(),
        pre.start_record_gives(now, post),
    ensures
        post.is_accounted(),
        table_counts(post.record@.table) == 0,
{
    lemma_table_sums_zero(pre.record@.table);
}

/// Recording an opcode keeps every cycle accounted for, as long as the clock
/// does not go back: the cycles since the last measurement go to the opcode
/// and to nothing else, and the opcode is counted once.
pub proof fn lemma_op_keeps_accounted(
    pre: InstructionMetricRecoder,
    opcode: u8,
    now: Instant,
    clock: CycleClock,
    post: InstructionMetricRecoder,
)
    requires
        pre.is_accounted(),
        pre.pre_time->0.cycles() <= now.cycles(),
        pre.record_op_gives(opcode, now, clock, post),
    ensures
        post.is_accounted(),
        table_cycles(post.record@.table) == table_cycles(pre.record@.table) + pre.slice(now),
        table_counts(post.record@.table) == table_counts(pre.record@.table) + 1,
        post.record@.total_time == now.cycles() - pre.start_time->0.cycles(),
{
    let table = pre.record@.table;
    let slot = table[opcode as int];
    let counted = table.update(opcode as int, (slot.0 + 1, slot.1, slot.2));
    lemma_table_sums_update(table, opcode as int, (slot.0 + 1, slot.1, slot.2));
    lemma_table_sums_update(
        counted,
        opcode as int,
        (slot.0 + 1, slot.1 + pre.slice(now), slot.2),
    );
    assert(post.record@.table =~= counted.update(
        opcode as int,
        (slot.0 + 1, slot.1 + pre.slice(now), slot.2),
    ));
}

/// A start that comes after the first one keeps every cycle accounted for,
/// as long as the clock does not go back: after a call-like opcode the
/// cycles so far go to that opcode, and after any other nothing changes.
pub proof fn lemma_later_start_keeps_accounted(
    pre: InstructionMetricRecoder,
    now: Instant,
    post: InstructionMetricRecoder,
)
    requires
        pre.is_accounted(),
        pre.started,
        pre.pre_time->0.cycles() <= now.cycles(),
        pre.start_record_gives(now, post),
    ensures
        post.is_accounted(),
        table_counts(post.record@.table) == table_counts(pre.record@.table),
{
    if pre.announced_call() {
        let opcode = pre.pre_opcode->0;
        let table = pre.record@.table;
        let slot = table[opcode as int];
        lemma_table_sums_update(table, opcode as int, (slot.0, slot.1 + pre.slice(now), slot.2));
    }
}

/// Recording gas leaves every cycle accounted for.
pub proof fn lemma_gas_keeps_accounted(
    pre: InstructionMetricRecoder,
    opcode: u8,
    gas_used: u64,
    post: InstructionMetricRecoder,
)
    requires
        pre.is_accounted(),
        pre.record_gas_gives(opcode, gas_used, post),
    ensures
        post.is_accounted(),
        table_counts(post.record@.table) == table_counts(pre.record@.table),
{
    let table = pre.record@.table;
    let slot = table[opcode as int];
    lemma_table_sums_update(table, opcode as int, (slot.0, slot.1, slot.2 + gas_used as nat));
}

} // verus!
