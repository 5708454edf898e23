//! The overhead of each part of the execution stage: the records of the
//! stage as a whole, of the execution of transactions and of the writing to
//! the database.
//!
//! Parts that follow one another share a running clock: recording a part
//! attributes the cycles since the last recording on that clock to it and
//! restarts the clock, so that adjacent parts never count a cycle twice.
use crate::utils::metrics::metric::{get_transact_time, Metric};
use crate::utils::metrics::transact::TransactDurationRecorder;
use crate::utils::metrics::types::TransactTime;
use crate::utils::time_utils::instant::Instant;
use vstd::prelude::*;

verus! {

/// A part of the execution of transactions whose time is recorded.
#[derive(Debug, Clone, Copy, PartialEq, Eq)]
pub enum ExecutePhase {
    Transact,
    CommitChanges,
    AddReceipt,
    ApplyPostExecutionStateChange,
    MergeTransactions,
    VerifyReceipt,
    SaveReceipts,
}

/// The in-depth measurement of the execution of transactions.
#[derive(Debug, Clone, Copy, PartialEq, Eq)]
pub struct ExecuteTxsRecord {
    /// When the execution of transactions started.
    pub start_record: Instant,
    /// When the part that is running started.
    pub sub_record: Instant,
    /// Cycles of the execution of transactions as a whole.
    pub total: u64,
    /// Cycles of the transaction function.
    pub transact: u64,
    /// Cycles of the parts of the transaction function, as the engine
    /// measured them.
    pub revm_transact: TransactTime,
    /// Cycles of committing changes.
    pub commit_changes: u64,
    /// Cycles of adding receipts.
    pub add_receipt: u64,
    /// Cycles of applying the state change after execution.
    pub apply_post_execution_state_change: u64,
    /// Cycles of merging transactions.
    pub merge_transactions: u64,
    /// Cycles of verifying receipts.
    pub verify_receipt: u64,
    /// Cycles of saving receipts.
    pub save_receipts: u64,
}

impl Default for ExecuteTxsRecord {
    fn default() -> (r: Self)
        ensures
            r == ExecuteTxsRecord::zero(),
    {
        ExecuteTxsRecord {
            start_record: Instant::default(),
            sub_record: Instant::default(),
            total: 0,
            transact: 0,
            revm_transact: TransactTime::default(),
            commit_changes: 0,
            add_receipt: 0,
            apply_post_execution_state_change: 0,
            merge_transactions: 0,
            verify_receipt: 0,
            save_receipts: 0,
        }
    }
}

impl ExecuteTxsRecord {
    /// The record in which every time is zero.
    pub open spec fn zero() -> Self {
        ExecuteTxsRecord {
            start_record: Instant(0),
            sub_record: Instant(0),
            total: 0,
            transact: 0,
            revm_transact: TransactTime::zero(),
            commit_changes: 0,
            add_receipt: 0,
            apply_post_execution_state_change: 0,
            merge_transactions: 0,
            verify_receipt: 0,
            save_receipts: 0,
        }
    }

    /// The cycles recorded for `phase` so far.
    pub open spec fn phase_time(self, phase: ExecutePhase) -> u64 {
        match phase {
            ExecutePhase::Transact => self.transact,
            ExecutePhase::CommitChanges => self.commit_changes,
            ExecutePhase::AddReceipt => self.add_receipt,
            ExecutePhase::ApplyPostExecutionStateChange => self.apply_post_execution_state_change,
            ExecutePhase::MergeTransactions => self.merge_transactions,
            ExecutePhase::VerifyReceipt => self.verify_receipt,
            ExecutePhase::SaveReceipts => self.save_receipts,
        }
    }

    /// This record with `time` as the cycles of `phase`.
    pub open spec fn with_phase_time(self, phase: ExecutePhase, time: u64) -> Self {
        match phase {
            ExecutePhase::Transact => ExecuteTxsRecord { transact: time, ..self },
            ExecutePhase::CommitChanges => ExecuteTxsRecord { commit_changes: time, ..self },
            ExecutePhase::AddReceipt => ExecuteTxsRecord { add_receipt: time, ..self },
            ExecutePhase::ApplyPostExecutionStateChange => ExecuteTxsRecord {
                apply_post_execution_state_change: time,
                ..self
            },
            ExecutePhase::MergeTransactions => ExecuteTxsRecord { merge_transactions: time, ..self },
            ExecutePhase::VerifyReceipt => ExecuteTxsRecord { verify_receipt: time, ..self },
            ExecutePhase::SaveReceipts => ExecuteTxsRecord { save_receipts: time, ..self },
        }
    }

    /// The cycles of all parts together.
    pub open spec fn phases_total(self) -> int {
        self.transact + self.commit_changes + self.add_receipt
            + self.apply_post_execution_state_change + self.merge_transactions
            + self.verify_receipt + self.save_receipts
    }

    /// The cycles from the start of the running part to `now`.
    pub open spec fn lap(self, now: Instant) -> u64 {
        now.elapsed_since(self.sub_record)
    }

    /// Whether the time of `phase` can take the cycles up to `now`.
    pub open spec fn lap_fits(self, phase: ExecutePhase, now: Instant) -> bool {
        self.phase_time(phase) + self.lap(now) <= u64::MAX
    }

    /// The record after the cycles up to `now` have gone to `phase` and the
    /// next part has started at `now`.
    pub open spec fn lapped(self, phase: ExecutePhase, now: Instant) -> Self {
        ExecuteTxsRecord {
            sub_record: now,
            ..self.with_phase_time(phase, (self.phase_time(phase) + self.lap(now)) as u64)
        }
    }

    /// Whether the total can take the cycles from the start to `now`.
    pub open spec fn total_fits(self, now: Instant) -> bool {
        self.total + now.elapsed_since(self.start_record) <= u64::MAX
    }

    /// The record after the cycles from the start to `now` have been added to
    /// the total.
    pub open spec fn totalled(self, now: Instant) -> Self {
        ExecuteTxsRecord {
            total: (self.total + now.elapsed_since(self.start_record)) as u64,
            ..self
        }
    }

    /// Decides `lap_fits`.
    pub fn can_lap(&self, phase: ExecutePhase, now: Instant) -> (r: bool)
        ensures
            r == self.lap_fits(phase, now),
    {
        let time: u64 = match phase {
            ExecutePhase::Transact => self.transact,
            ExecutePhase::CommitChanges => self.commit_changes,
            ExecutePhase::AddReceipt => self.add_receipt,
            ExecutePhase::ApplyPostExecutionStateChange => self.apply_post_execution_state_change,
            ExecutePhase::MergeTransactions => self.merge_transactions,
            ExecutePhase::VerifyReceipt => self.verify_receipt,
            ExecutePhase::SaveReceipts => self.save_receipts,
        };
        time <= u64::MAX - now.cycles_since(self.sub_record)
    }

    /// Decides `total_fits`.
    pub fn can_total(&self, now: Instant) -> (r: bool)
        ensures
            r == self.total_fits(now),
    {
        self.total <= u64::MAX - now.cycles_since(self.start_record)
    }

    /// Decides whether `misc` can subtract the parts from the total.
    pub fn can_misc(&self) -> (r: bool)
        ensures
            r == (self.phases_total() <= self.total),
    {
        let parts: u128 = self.transact as u128 + self.commit_changes as u128
            + self.add_receipt as u128 + self.apply_post_execution_state_change as u128
            + self.merge_transactions as u128 + self.verify_receipt as u128
            + self.save_receipts as u128;
        parts <= self.total as u128
    }

    /// Marks `now` as the start of the execution of transactions.
    pub fn start_record(&mut self, now: Instant)
        ensures
            *final(self) == (ExecuteTxsRecord { start_record: now, ..*old(self) }),
    {
        self.start_record = now;
    }

    /// Marks `now` as the start of the part that runs next.
    pub fn start_sub_record(&mut self, now: Instant)
        ensures
            *final(self) == (ExecuteTxsRecord { sub_record: now, ..*old(self) }),
    {
        self.sub_record = now;
    }

    /// Ends the running part at `now` and starts the next: returns the cycles
    /// that the part took.
    fn take_lap(&mut self, now: Instant) -> (cycles: u64)
        ensures
            cycles == old(self).lap(now),
            *final(self) == (ExecuteTxsRecord { sub_record: now, ..*old(self) }),
    {
        let cycles: u64 = now.cycles_since(self.sub_record);
        self.sub_record = now;
        cycles
    }

    /// Attributes the cycles up to `now` to committing changes. Returns `now`.
    pub fn commit_changes_record(&mut self, now: Instant) -> (r: Instant)
        requires
            old(self).lap_fits(ExecutePhase::CommitChanges, now),
        ensures
            r == now,
            *final(self) == old(self).lapped(ExecutePhase::CommitChanges, now),
    {
        let cycles: u64 = self.take_lap(now);
        self.commit_changes = self.commit_changes + cycles;
        now
    }

    /// Attributes the cycles up to `now` to adding a receipt. Returns `now`.
    pub fn add_receipt_record(&mut self, now: Instant) -> (r: Instant)
        requires
            old(self).lap_fits(ExecutePhase::AddReceipt, now),
        ensures
            r == now,
            *final(self) == old(self).lapped(ExecutePhase::AddReceipt, now),
    {
        let cycles: u64 = self.take_lap(now);
        self.add_receipt = self.add_receipt + cycles;
        now
    }

    /// Attributes the cycles up to `now` to applying the state change after execution. Returns `now`.
    pub fn apply_post_execution_state_change_record(&mut self, now: Instant) -> (r: Instant)
        requires
            old(self).lap_fits(ExecutePhase::ApplyPostExecutionStateChange, now),
        ensures
            r == now,
            *final(self) == old(self).lapped(ExecutePhase::ApplyPostExecutionStateChange, now),
    {
        let cycles: u64 = self.take_lap(now);
        self.apply_post_execution_state_change = self.apply_post_execution_state_change + cycles;
        now
    }

    /// Attributes the cycles up to `now` to merging transactions. Returns `now`.
    pub fn merge_transactions_record(&mut self, now: Instant) -> (r: Instant)
        requires
            old(self).lap_fits(ExecutePhase::MergeTransactions, now),
        ensures
            r == now,
            *final(self) == old(self).lapped(ExecutePhase::MergeTransactions, now),
    {
        let cycles: u64 = self.take_lap(now);
        self.merge_transactions = self.merge_transactions + cycles;
        now
    }

    /// Attributes the cycles up to `now` to verifying receipts. Returns `now`.
    pub fn verify_receipt_record(&mut self, now: Instant) -> (r: Instant)
        requires
            old(self).lap_fits(ExecutePhase::VerifyReceipt, now),
        ensures
            r == now,
            *final(self) == old(self).lapped(ExecutePhase::VerifyReceipt, now),
    {
        let cycles: u64 = self.take_lap(now);
        self.verify_receipt = self.verify_receipt + cycles;
        now
    }

    /// Attributes the cycles up to `now` to saving receipts. Returns `now`.
    pub fn save_receipts_record_inner(&mut self, now: Instant) -> (r: Instant)
        requires
            old(self).lap_fits(ExecutePhase::SaveReceipts, now),
        ensures
            r == now,
            *final(self) == old(self).lapped(ExecutePhase::SaveReceipts, now),
    {
        let cycles: u64 = self.take_lap(now);
        self.save_receipts = self.save_receipts + cycles;
        now
    }

    /// Attributes the cycles up to `now` to the transaction function. Returns `now`.
    pub fn transact_record_inner(&mut self, now: Instant) -> (r: Instant)
        requires
            old(self).lap_fits(ExecutePhase::Transact, now),
        ensures
            r == now,
            *final(self) == old(self).lapped(ExecutePhase::Transact, now),
    {
        let cycles: u64 = self.take_lap(now);
        self.transact = self.transact + cycles;
        now
    }

    /// Attributes the cycles up to `now` to the transaction function, and
    /// takes over what the engine measured of its parts: the times are
    /// retrieved from `revm`, where they are reset, and added to those of
    /// this record.
    pub fn transact_record(&mut self, revm: &mut Metric, now: Instant)
        requires
            old(self).lap_fits(ExecutePhase::Transact, now),
            old(self).revm_transact.update_fits(old(revm).transact_record.transact_time),
        ensures
            *final(self) == (ExecuteTxsRecord {
                revm_transact: old(self).revm_transact.updated(
                    old(revm).transact_record.transact_time,
                ),
                ..old(self).lapped(ExecutePhase::Transact, now)
            }),
            *final(revm) == old(revm).with_transact(
                TransactDurationRecorder {
                    transact_time: TransactTime::zero(),
                    ..old(revm).transact_record
                },
            ),
    {
        self.transact_record_inner(now);
        let revm_transact = get_transact_time(revm);
        self.revm_transact.update(&revm_transact);
    }

    /// Attributes the cycles up to `now` to saving receipts, and adds the
    /// cycles since the start of the execution of transactions to the total.
    pub fn save_receipts_record(&mut self, now: Instant)
        requires
            old(self).lap_fits(ExecutePhase::SaveReceipts, now),
            old(self).total_fits(now),
        ensures
            *final(self) == old(self).lapped(ExecutePhase::SaveReceipts, now).totalled(now),
    {
        let now = self.save_receipts_record_inner(now);
        self.record_total_time(now);
    }

    /// Adds the cycles from the start of the execution of transactions to
    /// `now` to the total.
    pub fn record_total_time(&mut self, now: Instant)
        requires
            old(self).total_fits(now),
        ensures
            *final(self) == old(self).totalled(now),
    {
        let cycles: u64 = now.cycles_since(self.start_record);
        self.total = self.total + cycles;
    }

    /// The cycles of the whole that no part accounts for.
    pub fn misc(&self) -> (r: u64)
        requires
            self.phases_total() <= self.total,
        ensures
            r == self.total - self.phases_total(),
    {
        self.total - self.transact - self.commit_changes - self.add_receipt
            - self.apply_post_execution_state_change - self.merge_transactions
            - self.verify_receipt - self.save_receipts
    }
}

/// A part of writing to the database whose time is recorded.
#[derive(Debug, Clone, Copy, PartialEq, Eq)]
pub enum WritePhase {
    RevertStorage,
    RevertAccount,
    WriteReceipts,
    Sort,
    StateAccount,
    StateBytecode,
    StateStorage,
}

/// A kind of data written to the database: the time of each single write
/// and the size of what is written are recorded per kind.
#[derive(Debug, Clone, Copy, PartialEq, Eq)]
pub enum WriteKind {
    RevertStorage,
    RevertAccount,
    Receipts,
    StateAccount,
    StateBytecode,
    StateStorage,
}

/// All the measurements of writing to the database: the time spent and the
/// amount of data written.
#[derive(Debug, Clone, Copy, PartialEq, Eq)]
pub struct WriteToDbRecord {
    /// When writing to the database started.
    pub start_record: Instant,
    /// When the part that is running started.
    pub sub_record: Instant,
    /// When the single write that is running started.
    pub write_start_record: Instant,
    /// Cycles of writing to the database as a whole.
    pub total: u64,
    /// Cycles of writing the storage changes of the reverts.
    pub revert_storage_time: u64,
    /// Bytes of the storage changes of the reverts.
    pub revert_storage_size: usize,
    /// Cycles of the single writes of storage changes of the reverts.
    pub revert_storage_append_time: u64,
    /// Cycles of writing the account changes of the reverts.
    pub revert_account_time: u64,
    /// Bytes of the account changes of the reverts.
    pub revert_account_size: usize,
    /// Cycles of the single writes of account changes of the reverts.
    pub revert_account_append_time: u64,
    /// Cycles of writing the receipts.
    pub write_receipts_time: u64,
    /// Bytes of the receipts.
    pub write_receipts_size: usize,
    /// Cycles of the single writes of receipts.
    pub receipts_append_time: u64,
    /// Cycles of sorting the state changes.
    pub sort_time: u64,
    /// Cycles of writing the accounts of the state changes.
    pub state_account_time: u64,
    /// Bytes of the accounts of the state changes.
    pub state_account_size: usize,
    /// Cycles of the single writes of accounts of the state changes.
    pub state_account_upsert_time: u64,
    /// Cycles of writing the bytecode of the state changes.
    pub state_bytecode_time: u64,
    /// Bytes of the bytecode of the state changes.
    pub state_bytecode_size: usize,
    /// Cycles of the single writes of bytecode of the state changes.
    pub state_bytecode_upsert_time: u64,
    /// Cycles of writing the storage of the state changes.
    pub state_storage_time: u64,
    /// Bytes of the storage of the state changes.
    pub state_storage_size: usize,
    /// Cycles of the single writes of storage of the state changes.
    pub state_storage_upsert_time: u64,
}

impl Default for WriteToDbRecord {
    fn default() -> (r: Self)
        ensures
            r == WriteToDbRecord::zero(),
    {
        WriteToDbRecord {
            start_record: Instant::default(),
            sub_record: Instant::default(),
            write_start_record: Instant::default(),
            total: 0,
            revert_storage_time: 0,
            revert_storage_size: 0,
            revert_storage_append_time: 0,
            revert_account_time: 0,
            revert_account_size: 0,
            revert_account_append_time: 0,
            write_receipts_time: 0,
            write_receipts_size: 0,
            receipts_append_time: 0,
            sort_time: 0,
            state_account_time: 0,
            state_account_size: 0,
            state_account_upsert_time: 0,
            state_bytecode_time: 0,
            state_bytecode_size: 0,
            state_bytecode_upsert_time: 0,
            state_storage_time: 0,
            state_storage_size: 0,
            state_storage_upsert_time: 0,
        }
    }
}

impl WriteToDbRecord {
    /// The record in which every time and every size is zero.
    pub open spec fn zero() -> Self {
        WriteToDbRecord {
            start_record: Instant(0),
            sub_record: Instant(0),
            write_start_record: Instant(0),
            total: 0,
            revert_storage_time: 0,
            revert_storage_size: 0,
            revert_storage_append_time: 0,
            revert_account_time: 0,
            revert_account_size: 0,
            revert_account_append_time: 0,
            write_receipts_time: 0,
            write_receipts_size: 0,
            receipts_append_time: 0,
            sort_time: 0,
            state_account_time: 0,
            state_account_size: 0,
            state_account_upsert_time: 0,
            state_bytecode_time: 0,
            state_bytecode_size: 0,
            state_bytecode_upsert_time: 0,
            state_storage_time: 0,
            state_storage_size: 0,
            state_storage_upsert_time: 0,
        }
    }

    /// The cycles recorded for `phase` so far.
    pub open spec fn phase_time(self, phase: WritePhase) -> u64 {
        match phase {
            WritePhase::RevertStorage => self.revert_storage_time,
            WritePhase::RevertAccount => self.revert_account_time,
            WritePhase::WriteReceipts => self.write_receipts_time,
            WritePhase::Sort => self.sort_time,
            WritePhase::StateAccount => self.state_account_time,
            WritePhase::StateBytecode => self.state_bytecode_time,
            WritePhase::StateStorage => self.state_storage_time,
        }
    }

    /// This record with `time` as the cycles of `phase`.
    pub open spec fn with_phase_time(self, phase: WritePhase, time: u64) -> Self {
        match phase {
            WritePhase::RevertStorage => WriteToDbRecord { revert_storage_time: time, ..self },
            WritePhase::RevertAccount => WriteToDbRecord { revert_account_time: time, ..self },
            WritePhase::WriteReceipts => WriteToDbRecord { write_receipts_time: time, ..self },
            WritePhase::Sort => WriteToDbRecord { sort_time: time, ..self },
            WritePhase::StateAccount => WriteToDbRecord { state_account_time: time, ..self },
            WritePhase::StateBytecode => WriteToDbRecord { state_bytecode_time: time, ..self },
            WritePhase::StateStorage => WriteToDbRecord { state_storage_time: time, ..self },
        }
    }

    /// The cycles recorded for the single writes of `kind` so far.
    pub open spec fn write_time(self, kind: WriteKind) -> u64 {
        match kind {
            WriteKind::RevertStorage => self.revert_storage_append_time,
            WriteKind::RevertAccount => self.revert_account_append_time,
            WriteKind::Receipts => self.receipts_append_time,
            WriteKind::StateAccount => self.state_account_upsert_time,
            WriteKind::StateBytecode => self.state_bytecode_upsert_time,
            WriteKind::StateStorage => self.state_storage_upsert_time,
        }
    }

    /// This record with `time` as the cycles of the single writes of `kind`.
    pub open spec fn with_write_time(self, kind: WriteKind, time: u64) -> Self {
        match kind {
            WriteKind::RevertStorage => WriteToDbRecord { revert_storage_append_time: time, ..self },
            WriteKind::RevertAccount => WriteToDbRecord { revert_account_append_time: time, ..self },
            WriteKind::Receipts => WriteToDbRecord { receipts_append_time: time, ..self },
            WriteKind::StateAccount => WriteToDbRecord { state_account_upsert_time: time, ..self },
            WriteKind::StateBytecode => WriteToDbRecord { state_bytecode_upsert_time: time, ..self },
            WriteKind::StateStorage => WriteToDbRecord { state_storage_upsert_time: time, ..self },
        }
    }

    /// The bytes recorded for `kind` so far.
    pub open spec fn size(self, kind: WriteKind) -> usize {
        match kind {
            WriteKind::RevertStorage => self.revert_storage_size,
            WriteKind::RevertAccount => self.revert_account_size,
            WriteKind::Receipts => self.write_receipts_size,
            WriteKind::StateAccount => self.state_account_size,
            WriteKind::StateBytecode => self.state_bytecode_size,
            WriteKind::StateStorage => self.state_storage_size,
        }
    }

    /// This record with `size` as the bytes of `kind`.
    pub open spec fn with_size(self, kind: WriteKind, size: usize) -> Self {
        match kind {
            WriteKind::RevertStorage => WriteToDbRecord { revert_storage_size: size, ..self },
            WriteKind::RevertAccount => WriteToDbRecord { revert_account_size: size, ..self },
            WriteKind::Receipts => WriteToDbRecord { write_receipts_size: size, ..self },
            WriteKind::StateAccount => WriteToDbRecord { state_account_size: size, ..self },
            WriteKind::StateBytecode => WriteToDbRecord { state_bytecode_size: size, ..self },
            WriteKind::StateStorage => WriteToDbRecord { state_storage_size: size, ..self },
        }
    }

    /// The part in which the data of `kind` is written.
    pub open spec fn phase_of(kind: WriteKind) -> WritePhase {
        match kind {
            WriteKind::RevertStorage => WritePhase::RevertStorage,
            WriteKind::RevertAccount => WritePhase::RevertAccount,
            WriteKind::Receipts => WritePhase::WriteReceipts,
            WriteKind::StateAccount => WritePhase::StateAccount,
            WriteKind::StateBytecode => WritePhase::StateBytecode,
            WriteKind::StateStorage => WritePhase::StateStorage,
        }
    }

    /// The cycles of all parts together.
    pub open spec fn phases_total(self) -> int {
        self.revert_storage_time + self.revert_account_time + self.write_receipts_time
            + self.sort_time + self.state_account_time + self.state_bytecode_time
            + self.state_storage_time
    }

    /// The bytes of all kinds together.
    pub open spec fn sizes_total(self) -> int {
        self.revert_storage_size + self.revert_account_size + self.write_receipts_size
            + self.state_account_size + self.state_bytecode_size + self.state_storage_size
    }

    /// The cycles from the start of the running part to `now`.
    pub open spec fn lap(self, now: Instant) -> u64 {
        now.elapsed_since(self.sub_record)
    }

    /// Whether the time of `phase` can take the cycles up to `now`.
    pub open spec fn lap_fits(self, phase: WritePhase, now: Instant) -> bool {
        self.phase_time(phase) + self.lap(now) <= u64::MAX
    }

    /// The record after the cycles up to `now` have gone to `phase` and the
    /// next part has started at `now`.
    pub open spec fn lapped(self, phase: WritePhase, now: Instant) -> Self {
        WriteToDbRecord {
            sub_record: now,
            ..self.with_phase_time(phase, (self.phase_time(phase) + self.lap(now)) as u64)
        }
    }

    /// The cycles from the start of the running single write to `now`.
    pub open spec fn write_lap(self, now: Instant) -> u64 {
        now.elapsed_since(self.write_start_record)
    }

    /// Whether the time of the single writes of `kind` can take the cycles up
    /// to `now`.
    pub open spec fn write_fits(self, kind: WriteKind, now: Instant) -> bool {
        self.write_time(kind) + self.write_lap(now) <= u64::MAX
    }

    /// The record after the cycles of the running single write up to `now`
    /// have gone to `kind` and the next single write has started at `now`.
    pub open spec fn written(self, kind: WriteKind, now: Instant) -> Self {
        WriteToDbRecord {
            write_start_record: now,
            ..self.with_write_time(kind, (self.write_time(kind) + self.write_lap(now)) as u64)
        }
    }

    /// Whether the bytes of `kind` can take `size` more.
    pub open spec fn size_fits(self, kind: WriteKind, size: usize) -> bool {
        self.size(kind) + size <= usize::MAX
    }

    /// The record after `size` bytes have been added to those of `kind`.
    pub open spec fn sized(self, kind: WriteKind, size: usize) -> Self {
        self.with_size(kind, (self.size(kind) + size) as usize)
    }

    /// Whether the total can take the cycles from the start to `now`.
    pub open spec fn total_fits(self, now: Instant) -> bool {
        self.total + now.elapsed_since(self.start_record) <= u64::MAX
    }

    /// The record after the cycles from the start to `now` have been added to
    /// the total.
    pub open spec fn totalled(self, now: Instant) -> Self {
        WriteToDbRecord {
            total: (self.total + now.elapsed_since(self.start_record)) as u64,
            ..self
        }
    }

    /// The cycles recorded for `phase` so far.
    pub fn time_of(&self, phase: WritePhase) -> (time: u64)
        ensures
            time == self.phase_time(phase),
    {
        match phase {
            WritePhase::RevertStorage => self.revert_storage_time,
            WritePhase::RevertAccount => self.revert_account_time,
            WritePhase::WriteReceipts => self.write_receipts_time,
            WritePhase::Sort => self.sort_time,
            WritePhase::StateAccount => self.state_account_time,
            WritePhase::StateBytecode => self.state_bytecode_time,
            WritePhase::StateStorage => self.state_storage_time,
        }
    }

    /// The cycles recorded for the single writes of `kind` so far.
    pub fn write_time_of(&self, kind: WriteKind) -> (time: u64)
        ensures
            time == self.write_time(kind),
    {
        match kind {
            WriteKind::RevertStorage => self.revert_storage_append_time,
            WriteKind::RevertAccount => self.revert_account_append_time,
            WriteKind::Receipts => self.receipts_append_time,
            WriteKind::StateAccount => self.state_account_upsert_time,
            WriteKind::StateBytecode => self.state_bytecode_upsert_time,
            WriteKind::StateStorage => self.state_storage_upsert_time,
        }
    }

    /// The bytes recorded for `kind` so far.
    pub fn size_of(&self, kind: WriteKind) -> (size: usize)
        ensures
            size == self.size(kind),
    {
        match kind {
            WriteKind::RevertStorage => self.revert_storage_size,
            WriteKind::RevertAccount => self.revert_account_size,
            WriteKind::Receipts => self.write_receipts_size,
            WriteKind::StateAccount => self.state_account_size,
            WriteKind::StateBytecode => self.state_bytecode_size,
            WriteKind::StateStorage => self.state_storage_size,
        }
    }

    /// Decides `lap_fits`.
    pub fn can_lap(&self, phase: WritePhase, now: Instant) -> (r: bool)
        ensures
            r == self.lap_fits(phase, now),
    {
        self.time_of(phase) <= u64::MAX - now.cycles_since(self.sub_record)
    }

    /// Decides `write_fits`.
    pub fn can_write(&self, kind: WriteKind, now: Instant) -> (r: bool)
        ensures
            r == self.write_fits(kind, now),
    {
        self.write_time_of(kind) <= u64::MAX - now.cycles_since(self.write_start_record)
    }

    /// Decides `size_fits`.
    pub fn can_size(&self, kind: WriteKind, size: usize) -> (r: bool)
        ensures
            r == self.size_fits(kind, size),
    {
        self.size_of(kind) <= usize::MAX - size
    }

    /// Decides `total_fits`.
    pub fn can_total(&self, now: Instant) -> (r: bool)
        ensures
            r == self.total_fits(now),
    {
        self.total <= u64::MAX - now.cycles_since(self.start_record)
    }

    /// Decides whether `total_size` can add up the bytes of all kinds.
    pub fn can_total_size(&self) -> (r: bool)
        ensures
            r == (self.sizes_total() <= usize::MAX),
    {
        let sizes: u128 = self.revert_storage_size as u128 + self.revert_account_size as u128
            + self.write_receipts_size as u128 + self.state_account_size as u128
            + self.state_bytecode_size as u128 + self.state_storage_size as u128;
        sizes <= usize::MAX as u128
    }

    /// Decides whether `iter_time` can subtract the single writes of `kind`
    /// from its part.
    pub fn can_iter_time(&self, kind: WriteKind) -> (r: bool)
        ensures
            r == (self.write_time(kind) <= self.phase_time(Self::phase_of(kind))),
    {
        let phase = match kind {
            WriteKind::RevertStorage => WritePhase::RevertStorage,
            WriteKind::RevertAccount => WritePhase::RevertAccount,
            WriteKind::Receipts => WritePhase::WriteReceipts,
            WriteKind::StateAccount => WritePhase::StateAccount,
            WriteKind::StateBytecode => WritePhase::StateBytecode,
            WriteKind::StateStorage => WritePhase::StateStorage,
        };
        self.write_time_of(kind) <= self.time_of(phase)
    }

    /// Marks `now` as the start of writing to the database.
    pub fn start_record(&mut self, now: Instant)
        ensures
            *final(self) == (WriteToDbRecord { start_record: now, ..*old(self) }),
    {
        self.start_record = now;
    }

    /// Marks `now` as the start of the part that runs next.
    pub fn start_sub_record(&mut self, now: Instant)
        ensures
            *final(self) == (WriteToDbRecord { sub_record: now, ..*old(self) }),
    {
        self.sub_record = now;
    }

    /// Marks `now` as the start of the single write that runs next.
    pub fn start_write_record(&mut self, now: Instant)
        ensures
            *final(self) == (WriteToDbRecord { write_start_record: now, ..*old(self) }),
    {
        self.write_start_record = now;
    }

    /// Ends the running part at `now` and starts the next: returns the cycles
    /// that the part took.
    fn take_lap(&mut self, now: Instant) -> (cycles: u64)
        ensures
            cycles == old(self).lap(now),
            *final(self) == (WriteToDbRecord { sub_record: now, ..*old(self) }),
    {
        let cycles: u64 = now.cycles_since(self.sub_record);
        self.sub_record = now;
        cycles
    }

    /// Ends the running single write at `now` and starts the next: returns
    /// the cycles that the write took.
    fn take_write_lap(&mut self, now: Instant) -> (cycles: u64)
        ensures
            cycles == old(self).write_lap(now),
            *final(self) == (WriteToDbRecord { write_start_record: now, ..*old(self) }),
    {
        let cycles: u64 = now.cycles_since(self.write_start_record);
        self.write_start_record = now;
        cycles
    }

    /// Adds `size` bytes to the data written of the storage changes of the reverts.
    pub fn record_revert_storage_size(&mut self, size: usize)
        requires
            old(self).size_fits(WriteKind::RevertStorage, size),
        ensures
            *final(self) == old(self).sized(WriteKind::RevertStorage, size),
    {
        self.revert_storage_size = self.revert_storage_size + size;
    }

    /// Adds `size` bytes to the data written of the account changes of the reverts.
    pub fn record_revert_account_size(&mut self, size: usize)
        requires
            old(self).size_fits(WriteKind::RevertAccount, size),
        ensures
            *final(self) == old(self).sized(WriteKind::RevertAccount, size),
    {
        self.revert_account_size = self.revert_account_size + size;
    }

    /// Adds `size` bytes to the data written of the receipts.
    pub fn record_write_receipts_size(&mut self, size: usize)
        requires
            old(self).size_fits(WriteKind::Receipts, size),
        ensures
            *final(self) == old(self).sized(WriteKind::Receipts, size),
    {
        self.write_receipts_size = self.write_receipts_size + size;
    }

    /// Adds `size` bytes to the data written of the accounts of the state changes.
    pub fn record_state_account_size(&mut self, size: usize)
        requires
            old(self).size_fits(WriteKind::StateAccount, size),
        ensures
            *final(self) == old(self).sized(WriteKind::StateAccount, size),
    {
        self.state_account_size = self.state_account_size + size;
    }

    /// Adds `size` bytes to the data written of the bytecode of the state changes.
    pub fn record_state_bytecode_size(&mut self, size: usize)
        requires
            old(self).size_fits(WriteKind::StateBytecode, size),
        ensures
            *final(self) == old(self).sized(WriteKind::StateBytecode, size),
    {
        self.state_bytecode_size = self.state_bytecode_size + size;
    }

    /// Adds `size` bytes to the data written of the storage of the state changes.
    pub fn record_state_storage_size(&mut self, size: usize)
        requires
            old(self).size_fits(WriteKind::StateStorage, size),
        ensures
            *final(self) == old(self).sized(WriteKind::StateStorage, size),
    {
        self.state_storage_size = self.state_storage_size + size;
    }

    /// Attributes the cycles up to `now` to writing the storage changes of the reverts. Returns `now`.
    pub fn record_revert_storage_time(&mut self, now: Instant) -> (r: Instant)
        requires
            old(self).lap_fits(WritePhase::RevertStorage, now),
        ensures
            r == now,
            *final(self) == old(self).lapped(WritePhase::RevertStorage, now),
    {
        let cycles: u64 = self.take_lap(now);
        self.revert_storage_time = self.revert_storage_time + cycles;
        now
    }

    /// Attributes the cycles up to `now` to writing the account changes of the reverts. Returns `now`.
    pub fn record_revert_account_time(&mut self, now: Instant) -> (r: Instant)
        requires
            old(self).lap_fits(WritePhase::RevertAccount, now),
        ensures
            r == now,
            *final(self) == old(self).lapped(WritePhase::RevertAccount, now),
    {
        let cycles: u64 = self.take_lap(now);
        self.revert_account_time = self.revert_account_time + cycles;
        now
    }

    /// Attributes the cycles up to `now` to writing the receipts. Returns `now`.
    pub fn record_write_receipts_time(&mut self, now: Instant) -> (r: Instant)
        requires
            old(self).lap_fits(WritePhase::WriteReceipts, now),
        ensures
            r == now,
            *final(self) == old(self).lapped(WritePhase::WriteReceipts, now),
    {
        let cycles: u64 = self.take_lap(now);
        self.write_receipts_time = self.write_receipts_time + cycles;
        now
    }

    /// Attributes the cycles up to `now` to sorting the state changes. Returns `now`.
    pub fn record_sort_time(&mut self, now: Instant) -> (r: Instant)
        requires
            old(self).lap_fits(WritePhase::Sort, now),
        ensures
            r == now,
            *final(self) == old(self).lapped(WritePhase::Sort, now),
    {
        let cycles: u64 = self.take_lap(now);
        self.sort_time = self.sort_time + cycles;
        now
    }

    /// Attributes the cycles up to `now` to writing the accounts of the state changes. Returns `now`.
    pub fn record_state_account_time(&mut self, now: Instant) -> (r: Instant)
        requires
            old(self).lap_fits(WritePhase::StateAccount, now),
        ensures
            r == now,
            *final(self) == old(self).lapped(WritePhase::StateAccount, now),
    {
        let cycles: u64 = self.take_lap(now);
        self.state_account_time = self.state_account_time + cycles;
        now
    }

    /// Attributes the cycles up to `now` to writing the bytecode of the state changes. Returns `now`.
    pub fn record_state_bytecode_time(&mut self, now: Instant) -> (r: Instant)
        requires
            old(self).lap_fits(WritePhase::StateBytecode, now),
        ensures
            r == now,
            *final(self) == old(self).lapped(WritePhase::StateBytecode, now),
    {
        let cycles: u64 = self.take_lap(now);
        self.state_bytecode_time = self.state_bytecode_time + cycles;
        now
    }

    /// Attributes the cycles up to `now` to writing the storage of the state changes. Returns `now`.
    pub fn record_state_storage_time_inner(&mut self, now: Instant) -> (r: Instant)
        requires
            old(self).lap_fits(WritePhase::StateStorage, now),
        ensures
            r == now,
            *final(self) == old(self).lapped(WritePhase::StateStorage, now),
    {
        let cycles: u64 = self.take_lap(now);
        self.state_storage_time = self.state_storage_time + cycles;
        now
    }

    /// Attributes the cycles of the single write up to `now` to appending a storage change of the reverts.
    /// Returns `now`.
    pub fn record_revert_storage_append_time(&mut self, now: Instant) -> (r: Instant)
        requires
            old(self).write_fits(WriteKind::RevertStorage, now),
        ensures
            r == now,
            *final(self) == old(self).written(WriteKind::RevertStorage, now),
    {
        let cycles: u64 = self.take_write_lap(now);
        self.revert_storage_append_time = self.revert_storage_append_time + cycles;
        now
    }

    /// Attributes the cycles of the single write up to `now` to appending an account change of the reverts.
    /// Returns `now`.
    pub fn record_revert_account_append_time(&mut self, now: Instant) -> (r: Instant)
        requires
            old(self).write_fits(WriteKind::RevertAccount, now),
        ensures
            r == now,
            *final(self) == old(self).written(WriteKind::RevertAccount, now),
    {
        let cycles: u64 = self.take_write_lap(now);
        self.revert_account_append_time = self.revert_account_append_time + cycles;
        now
    }

    /// Attributes the cycles of the single write up to `now` to appending a receipt.
    /// Returns `now`.
    pub fn record_receipts_append_time(&mut self, now: Instant) -> (r: Instant)
        requires
            old(self).write_fits(WriteKind::Receipts, now),
        ensures
            r == now,
            *final(self) == old(self).written(WriteKind::Receipts, now),
    {
        let cycles: u64 = self.take_write_lap(now);
        self.receipts_append_time = self.receipts_append_time + cycles;
        now
    }

    /// Attributes the cycles of the single write up to `now` to upserting an account of the state changes.
    /// Returns `now`.
    pub fn record_state_account_upsert_time(&mut self, now: Instant) -> (r: Instant)
        requires
            old(self).write_fits(WriteKind::StateAccount, now),
        ensures
            r == now,
            *final(self) == old(self).written(WriteKind::StateAccount, now),
    {
        let cycles: u64 = self.take_write_lap(now);
        self.state_account_upsert_time = self.state_account_upsert_time + cycles;
        now
    }

    /// Attributes the cycles of the single write up to `now` to upserting bytecode of the state changes.
    /// Returns `now`.
    pub fn record_state_bytecode_upsert_time(&mut self, now: Instant) -> (r: Instant)
        requires
            old(self).write_fits(WriteKind::StateBytecode, now),
        ensures
            r == now,
            *final(self) == old(self).written(WriteKind::StateBytecode, now),
    {
        let cycles: u64 = self.take_write_lap(now);
        self.state_bytecode_upsert_time = self.state_bytecode_upsert_time + cycles;
        now
    }

    /// Attributes the cycles of the single write up to `now` to upserting storage of the state changes.
    /// Returns `now`.
    pub fn record_state_storage_upsert_time(&mut self, now: Instant) -> (r: Instant)
        requires
            old(self).write_fits(WriteKind::StateStorage, now),
        ensures
            r == now,
            *final(self) == old(self).written(WriteKind::StateStorage, now),
    {
        let cycles: u64 = self.take_write_lap(now);
        self.state_storage_upsert_time = self.state_storage_upsert_time + cycles;
        now
    }

    /// Attributes the cycles up to `now` to writing the storage of the state
    /// changes, and adds the cycles since the start of writing to the
    /// database to the total.
    pub fn record_state_storage_time(&mut self, now: Instant)
        requires
            old(self).lap_fits(WritePhase::StateStorage, now),
            old(self).total_fits(now),
        ensures
            *final(self) == old(self).lapped(WritePhase::StateStorage, now).totalled(now),
    {
        let now = self.record_state_storage_time_inner(now);
        self.record_total_time(now);
    }

    /// Adds the cycles from the start of writing to the database to `now` to
    /// the total.
    pub fn record_total_time(&mut self, now: Instant)
        requires
            old(self).total_fits(now),
        ensures
            *final(self) == old(self).totalled(now),
    {
        let cycles: u64 = now.cycles_since(self.start_record);
        self.total = self.total + cycles;
    }

    /// The bytes written of all kinds together.
    pub fn total_size(&self) -> (r: usize)
        requires
            self.sizes_total() <= usize::MAX,
        ensures
            r == self.sizes_total(),
    {
        self.revert_storage_size + self.revert_account_size + self.write_receipts_size
            + self.state_account_size + self.state_bytecode_size + self.state_storage_size
    }

    /// The cycles of the part of `kind` that its single writes do not account
    /// for: the time of walking over the data.
    pub fn iter_time(&self, kind: WriteKind) -> (r: u64)
        requires
            self.write_time(kind) <= self.phase_time(Self::phase_of(kind)),
        ensures
            r == self.phase_time(Self::phase_of(kind)) - self.write_time(kind),
    {
        match kind {
            WriteKind::RevertStorage => self.revert_storage_time - self.revert_storage_append_time,
            WriteKind::RevertAccount => self.revert_account_time - self.revert_account_append_time,
            WriteKind::Receipts => self.write_receipts_time - self.receipts_append_time,
            WriteKind::StateAccount => self.state_account_time - self.state_account_upsert_time,
            WriteKind::StateBytecode => self.state_bytecode_time - self.state_bytecode_upsert_time,
            WriteKind::StateStorage => self.state_storage_time - self.state_storage_upsert_time,
        }
    }
}

/// All the overhead of the execution stage.
#[derive(Debug, Clone, Copy, PartialEq, Eq)]
pub struct ExecutionDurationRecord {
    /// When the stage started.
    pub total_recorder: Instant,
    /// When the part that is running started.
    pub time_recorder: Instant,
    /// Cycles of the stage as a whole.
    pub total: u64,
    /// Cycles of fetching the total difficulty of the block.
    pub block_td: u64,
    /// Cycles of fetching the block with its senders.
    pub block_with_senders: u64,
    /// The execution of transactions.
    pub execution: ExecuteTxsRecord,
    /// The writing to the database.
    pub write_to_db: WriteToDbRecord,
}

impl Default for ExecutionDurationRecord {
    fn default() -> (r: Self)
        ensures
            r == ExecutionDurationRecord::zero(),
    {
        ExecutionDurationRecord {
            total_recorder: Instant::default(),
            time_recorder: Instant::default(),
            total: 0,
            block_td: 0,
            block_with_senders: 0,
            execution: ExecuteTxsRecord::default(),
            write_to_db: WriteToDbRecord::default(),
        }
    }
}

impl ExecutionDurationRecord {
    /// The record in which every time and every size is zero.
    pub open spec fn zero() -> Self {
        ExecutionDurationRecord {
            total_recorder: Instant(0),
            time_recorder: Instant(0),
            total: 0,
            block_td: 0,
            block_with_senders: 0,
            execution: ExecuteTxsRecord::zero(),
            write_to_db: WriteToDbRecord::zero(),
        }
    }

    /// The cycles from the start of the running part to `now`.
    pub open spec fn lap(self, now: Instant) -> u64 {
        now.elapsed_since(self.time_recorder)
    }

    /// The cycles from the start of the stage to `now`.
    pub open spec fn span(self, now: Instant) -> u64 {
        now.elapsed_since(self.total_recorder)
    }

    /// The cycles of the parts of the stage together.
    pub open spec fn phases_total(self) -> int {
        self.block_td + self.block_with_senders + self.execution.total + self.write_to_db.total
    }

    /// Whether the total can take the cycles from the start of the stage to
    /// `now`.
    pub open spec fn total_fits(self, now: Instant) -> bool {
        self.total + self.span(now) <= u64::MAX
    }

    /// Whether the time of fetching the total difficulty can take the cycles
    /// of the running part up to `now`.
    pub open spec fn block_td_fits(self, now: Instant) -> bool {
        self.block_td + self.lap(now) <= u64::MAX
    }

    /// Whether the time of fetching the block with its senders can take the
    /// cycles of the running part up to `now`.
    pub open spec fn block_with_senders_fits(self, now: Instant) -> bool {
        self.block_with_senders + self.lap(now) <= u64::MAX
    }

    /// Decides `total_fits`.
    pub fn can_add_total(&self, now: Instant) -> (r: bool)
        ensures
            r == self.total_fits(now),
    {
        self.total <= u64::MAX - now.cycles_since(self.total_recorder)
    }

    /// Decides `block_td_fits`.
    pub fn can_add_block_td(&self, now: Instant) -> (r: bool)
        ensures
            r == self.block_td_fits(now),
    {
        self.block_td <= u64::MAX - now.cycles_since(self.time_recorder)
    }

    /// Decides `block_with_senders_fits`.
    pub fn can_add_block_with_senders(&self, now: Instant) -> (r: bool)
        ensures
            r == self.block_with_senders_fits(now),
    {
        self.block_with_senders <= u64::MAX - now.cycles_since(self.time_recorder)
    }

    /// Decides whether `misc` can subtract the parts from the total.
    pub fn can_misc(&self) -> (r: bool)
        ensures
            r == (self.phases_total() <= self.total),
    {
        let parts: u128 = self.block_td as u128 + self.block_with_senders as u128
            + self.execution.total as u128 + self.write_to_db.total as u128;
        parts <= self.total as u128
    }

    /// Marks `now` as the start of the stage.
    pub fn start_total_record(&mut self, now: Instant)
        ensures
            *final(self) == (ExecutionDurationRecord { total_recorder: now, ..*old(self) }),
    {
        self.total_recorder = now;
    }

    /// Marks `now` as the start of the part that runs next.
    pub fn start_time_record(&mut self, now: Instant)
        ensures
            *final(self) == (ExecutionDurationRecord { time_recorder: now, ..*old(self) }),
    {
        self.time_recorder = now;
    }

    /// Adds the cycles from the start of the stage to `now` to the total.
    pub fn add_total_duration(&mut self, now: Instant)
        requires
            old(self).total_fits(now),
        ensures
            *final(self) == (ExecutionDurationRecord {
                total: (old(self).total + old(self).span(now)) as u64,
                ..*old(self)
            }),
    {
        let cycles: u64 = now.cycles_since(self.total_recorder);
        self.total = self.total + cycles;
    }

    /// Adds the cycles from the start of the running part to `now` to the
    /// time of fetching the total difficulty.
    pub fn add_block_td_duration(&mut self, now: Instant)
        requires
            old(self).block_td_fits(now),
        ensures
            *final(self) == (ExecutionDurationRecord {
                block_td: (old(self).block_td + old(self).lap(now)) as u64,
                ..*old(self)
            }),
    {
        let cycles: u64 = now.cycles_since(self.time_recorder);
        self.block_td = self.block_td + cycles;
    }

    /// Adds the cycles from the start of the running part to `now` to the
    /// time of fetching the block with its senders.
    pub fn add_block_with_senders_duration(&mut self, now: Instant)
        requires
            old(self).block_with_senders_fits(now),
        ensures
            *final(self) == (ExecutionDurationRecord {
                block_with_senders: (old(self).block_with_senders + old(self).lap(now)) as u64,
                ..*old(self)
            }),
    {
        let cycles: u64 = now.cycles_since(self.time_recorder);
        self.block_with_senders = self.block_with_senders + cycles;
    }

    /// The cycles of the stage that no part accounts for.
    pub fn misc(&self) -> (r: u64)
        requires
            self.phases_total() <= self.total,
        ensures
            r == self.total - self.phases_total(),
    {
        self.total - self.block_td - self.block_with_senders - self.execution.total
            - self.write_to_db.total
    }
}

/// A part takes up exactly the cycles since the part before it ended: its
/// time grows by them, no other time changes, and the next part starts where
/// this one ended.
pub proof fn lemma_execute_lap_accounts_once(r: ExecuteTxsRecord, phase: ExecutePhase, now: Instant)
    requires
        r.lap_fits(phase, now),
    ensures
        r.lapped(phase, now).phase_time(phase) == r.phase_time(phase) + r.lap(now),
        forall|other: ExecutePhase|
            other != phase ==> r.lapped(phase, now).phase_time(other) == r.phase_time(other),
        r.lapped(phase, now).phases_total() == r.phases_total() + r.lap(now),
        r.lapped(phase, now).sub_record == now,
        r.lapped(phase, now).start_record == r.start_record,
        r.lapped(phase, now).total == r.total,
{
}

/// Three parts recorded one after the other, at instants that do not go
/// back, each take up the cycles between the end of the part before and
/// their own end, and together exactly the cycles of the whole span: no
/// cycle is counted twice and none is left out.
pub proof fn lemma_execute_chain_covers_span(
    r: ExecuteTxsRecord,
    first: ExecutePhase,
    second: ExecutePhase,
    third: ExecutePhase,
    t1: Instant,
    t2: Instant,
    t3: Instant,
)
    requires
        r.sub_record.cycles() <= t1.cycles() <= t2.cycles() <= t3.cycles(),
        r.phases_total() + (t3.cycles() - r.sub_record.cycles()) <= u64::MAX,
    ensures
        ({
            let end = r.lapped(first, t1).lapped(second, t2).lapped(third, t3);
            &&& end.phases_total() - r.phases_total() == t3.cycles() - r.sub_record.cycles()
            &&& end.sub_record == t3
            &&& first != second && second != third && first != third ==> {
                &&& end.phase_time(first) - r.phase_time(first) == t1.cycles()
                    - r.sub_record.cycles()
                &&& end.phase_time(second) - r.phase_time(second) == t2.cycles() - t1.cycles()
                &&& end.phase_time(third) - r.phase_time(third) == t3.cycles() - t2.cycles()
            }
        }),
{
    let a = r.lapped(first, t1);
    lemma_execute_lap_accounts_once(r, first, t1);
    let b = a.lapped(second, t2);
    lemma_execute_lap_accounts_once(a, second, t2);
    lemma_execute_lap_accounts_once(b, third, t3);
}

/// From the start of the execution of transactions to the saving of
/// receipts, with every part recorded in between at instants that do not go
/// back, the total is exactly the sum of the parts: nothing is left
/// unaccounted.
pub proof fn lemma_execute_total_is_sum_of_parts(
    start: Instant,
    first: ExecutePhase,
    second: ExecutePhase,
    t1: Instant,
    t2: Instant,
    t3: Instant,
)
    requires
        start.cycles() <= t1.cycles() <= t2.cycles() <= t3.cycles(),
    ensures
        ({
            let begun = ExecuteTxsRecord { start_record: start, sub_record: start, ..ExecuteTxsRecord::zero() };
            let end = begun.lapped(first, t1).lapped(second, t2).lapped(
                ExecutePhase::SaveReceipts,
                t3,
            ).totalled(t3);
            &&& end.total == t3.cycles() - start.cycles()
            &&& end.phases_total() == end.total
        }),
{
    let begun = ExecuteTxsRecord { start_record: start, sub_record: start, ..ExecuteTxsRecord::zero() };
    lemma_execute_chain_covers_span(begun, first, second, ExecutePhase::SaveReceipts, t1, t2, t3);
}

/// A part of writing to the database takes up exactly the cycles since the
/// part before it ended: its time grows by them, no other time changes, and
/// the next part starts where this one ended.
pub proof fn lemma_write_lap_accounts_once(r: WriteToDbRecord, phase: WritePhase, now: Instant)
    requires
        r.lap_fits(phase, now),
    ensures
        r.lapped(phase, now).phase_time(phase) == r.phase_time(phase) + r.lap(now),
        forall|other: WritePhase|
            other != phase ==> r.lapped(phase, now).phase_time(other) == r.phase_time(other),
        forall|kind: WriteKind|
            r.lapped(phase, now).write_time(kind) == r.write_time(kind) && r.lapped(
                phase,
                now,
            ).size(kind) == r.size(kind),
        r.lapped(phase, now).phases_total() == r.phases_total() + r.lap(now),
        r.lapped(phase, now).sub_record == now,
        r.lapped(phase, now).write_start_record == r.write_start_record,
        r.lapped(phase, now).start_record == r.start_record,
        r.lapped(phase, now).total == r.total,
{
}

/// A single write takes up exactly the cycles since it started, and commits
/// its size with them: the time of the single writes of its kind grows by
/// the cycles, the bytes of its kind by the size, and nothing else changes
/// but the start of the next single write.
pub proof fn lemma_single_write_accounts_once(
    r: WriteToDbRecord,
    kind: WriteKind,
    size: usize,
    start: Instant,
    end: Instant,
)
    requires
        start.cycles() <= end.cycles(),
        r.write_time(kind) + (end.cycles() - start.cycles()) <= u64::MAX,
        r.size_fits(kind, size),
    ensures
        ({
            let begun = WriteToDbRecord { write_start_record: start, ..r };
            let done = begun.written(kind, end).sized(kind, size);
            &&& done.write_time(kind) == r.write_time(kind) + (end.cycles() - start.cycles())
            &&& done.size(kind) == r.size(kind) + size
            &&& forall|other: WriteKind|
                other != kind ==> done.write_time(other) == r.write_time(other) && done.size(
                    other,
                ) == r.size(other)
            &&& forall|phase: WritePhase| done.phase_time(phase) == r.phase_time(phase)
            &&& done.write_start_record == end
            &&& done.sub_record == r.sub_record
            &&& done.start_record == r.start_record
            &&& done.total == r.total
        }),
{
}

} // verus!
