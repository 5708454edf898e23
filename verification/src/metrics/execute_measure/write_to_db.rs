//! The measuring points of writing to the database, and the scoped
//! measurements of single writes.
//!
//! A single write is measured by a value that is made with the size of what
//! is written where the write begins and released where it ends; the release
//! commits the cycles of the write and the size together.
use crate::metrics::duration::{WriteKind, WritePhase, WriteToDbRecord};
use crate::metrics::metric::PerfMetric;
use crate::utils::time_utils::instant::Instant;
use vstd::prelude::*;

verus! {

/// Marks `now` as the start of writing to the database.
pub fn start_write_to_db_record(metric: &mut PerfMetric, now: Instant)
    ensures
        *final(metric) == old(metric).with_write(
            WriteToDbRecord { start_record: now, ..old(metric).duration_record.write_to_db },
        ),
{
    metric.duration_record.write_to_db.start_record(now);
}

/// Marks `now` as the start of the part that runs next.
pub fn start_write_to_db_sub_record(metric: &mut PerfMetric, now: Instant)
    ensures
        *final(metric) == old(metric).with_write(
            WriteToDbRecord { sub_record: now, ..old(metric).duration_record.write_to_db },
        ),
{
    metric.duration_record.write_to_db.start_sub_record(now);
}

/// Marks `now` as the start of the single write that runs next.
pub fn start_write_record(metric: &mut PerfMetric, now: Instant)
    ensures
        *final(metric) == old(metric).with_write(
            WriteToDbRecord { write_start_record: now, ..old(metric).duration_record.write_to_db },
        ),
{
    metric.duration_record.write_to_db.start_write_record(now);
}

/// Adds `size` bytes to the data written of the storage changes of the reverts.
pub fn record_revert_storage_size(metric: &mut PerfMetric, size: usize)
    requires
        old(metric).duration_record.write_to_db.size_fits(WriteKind::RevertStorage, size),
    ensures
        *final(metric) == old(metric).with_write(
            old(metric).duration_record.write_to_db.sized(WriteKind::RevertStorage, size),
        ),
{
    metric.duration_record.write_to_db.record_revert_storage_size(size);
}

/// Attributes the cycles of the single write up to `now` to the writes of
/// the storage changes of the reverts.
pub fn record_revert_storage_append_time(metric: &mut PerfMetric, now: Instant)
    requires
        old(metric).duration_record.write_to_db.write_fits(WriteKind::RevertStorage, now),
    ensures
        *final(metric) == old(metric).with_write(
            old(metric).duration_record.write_to_db.written(WriteKind::RevertStorage, now),
        ),
{
    let _ = metric.duration_record.write_to_db.record_revert_storage_append_time(now);
}

/// A single write of a storage change of the reverts.
#[derive(Debug)]
pub struct RevertsStorageWrite(usize);

impl RevertsStorageWrite {
    /// The bytes that are written.
    pub closed spec fn size(&self) -> usize {
        self.0
    }

    /// Starts a single write of `size` bytes at `now`.
    pub fn new(metric: &mut PerfMetric, size: usize, now: Instant) -> (guard: Self)
        ensures
            guard.size() == size,
            *final(metric) == old(metric).with_write(
                WriteToDbRecord {
                    write_start_record: now,
                    ..old(metric).duration_record.write_to_db
                },
            ),
    {
        start_write_record(metric, now);
        RevertsStorageWrite(size)
    }

    /// Ends the write at `now` and commits its cycles and its size.
    pub fn release(self, metric: &mut PerfMetric, now: Instant)
        requires
            old(metric).duration_record.write_to_db.write_fits(WriteKind::RevertStorage, now),
            old(metric).duration_record.write_to_db.size_fits(WriteKind::RevertStorage, self.size()),
        ensures
            *final(metric) == old(metric).with_write(
                old(metric).duration_record.write_to_db.written(WriteKind::RevertStorage, now).sized(
                    WriteKind::RevertStorage,
                    self.size(),
                ),
            ),
    {
        record_revert_storage_append_time(metric, now);
        record_revert_storage_size(metric, self.0);
    }
}

/// Attributes the cycles up to `now` to writing the storage changes of the reverts.
pub fn record_revert_storage_time(metric: &mut PerfMetric, now: Instant)
    requires
        old(metric).duration_record.write_to_db.lap_fits(WritePhase::RevertStorage, now),
    ensures
        *final(metric) == old(metric).with_write(
            old(metric).duration_record.write_to_db.lapped(WritePhase::RevertStorage, now),
        ),
{
    let _ = metric.duration_record.write_to_db.record_revert_storage_time(now);
}

/// Adds `size` bytes to the data written of the account changes of the reverts.
pub fn record_revert_account_size(metric: &mut PerfMetric, size: usize)
    requires
        old(metric).duration_record.write_to_db.size_fits(WriteKind::RevertAccount, size),
    ensures
        *final(metric) == old(metric).with_write(
            old(metric).duration_record.write_to_db.sized(WriteKind::RevertAccount, size),
        ),
{
    metric.duration_record.write_to_db.record_revert_account_size(size);
}

/// Attributes the cycles of the single write up to `now` to the writes of
/// the account changes of the reverts.
pub fn record_revert_account_append_time(metric: &mut PerfMetric, now: Instant)
    requires
        old(metric).duration_record.write_to_db.write_fits(WriteKind::RevertAccount, now),
    ensures
        *final(metric) == old(metric).with_write(
            old(metric).duration_record.write_to_db.written(WriteKind::RevertAccount, now),
        ),
{
    let _ = metric.duration_record.write_to_db.record_revert_account_append_time(now);
}

/// A single write of an account change of the reverts.
#[derive(Debug)]
pub struct RevertsAccountWrite(usize);

impl RevertsAccountWrite {
    /// The bytes that are written.
    pub closed spec fn size(&self) -> usize {
        self.0
    }

    /// Starts a single write of `size` bytes at `now`.
    pub fn new(metric: &mut PerfMetric, size: usize, now: Instant) -> (guard: Self)
        ensures
            guard.size() == size,
            *final(metric) == old(metric).with_write(
                WriteToDbRecord {
                    write_start_record: now,
                    ..old(metric).duration_record.write_to_db
                },
            ),
    {
        start_write_record(metric, now);
        RevertsAccountWrite(size)
    }

    /// Ends the write at `now` and commits its cycles and its size.
    pub fn release(self, metric: &mut PerfMetric, now: Instant)
        requires
            old(metric).duration_record.write_to_db.write_fits(WriteKind::RevertAccount, now),
            old(metric).duration_record.write_to_db.size_fits(WriteKind::RevertAccount, self.size()),
        ensures
            *final(metric) == old(metric).with_write(
                old(metric).duration_record.write_to_db.written(WriteKind::RevertAccount, now).sized(
                    WriteKind::RevertAccount,
                    self.size(),
                ),
            ),
    {
        record_revert_account_append_time(metric, now);
        record_revert_account_size(metric, self.0);
    }
}

/// Attributes the cycles up to `now` to writing the account changes of the reverts.
pub fn record_revert_account_time(metric: &mut PerfMetric, now: Instant)
    requires
        old(metric).duration_record.write_to_db.lap_fits(WritePhase::RevertAccount, now),
    ensures
        *final(metric) == old(metric).with_write(
            old(metric).duration_record.write_to_db.lapped(WritePhase::RevertAccount, now),
        ),
{
    let _ = metric.duration_record.write_to_db.record_revert_account_time(now);
}

/// Adds `size` bytes to the data written of the receipts.
pub fn record_write_receipts_size(metric: &mut PerfMetric, size: usize)
    requires
        old(metric).duration_record.write_to_db.size_fits(WriteKind::Receipts, size),
    ensures
        *final(metric) == old(metric).with_write(
            old(metric).duration_record.write_to_db.sized(WriteKind::Receipts, size),
        ),
{
    metric.duration_record.write_to_db.record_write_receipts_size(size);
}

/// Attributes the cycles of the single write up to `now` to the writes of
/// the receipts.
pub fn record_receipts_append_time(metric: &mut PerfMetric, now: Instant)
    requires
        old(metric).duration_record.write_to_db.write_fits(WriteKind::Receipts, now),
    ensures
        *final(metric) == old(metric).with_write(
            old(metric).duration_record.write_to_db.written(WriteKind::Receipts, now),
        ),
{
    let _ = metric.duration_record.write_to_db.record_receipts_append_time(now);
}

/// A single write of a receipt.
#[derive(Debug)]
pub struct ReceiptsWrite(usize);

impl ReceiptsWrite {
    /// The bytes that are written.
    pub closed spec fn size(&self) -> usize {
        self.0
    }

    /// Starts a single write of `size` bytes at `now`.
    pub fn new(metric: &mut PerfMetric, size: usize, now: Instant) -> (guard: Self)
        ensures
            guard.size() == size,
            *final(metric) == old(metric).with_write(
                WriteToDbRecord {
                    write_start_record: now,
                    ..old(metric).duration_record.write_to_db
                },
            ),
    {
        start_write_record(metric, now);
        ReceiptsWrite(size)
    }

    /// Ends the write at `now` and commits its cycles and its size.
    pub fn release(self, metric: &mut PerfMetric, now: Instant)
        requires
            old(metric).duration_record.write_to_db.write_fits(WriteKind::Receipts, now),
            old(metric).duration_record.write_to_db.size_fits(WriteKind::Receipts, self.size()),
        ensures
            *final(metric) == old(metric).with_write(
                old(metric).duration_record.write_to_db.written(WriteKind::Receipts, now).sized(
                    WriteKind::Receipts,
                    self.size(),
                ),
            ),
    {
        record_receipts_append_time(metric, now);
        record_write_receipts_size(metric, self.0);
    }
}

/// Attributes the cycles up to `now` to writing the receipts.
pub fn record_write_receipts_time(metric: &mut PerfMetric, now: Instant)
    requires
        old(metric).duration_record.write_to_db.lap_fits(WritePhase::WriteReceipts, now),
    ensures
        *final(metric) == old(metric).with_write(
            old(metric).duration_record.write_to_db.lapped(WritePhase::WriteReceipts, now),
        ),
{
    let _ = metric.duration_record.write_to_db.record_write_receipts_time(now);
}

/// Attributes the cycles up to `now` to sorting the state changes.
pub fn record_sort_time(metric: &mut PerfMetric, now: Instant)
    requires
        old(metric).duration_record.write_to_db.lap_fits(WritePhase::Sort, now),
    ensures
        *final(metric) == old(metric).with_write(
            old(metric).duration_record.write_to_db.lapped(WritePhase::Sort, now),
        ),
{
    let _ = metric.duration_record.write_to_db.record_sort_time(now);
}

/// Adds `size` bytes to the data written of the accounts of the state changes.
pub fn record_state_account_size(metric: &mut PerfMetric, size: usize)
    requires
        old(metric).duration_record.write_to_db.size_fits(WriteKind::StateAccount, size),
    ensures
        *final(metric) == old(metric).with_write(
            old(metric).duration_record.write_to_db.sized(WriteKind::StateAccount, size),
        ),
{
    metric.duration_record.write_to_db.record_state_account_size(size);
}

/// Attributes the cycles of the single write up to `now` to the writes of
/// the accounts of the state changes.
pub fn record_state_account_upsert_time(metric: &mut PerfMetric, now: Instant)
    requires
        old(metric).duration_record.write_to_db.write_fits(WriteKind::StateAccount, now),
    ensures
        *final(metric) == old(metric).with_write(
            old(metric).duration_record.write_to_db.written(WriteKind::StateAccount, now),
        ),
{
    let _ = metric.duration_record.write_to_db.record_state_account_upsert_time(now);
}

/// A single write of an account of the state changes.
#[derive(Debug)]
pub struct StateAccountWrite(usize);

impl StateAccountWrite {
    /// The bytes that are written.
    pub closed spec fn size(&self) -> usize {
        self.0
    }

    /// Starts a single write of `size` bytes at `now`.
    pub fn new(metric: &mut PerfMetric, size: usize, now: Instant) -> (guard: Self)
        ensures
            guard.size() == size,
            *final(metric) == old(metric).with_write(
                WriteToDbRecord {
                    write_start_record: now,
                    ..old(metric).duration_record.write_to_db
                },
            ),
    {
        start_write_record(metric, now);
        StateAccountWrite(size)
    }

    /// Ends the write at `now` and commits its cycles and its size.
    pub fn release(self, metric: &mut PerfMetric, now: Instant)
        requires
            old(metric).duration_record.write_to_db.write_fits(WriteKind::StateAccount, now),
            old(metric).duration_record.write_to_db.size_fits(WriteKind::StateAccount, self.size()),
        ensures
            *final(metric) == old(metric).with_write(
                old(metric).duration_record.write_to_db.written(WriteKind::StateAccount, now).sized(
                    WriteKind::StateAccount,
                    self.size(),
                ),
            ),
    {
        record_state_account_upsert_time(metric, now);
        record_state_account_size(metric, self.0);
    }
}

/// Attributes the cycles up to `now` to writing the accounts of the state changes.
pub fn record_state_account_time(metric: &mut PerfMetric, now: Instant)
    requires
        old(metric).duration_record.write_to_db.lap_fits(WritePhase::StateAccount, now),
    ensures
        *final(metric) == old(metric).with_write(
            old(metric).duration_record.write_to_db.lapped(WritePhase::StateAccount, now),
        ),
{
    let _ = metric.duration_record.write_to_db.record_state_account_time(now);
}

/// Adds `size` bytes to the data written of the bytecode of the state changes.
pub fn record_state_bytecode_size(metric: &mut PerfMetric, size: usize)
    requires
        old(metric).duration_record.write_to_db.size_fits(WriteKind::StateBytecode, size),
    ensures
        *final(metric) == old(metric).with_write(
            old(metric).duration_record.write_to_db.sized(WriteKind::StateBytecode, size),
        ),
{
    metric.duration_record.write_to_db.record_state_bytecode_size(size);
}

/// Attributes the cycles of the single write up to `now` to the writes of
/// the bytecode of the state changes.
pub fn record_state_bytecode_upsert_time(metric: &mut PerfMetric, now: Instant)
    requires
        old(metric).duration_record.write_to_db.write_fits(WriteKind::StateBytecode, now),
    ensures
        *final(metric) == old(metric).with_write(
            old(metric).duration_record.write_to_db.written(WriteKind::StateBytecode, now),
        ),
{
    let _ = metric.duration_record.write_to_db.record_state_bytecode_upsert_time(now);
}

/// A single write of bytecode of the state changes.
#[derive(Debug)]
pub struct StateBytecodeWrite(usize);

impl StateBytecodeWrite {
    /// The bytes that are written.
    pub closed spec fn size(&self) -> usize {
        self.0
    }

    /// Starts a single write of `size` bytes at `now`.
    pub fn new(metric: &mut PerfMetric, size: usize, now: Instant) -> (guard: Self)
        ensures
            guard.size() == size,
            *final(metric) == old(metric).with_write(
                WriteToDbRecord {
                    write_start_record: now,
                    ..old(metric).duration_record.write_to_db
                },
            ),
    {
        start_write_record(metric, now);
        StateBytecodeWrite(size)
    }

    /// Ends the write at `now` and commits its cycles and its size.
    pub fn release(self, metric: &mut PerfMetric, now: Instant)
        requires
            old(metric).duration_record.write_to_db.write_fits(WriteKind::StateBytecode, now),
            old(metric).duration_record.write_to_db.size_fits(WriteKind::StateBytecode, self.size()),
        ensures
            *final(metric) == old(metric).with_write(
                old(metric).duration_record.write_to_db.written(WriteKind::StateBytecode, now).sized(
                    WriteKind::StateBytecode,
                    self.size(),
                ),
            ),
    {
        record_state_bytecode_upsert_time(metric, now);
        record_state_bytecode_size(metric, self.0);
    }
}

/// Attributes the cycles up to `now` to writing the bytecode of the state changes.
pub fn record_state_bytecode_time(metric: &mut PerfMetric, now: Instant)
    requires
        old(metric).duration_record.write_to_db.lap_fits(WritePhase::StateBytecode, now),
    ensures
        *final(metric) == old(metric).with_write(
            old(metric).duration_record.write_to_db.lapped(WritePhase::StateBytecode, now),
        ),
{
    let _ = metric.duration_record.write_to_db.record_state_bytecode_time(now);
}

/// Adds `size` bytes to the data written of the storage of the state changes.
pub fn record_state_storage_size(metric: &mut PerfMetric, size: usize)
    requires
        old(metric).duration_record.write_to_db.size_fits(WriteKind::StateStorage, size),
    ensures
        *final(metric) == old(metric).with_write(
            old(metric).duration_record.write_to_db.sized(WriteKind::StateStorage, size),
        ),
{
    metric.duration_record.write_to_db.record_state_storage_size(size);
}

/// Attributes the cycles of the single write up to `now` to the writes of
/// the storage of the state changes.
pub fn record_state_storage_upsert_time(metric: &mut PerfMetric, now: Instant)
    requires
        old(metric).duration_record.write_to_db.write_fits(WriteKind::StateStorage, now),
    ensures
        *final(metric) == old(metric).with_write(
            old(metric).duration_record.write_to_db.written(WriteKind::StateStorage, now),
        ),
{
    let _ = metric.duration_record.write_to_db.record_state_storage_upsert_time(now);
}

/// A single write of storage of the state changes.
#[derive(Debug)]
pub struct StateStorageWrite(usize);

impl StateStorageWrite {
    /// The bytes that are written.
    pub closed spec fn size(&self) -> usize {
        self.0
    }

    /// Starts a single write of `size` bytes at `now`.
    pub fn new(metric: &mut PerfMetric, size: usize, now: Instant) -> (guard: Self)
        ensures
            guard.size() == size,
            *final(metric) == old(metric).with_write(
                WriteToDbRecord {
                    write_start_record: now,
                    ..old(metric).duration_record.write_to_db
                },
            ),
    {
        start_write_record(metric, now);
        StateStorageWrite(size)
    }

    /// Ends the write at `now` and commits its cycles and its size.
    pub fn release(self, metric: &mut PerfMetric, now: Instant)
        requires
            old(metric).duration_record.write_to_db.write_fits(WriteKind::StateStorage, now),
            old(metric).duration_record.write_to_db.size_fits(WriteKind::StateStorage, self.size()),
        ensures
            *final(metric) == old(metric).with_write(
                old(metric).duration_record.write_to_db.written(WriteKind::StateStorage, now).sized(
                    WriteKind::StateStorage,
                    self.size(),
                ),
            ),
    {
        record_state_storage_upsert_time(metric, now);
        record_state_storage_size(metric, self.0);
    }
}

/// Attributes the cycles up to `now` to writing the storage of the state changes, and adds the cycles
/// since the start of writing to the database to its total.
pub fn record_state_storage_time(metric: &mut PerfMetric, now: Instant)
    requires
        old(metric).duration_record.write_to_db.lap_fits(WritePhase::StateStorage, now),
        old(metric).duration_record.write_to_db.total_fits(now),
    ensures
        *final(metric) == old(metric).with_write(
            old(metric).duration_record.write_to_db.lapped(WritePhase::StateStorage, now).totalled(now),
        ),
{
    metric.duration_record.write_to_db.record_state_storage_time(now);
}

} // verus!
