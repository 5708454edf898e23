//! The numbers of the report of transactions per second and gas per second.
//!
//! The displayer follows the counts of transactions and gas from block to
//! block; a report covers what was counted since the report before.
use crate::metrics::tps_gas::TpsAndGasMessage;
use crate::utils::time_utils::cycles::{convert_cycles_to_ns, saturate_u64, CycleClock};
use crate::utils::time_utils::cycles::NANOS_PER_SEC;
use crate::utils::time_utils::instant::Instant;
use vstd::prelude::*;

verus! {

/// A report is made at every block whose number is a multiple of this.
pub const REPORT_INTERVAL: u64 = 1000;

/// What one report of transactions and gas shows.
#[derive(Debug, Clone, Copy, PartialEq, Eq)]
pub struct TpsGasReport {
    /// The block at which the report is made.
    pub block_number: u64,
    /// Transactions per second since the report before, rounded down.
    pub tps: u128,
    /// Gas consumed since the report before.
    pub delta_gas: u128,
    /// Nanoseconds gone since the report before.
    pub elapsed_ns: u64,
}

/// Follows the counts of transactions and gas, and makes the reports.
#[derive(Debug, Clone, Copy, PartialEq, Eq)]
pub struct TpsAndGasDisplayer {
    /// Transactions counted at the report before.
    pub pre_txs: u128,
    /// Gas counted at the report before.
    pub pre_gas: u128,
    /// Transactions counted at the block before.
    pub last_txs: u128,
    /// Gas counted at the block before.
    pub last_gas: u128,
    /// When the report before was made.
    pub pre_instant: Instant,
}

impl Default for TpsAndGasDisplayer {
    fn default() -> (r: Self)
        ensures
            r == (TpsAndGasDisplayer {
                pre_txs: 0,
                pre_gas: 0,
                last_txs: 0,
                last_gas: 0,
                pre_instant: Instant(0),
            }),
    {
        TpsAndGasDisplayer {
            pre_txs: 0,
            pre_gas: 0,
            last_txs: 0,
            last_gas: 0,
            pre_instant: Instant::default(),
        }
    }
}

impl TpsAndGasDisplayer {
    /// The nanoseconds from the report before to `now`.
    pub open spec fn elapsed_ns(self, now: Instant, clock: CycleClock) -> u64 {
        saturate_u64(clock.nanos(now.elapsed_since(self.pre_instant) as nat))
    }

    /// Whether a report of the counts `txs` and `gas` can be made at `now`:
    /// the counts have not gone back, time has passed, and the rate fits.
    pub open spec fn report_fits(self, txs: u128, gas: u128, now: Instant, clock: CycleClock) -> bool {
        &&& self.pre_txs <= txs
        &&& self.pre_gas <= gas
        &&& self.elapsed_ns(now, clock) > 0
        &&& (txs - self.pre_txs) * NANOS_PER_SEC <= u128::MAX
    }

    /// The report of the counts `txs` and `gas` at `now`.
    pub open spec fn report(
        self,
        block_number: u64,
        txs: u128,
        gas: u128,
        now: Instant,
        clock: CycleClock,
    ) -> TpsGasReport {
        TpsGasReport {
            block_number,
            tps: ((txs - self.pre_txs) * NANOS_PER_SEC / self.elapsed_ns(now, clock) as int) as u128,
            delta_gas: (gas - self.pre_gas) as u128,
            elapsed_ns: self.elapsed_ns(now, clock),
        }
    }

    /// The displayer after a report of the counts `txs` and `gas` at `now`.
    pub open spec fn reported(self, txs: u128, gas: u128, now: Instant) -> Self {
        TpsAndGasDisplayer { pre_txs: txs, pre_gas: gas, pre_instant: now, ..self }
    }

    /// Whether the counts of block `block_number` are reported.
    pub open spec fn is_report_block(block_number: u64) -> bool {
        block_number % REPORT_INTERVAL == 0
    }

    /// Decides `report_fits`.
    pub fn can_report(&self, txs: u128, gas: u128, now: Instant, clock: &CycleClock) -> (r: bool)
        ensures
            r == self.report_fits(txs, gas, now, *clock),
    {
        if txs < self.pre_txs || gas < self.pre_gas {
            return false;
        }
        let elapsed_ns: u64 = convert_cycles_to_ns(clock, now.cycles_since(self.pre_instant));
        if elapsed_ns == 0 {
            return false;
        }
        let delta_txs: u128 = txs - self.pre_txs;
        assert(NANOS_PER_SEC == 1_000_000_000);
        delta_txs <= u128::MAX / (NANOS_PER_SEC as u128)
    }

    /// Takes the counts up to block `block_number`, and reports them if the
    /// block is one at which a report is made.
    pub fn update_tps_and_gas(
        &mut self,
        block_number: u64,
        txs: u128,
        gas: u128,
        now: Instant,
        clock: &CycleClock,
    ) -> (report: Option<TpsGasReport>)
        requires
            Self::is_report_block(block_number) ==> old(self).report_fits(txs, gas, now, *clock),
        ensures
            report == (if Self::is_report_block(block_number) {
                Some(old(self).report(block_number, txs, gas, now, *clock))
            } else {
                None
            }),
            *final(self) == (if Self::is_report_block(block_number) {
                TpsAndGasDisplayer { last_txs: txs, last_gas: gas, ..old(self).reported(txs, gas, now) }
            } else {
                TpsAndGasDisplayer { last_txs: txs, last_gas: gas, ..*old(self) }
            }),
    {
        let report = if 0 == block_number % REPORT_INTERVAL {
            Some(self.print_content(block_number, txs, gas, now, clock))
        } else {
            None
        };
        self.last_txs = txs;
        self.last_gas = gas;
        report
    }

    /// Starts a stretch of measuring at `now`: what was counted up to the
    /// block before is what the next report starts from.
    pub fn start_record(&mut self, now: Instant)
        ensures
            *final(self) == (TpsAndGasDisplayer {
                pre_txs: old(self).last_txs,
                pre_gas: old(self).last_gas,
                pre_instant: now,
                ..*old(self)
            }),
    {
        self.pre_txs = self.last_txs;
        self.pre_gas = self.last_gas;
        self.pre_instant = now;
    }

    /// Ends a stretch of measuring at `now`: reports the counts of the block
    /// before.
    pub fn stop_record(&mut self, block_number: u64, now: Instant, clock: &CycleClock) -> (report:
        TpsGasReport)
        requires
            old(self).report_fits(old(self).last_txs, old(self).last_gas, now, *clock),
        ensures
            report == old(self).report(
                block_number,
                old(self).last_txs,
                old(self).last_gas,
                now,
                *clock,
            ),
            *final(self) == old(self).reported(old(self).last_txs, old(self).last_gas, now),
    {
        let txs = self.last_txs;
        let gas = self.last_gas;
        self.print_content(block_number, txs, gas, now, clock)
    }

    /// Makes the report of the counts `txs` and `gas` at `now`: the
    /// transactions per second and the gas since the report before, and the
    /// time gone. The next report starts from here.
    pub fn print_content(
        &mut self,
        block_number: u64,
        txs: u128,
        gas: u128,
        now: Instant,
        clock: &CycleClock,
    ) -> (report: TpsGasReport)
        requires
            old(self).report_fits(txs, gas, now, *clock),
        ensures
            report == old(self).report(block_number, txs, gas, now, *clock),
            *final(self) == old(self).reported(txs, gas, now),
    {
        let elapsed_ns: u64 = convert_cycles_to_ns(clock, now.cycles_since(self.pre_instant));
        let delta_txs: u128 = txs - self.pre_txs;
        let delta_gas: u128 = gas - self.pre_gas;
        let tps: u128 = delta_txs * (NANOS_PER_SEC as u128) / (elapsed_ns as u128);

        self.pre_txs = txs;
        self.pre_gas = gas;
        self.pre_instant = now;
        TpsGasReport { block_number, tps, delta_gas, elapsed_ns }
    }

    /// Whether `print` can take `message` at `now`: where the message leads
    /// to a report, the report can be made.
    pub open spec fn print_fits(self, message: TpsAndGasMessage, now: Instant, clock: CycleClock) -> bool {
        match message {
            TpsAndGasMessage::Record(record) => Self::is_report_block(record.block_number)
                ==> self.report_fits(record.txs, record.gas, now, clock),
            TpsAndGasMessage::Switch(on) => !on ==> self.report_fits(
                self.last_txs,
                self.last_gas,
                now,
                clock,
            ),
        }
    }

    /// Decides `print_fits`.
    pub fn can_print(&self, message: TpsAndGasMessage, now: Instant, clock: &CycleClock) -> (r: bool)
        ensures
            r == self.print_fits(message, now, *clock),
    {
        match message {
            TpsAndGasMessage::Record(record) => {
                if 0 == record.block_number % REPORT_INTERVAL {
                    self.can_report(record.txs, record.gas, now, clock)
                } else {
                    true
                }
            },
            TpsAndGasMessage::Switch(switch) => {
                if switch {
                    true
                } else {
                    self.can_report(self.last_txs, self.last_gas, now, clock)
                }
            },
        }
    }

    /// Whether `report` and `post` are what `print` gives for `message`:
    /// counts are taken over, and reported at the blocks at which a report
    /// is made; switching on starts a stretch of measuring, without a
    /// report; switching off ends it with a report of the counts of the
    /// block before.
    pub open spec fn print_gives(
        self,
        block_number: u64,
        message: TpsAndGasMessage,
        now: Instant,
        clock: CycleClock,
        report: Option<TpsGasReport>,
        post: Self,
    ) -> bool {
        match message {
            TpsAndGasMessage::Record(record) => {
                if Self::is_report_block(record.block_number) {
                    &&& report == Some(
                        self.report(record.block_number, record.txs, record.gas, now, clock),
                    )
                    &&& post == (TpsAndGasDisplayer {
                        last_txs: record.txs,
                        last_gas: record.gas,
                        ..self.reported(record.txs, record.gas, now)
                    })
                } else {
                    &&& report is None
                    &&& post == (TpsAndGasDisplayer {
                        last_txs: record.txs,
                        last_gas: record.gas,
                        ..self
                    })
                }
            },
            TpsAndGasMessage::Switch(on) => {
                if on {
                    &&& report is None
                    &&& post == (TpsAndGasDisplayer {
                        pre_txs: self.last_txs,
                        pre_gas: self.last_gas,
                        pre_instant: now,
                        ..self
                    })
                } else {
                    &&& report == Some(
                        self.report(block_number, self.last_txs, self.last_gas, now, clock),
                    )
                    &&& post == self.reported(self.last_txs, self.last_gas, now)
                }
            },
        }
    }

    /// Takes a message on transactions and gas that came for block
    /// `block_number`. Counts are taken over, and reported at the blocks at
    /// which a report is made; switching on starts a stretch of measuring;
    /// switching off ends it with a report. Returns the report, if the
    /// message led to one.
    pub fn print(
        &mut self,
        block_number: u64,
        message: TpsAndGasMessage,
        now: Instant,
        clock: &CycleClock,
    ) -> (report: Option<TpsGasReport>)
        requires
            old(self).print_fits(message, now, *clock),
        ensures
            old(self).print_gives(block_number, message, now, *clock, report, *final(self)),
    {
        match message {
            TpsAndGasMessage::Record(record) => self.update_tps_and_gas(
                record.block_number,
                record.txs,
                record.gas,
                now,
                clock,
            ),
            TpsAndGasMessage::Switch(switch) => {
                if switch {
                    self.start_record(now);
                    None
                } else {
                    Some(self.stop_record(block_number, now, clock))
                }
            },
        }
    }
}

} // verus!
