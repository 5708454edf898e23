//! The number of transactions and the gas consumed so far.
use vstd::prelude::*;

verus! {

/// The transactions and the gas counted up to a block.
#[derive(Debug, Copy, Clone, PartialEq, Eq)]
pub struct TpsGasRecord {
    /// The block that was counted last.
    pub block_number: u64,
    /// Transactions so far.
    pub txs: u128,
    /// Gas so far.
    pub gas: u128,
}

impl Default for TpsGasRecord {
    fn default() -> (r: Self)
        ensures
            r == (TpsGasRecord { block_number: 0, txs: 0, gas: 0 }),
    {
        TpsGasRecord { block_number: 0, txs: 0, gas: 0 }
    }
}

impl TpsGasRecord {
    /// Whether the counts can take `txs` transactions and `gas` gas more.
    pub open spec fn record_fits(self, txs: u128, gas: u128) -> bool {
        &&& self.txs + txs <= u128::MAX
        &&& self.gas + gas <= u128::MAX
    }

    /// Decides `record_fits`.
    pub fn can_record(&self, txs: u128, gas: u128) -> (r: bool)
        ensures
            r == self.record_fits(txs, gas),
    {
        self.txs <= u128::MAX - txs && self.gas <= u128::MAX - gas
    }

    /// Counts the transactions and the gas of block `block_number`.
    pub fn record(&mut self, block_number: u64, txs: u128, gas: u128)
        requires
            old(self).record_fits(txs, gas),
        ensures
            *final(self) == (TpsGasRecord {
                block_number,
                txs: (old(self).txs + txs) as u128,
                gas: (old(self).gas + gas) as u128,
            }),
    {
        self.block_number = block_number;
        self.txs = self.txs + txs;
        self.gas = self.gas + gas;
    }
}

/// What is told about transactions and gas.
#[derive(Debug, Copy, Clone, PartialEq, Eq)]
pub enum TpsAndGasMessage {
    /// Measuring is switched on or off.
    Switch(bool),
    /// The counts up to a block.
    Record(TpsGasRecord),
}

} // verus!
