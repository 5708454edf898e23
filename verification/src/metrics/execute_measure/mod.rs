//! The measuring points of the execution stage: what the stage and its
//! executor call where a part begins or ends.
pub mod execute_inner;
pub mod execute_txs;
pub mod revm_measure;
pub mod write_to_db;
