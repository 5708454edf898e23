//! Records and recorders of the execution engine: per-opcode statistics,
//! cache access statistics and the time breakdown of one transaction.
pub mod distribution;
pub mod instruction;
pub mod metric;
pub mod transact;
pub mod types;
pub mod wrapper;

pub use metric::{
    after_execute_record, before_execute_record, execute_record, get_cache_record, get_op_record,
    get_transact_time, handler_end_record, hit_record, miss_record,
    preverify_transaction_inner_record, record_before_op, record_gas, record_op, start_record_op,
    transact_record, transact_start_record, transact_sub_record, Metric,
};
pub use types::Function;
pub use wrapper::{
    ExecuteEndRecord, HandlerEndRecord, HitRecord, MissRecord, OpcodeExecuteRecord,
    PreverifyTransactionInnerRecord,
};
