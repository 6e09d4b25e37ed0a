use vstd::prelude::*;

verus! {

/// A transaction as `eth_getTransactionByHash` and `eth_getBlockByNumber` report it.
/// Numeric fields are `0x`-prefixed hexadecimal quantities.
#[derive(Clone, Debug)]
pub struct TransactionResponse {
    pub block_number: String,
    pub hash: String,
    pub from: String,
    /// Absent for a contract creation.
    pub to: Option<String>,
    pub value: String,
    pub gas_price: String,
}

/// A log entry as `eth_getLogs` reports it.
#[derive(Clone, Debug)]
pub struct StqResponseItem {
    pub topics: Vec<String>,
    pub data: String,
    pub block_number: String,
    pub transaction_hash: String,
    pub log_index: String,
}

/// The fields of `eth_getTransactionReceipt` that finalization reads.
#[derive(Clone, Debug)]
pub struct TransactionReceiptResponse {
    pub gas_used: String,
    pub block_number: String,
}

} // verus!
