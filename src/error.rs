//! Errors of a run; every one of them ends the run.
use vstd::prelude::*;

verus! {

/// Why a run stopped.
#[derive(Debug, Clone, PartialEq, Eq)]
pub enum FetchError {
    /// Failure to read or write a local file.
    Io(String),
    /// A raw transaction could not be decoded; holds the input as `txid:vout`.
    FromHex(String),
    /// Transport failure while fetching the height of a transaction.
    Height(String),
    /// Transport failure while fetching a raw transaction.
    Transaction(String),
    /// Transport failure while fetching timestamps for a coin time.
    CoinTime(String),
    /// A payload was not the JSON that was expected of it.
    Parse,
    /// A batch of block timestamps did not describe `count` contiguous
    /// heights descending from `top_height`.
    Consistency { top_height: u32, count: u32 },
    /// The output was confirmed below height eleven; holds the input as `txid:vout`.
    NotEnoughHeight(String),
    /// The spent output index is past the outputs of its transaction; holds the
    /// input as `txid:vout`.
    Index(String),
}

} // verus!
