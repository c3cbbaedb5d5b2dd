//! The values that a run reads and produces.
use vstd::prelude::*;

verus! {

/// A spent output, named by the transaction that created it and its index there.
#[derive(Debug, Clone, PartialEq, Eq)]
pub struct OutPointRef {
    /// The creating transaction's id, 64 hex characters.
    pub txid: String,
    /// The index of the output in that transaction.
    pub vout: u32,
}

/// A transaction output: its amount in satoshis and its locking script.
#[derive(Debug, Clone, PartialEq, Eq)]
pub struct TxOutput {
    pub amount: u64,
    pub script: Vec<u8>,
}

impl View for TxOutput {
    type V = (u64, Seq<u8>);

    open spec fn view(&self) -> (u64, Seq<u8>) {
        (self.amount, self.script@)
    }
}

/// What a run needs of a decoded transaction: its outputs, in order, and
/// whether it is a coinbase transaction.
#[derive(Debug, Clone, PartialEq, Eq)]
pub struct DecodedTx {
    pub outputs: Vec<TxOutput>,
    pub is_coinbase: bool,
}

impl View for DecodedTx {
    type V = (Seq<(u64, Seq<u8>)>, bool);

    open spec fn view(&self) -> (Seq<(u64, Seq<u8>)>, bool) {
        (self.outputs@.map_values(|o: TxOutput| o@), self.is_coinbase)
    }
}

/// A spent output with its provenance.
#[derive(Debug, Clone, PartialEq, Eq)]
pub struct UtxoData {
    /// The spent output.
    pub txout: TxOutput,
    /// Whether the output was created by a coinbase transaction.
    pub is_coinbase: bool,
    /// The height of the block that confirmed the output.
    pub creation_height: u32,
    /// The median time past of the eleven blocks before the confirming block.
    pub creation_time: u32,
}

/// The record of a spent output, as plain values.
pub struct UtxoView {
    pub amount: u64,
    pub script: Seq<u8>,
    pub is_coinbase: bool,
    pub creation_height: u32,
    pub creation_time: u32,
}

impl View for UtxoData {
    type V = UtxoView;

    open spec fn view(&self) -> UtxoView {
        UtxoView {
            amount: self.txout.amount,
            script: self.txout.script@,
            is_coinbase: self.is_coinbase,
            creation_height: self.creation_height,
            creation_time: self.creation_time,
        }
    }
}

} // verus!
