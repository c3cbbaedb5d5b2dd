//! Provenance of the outputs spent by a block: for each input, the output it
//! spends, whether that output came from a coinbase transaction, the height
//! that confirmed it, and its creation time (the median time past of the
//! eleven blocks before the confirming block).
pub mod cache;
pub mod chain;
pub mod coin_time;
pub mod error;
pub mod median;
pub mod pacing;
pub mod pipeline;
pub mod text;
pub mod utxo;
