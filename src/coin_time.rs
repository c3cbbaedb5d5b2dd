//! The coin time of a confirming height, from the answers of its two
//! sub-fetches: a batch of ten block timestamps, and the newest block.
use vstd::prelude::*;
use crate::chain::{
    batch_result, json_u64_field, json_u64_pairs, parse_block_batch, parse_block_timestamp,
    u32_field, BLOCK_HEIGHT_FIELD, TIMESTAMP_FIELD,
};
use crate::error::FetchError;
use crate::median::{median_time, median_time_past, BATCH_LEN};
use crate::pipeline::MIN_CONFIRMING_HEIGHT;

verus! {

/// For confirming height `current_height`: the top height of the batch of
/// ten timestamps (heights `current_height - 11` to `current_height - 2`),
/// and the height of the newest block of the window, fetched on its own.
pub fn coin_time_sources(current_height: u32) -> (r: (u32, u32))
    requires
        current_height >= MIN_CONFIRMING_HEIGHT,
    ensures
        r.0 == current_height - 2,
        r.1 == current_height - 1,
{
    (current_height - 2, current_height - 1)
}

/// What the batch answer for confirming height `h` yields.
pub open spec fn batch_outcome(h: u32, batch_text: Seq<char>) -> Result<Seq<u32>, FetchError> {
    match json_u64_pairs(batch_text, BLOCK_HEIGHT_FIELD@, TIMESTAMP_FIELD@) {
        None => Err(FetchError::Parse),
        Some(es) => batch_result((h - 2) as u32, BATCH_LEN as nat, es),
    }
}

/// The coin time at confirming height `current_height`, from the batch
/// answer (a JSON array of the ten blocks from `current_height - 2` down) and
/// the newest block's answer (a JSON object with its timestamp). A failure of
/// the batch comes first, then one of the newest block; else the result is
/// the median of the eleven timestamps.
pub fn coin_time_from_responses(current_height: u32, batch_text: &str, newest_text: &str) -> (r:
    Result<u32, FetchError>)
    requires
        current_height >= MIN_CONFIRMING_HEIGHT,
    ensures
        match (
            batch_outcome(current_height, batch_text@),
            u32_field(json_u64_field(newest_text@, TIMESTAMP_FIELD@)),
        ) {
            (Err(e), _) => r == Err::<u32, FetchError>(e),
            (Ok(_), Err(e)) => r == Err::<u32, FetchError>(e),
            (Ok(ts), Ok(n)) => r == Ok::<u32, FetchError>(median_time(ts.push(n))),
        },
{
    let (top, _) = coin_time_sources(current_height);
    let batch = match parse_block_batch(batch_text, top, BATCH_LEN as u32) {
        Ok(ts) => ts,
        Err(e) => return Err(e),
    };
    let newest = match parse_block_timestamp(newest_text) {
        Ok(t) => t,
        Err(e) => return Err(e),
    };
    proof {
        let es = json_u64_pairs(batch_text@, BLOCK_HEIGHT_FIELD@, TIMESTAMP_FIELD@).unwrap();
        assert(batch_result(top, BATCH_LEN as nat, es) == Ok::<Seq<u32>, FetchError>(batch@));
        assert(es.len() == BATCH_LEN);
    }
    Ok(median_time_past(&batch, newest))
}

} // verus!
