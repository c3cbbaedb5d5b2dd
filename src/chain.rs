//! Reading the payloads of the block-data services.
use vstd::prelude::*;
use crate::error::FetchError;
use crate::text::{outpoint_label, outpoint_string};
use crate::utxo::{DecodedTx, TxOutput};

verus! {

/// The JSON field that holds a transaction's confirming height.
pub const HEIGHT_FIELD: &'static str = "block_height";

/// The JSON field that holds a block's height.
pub const BLOCK_HEIGHT_FIELD: &'static str = "height";

/// The JSON field that holds a block's timestamp.
pub const TIMESTAMP_FIELD: &'static str = "timestamp";

/// The unsigned integer held by field `key` of the JSON object `text`, if
/// `text` is such an object and the field holds such an integer.
pub uninterp spec fn json_u64_field(text: Seq<char>, key: Seq<char>) -> Option<u64>;

/// If `text` is a JSON array, for each of its elements in order the unsigned
/// integers held by its fields `first` and `second`.
pub uninterp spec fn json_u64_pairs(text: Seq<char>, first: Seq<char>, second: Seq<char>) -> Option<
    Seq<(Option<u64>, Option<u64>)>,
>;

/// `s` without leading and trailing whitespace.
pub uninterp spec fn trimmed(s: Seq<char>) -> Seq<char>;

/// The outputs (amount, script) and coinbase flag of the transaction
/// serialized in hex by `hex`, if it is one.
pub uninterp spec fn decoded_tx(hex: Seq<char>) -> Option<(Seq<(u64, Seq<u8>)>, bool)>;

#[verifier::external_type_specification]
#[verifier::external_body]
pub struct ExFromHexError(bitcoin::consensus::encode::FromHexError);

/// Relies on serde_json::from_str (into a serde_json::Value), Value::get and
/// Value::as_u64: reads one unsigned integer field of a JSON object.
#[verifier::external_body]
fn json_field(text: &str, key: &str) -> (r: Option<u64>)
    ensures
        r == json_u64_field(text@, key@),
{
    let value: serde_json::Value = serde_json::from_str(text).ok()?;
    value.get(key)?.as_u64()
}

/// Relies on serde_json::from_str (into a Vec of serde_json::Value),
/// Value::get and Value::as_u64: reads two unsigned integer fields of each
/// object of a JSON array.
#[verifier::external_body]
fn json_pairs(text: &str, first: &str, second: &str) -> (r: Option<Vec<(Option<u64>, Option<u64>)>>)
    ensures
        match r {
            Some(v) => json_u64_pairs(text@, first@, second@) == Some(v@),
            None => json_u64_pairs(text@, first@, second@) is None,
        },
{
    let items: Vec<serde_json::Value> = serde_json::from_str(text).ok()?;
    let mut out = Vec::new();
    for item in items.iter() {
        let a = item.get(first).and_then(serde_json::Value::as_u64);
        let b = item.get(second).and_then(serde_json::Value::as_u64);
        out.push((a, b));
    }
    Some(out)
}

/// Relies on str::trim: removes leading and trailing whitespace.
#[verifier::external_body]
fn trim(s: &str) -> (r: &str)
    ensures
        r@ == trimmed(s@),
{
    s.trim()
}

/// Relies on bitcoin::consensus::encode::deserialize_hex (into a
/// bitcoin::Transaction) and Transaction::is_coinbase; each output is taken
/// as its amount in satoshis and its script's bytes.
#[verifier::external_body]
fn decode_hex_transaction(hex: &str) -> (r: Result<DecodedTx, bitcoin::consensus::encode::FromHexError>)
    ensures
        match r {
            Ok(t) => decoded_tx(hex@) == Some(t@),
            Err(_) => decoded_tx(hex@) is None,
        },
{
    let tx: bitcoin::Transaction = bitcoin::consensus::encode::deserialize_hex(hex)?;
    let mut outputs = Vec::new();
    for o in tx.output.iter() {
        outputs.push(TxOutput { amount: o.value.to_sat(), script: o.script_pubkey.to_bytes() });
    }
    Ok(DecodedTx { outputs, is_coinbase: tx.is_coinbase() })
}

/// An integer field read as a `u32`: absent or too large is a parse error.
pub open spec fn u32_field(v: Option<u64>) -> Result<u32, FetchError> {
    match v {
        Some(n) => if n <= u32::MAX {
            Ok(n as u32)
        } else {
            Err(FetchError::Parse)
        },
        None => Err(FetchError::Parse),
    }
}

fn to_u32_field(v: Option<u64>) -> (r: Result<u32, FetchError>)
    ensures
        r == u32_field(v),
{
    match v {
        Some(n) => if n <= u32::MAX as u64 {
            Ok(n as u32)
        } else {
            Err(FetchError::Parse)
        },
        None => Err(FetchError::Parse),
    }
}

/// Reads the confirming height from a transaction's JSON description.
pub fn parse_tx_height(text: &str) -> (r: Result<u32, FetchError>)
    ensures
        r == u32_field(json_u64_field(text@, HEIGHT_FIELD@)),
{
    to_u32_field(json_field(text, HEIGHT_FIELD))
}

/// Reads the timestamp from a block's JSON description.
pub fn parse_block_timestamp(text: &str) -> (r: Result<u32, FetchError>)
    ensures
        r == u32_field(json_u64_field(text@, TIMESTAMP_FIELD@)),
{
    to_u32_field(json_field(text, TIMESTAMP_FIELD))
}

/// Reads a block hash from a plain-text answer.
pub fn parse_block_hash(text: &str) -> (r: String)
    ensures
        r@ == trimmed(text@),
{
    String::from_str(trim(text))
}

/// A batch entry lacks its height or timestamp, or holds one that does not
/// fit in 32 bits.
pub open spec fn malformed_entry(e: (Option<u64>, Option<u64>)) -> bool {
    u32_field(e.0) is Err || u32_field(e.1) is Err
}

/// The entries describe exactly `count` blocks at heights `top_height`,
/// `top_height - 1`, and so on down, in that order.
pub open spec fn contiguous_batch(top_height: u32, count: nat, es: Seq<(Option<u64>, Option<u64>)>) -> bool {
    &&& es.len() == count
    &&& forall|i: int| 0 <= i < es.len() ==> #[trigger] es[i].0 == Some((top_height - i) as u64)
            && top_height - i >= 0
}

/// The timestamps of a batch, in its order.
pub open spec fn batch_timestamps(es: Seq<(Option<u64>, Option<u64>)>) -> Seq<u32> {
    es.map_values(|e: (Option<u64>, Option<u64>)| e.1.unwrap() as u32)
}

/// What a batch of block entries yields: a parse error if an entry is
/// malformed, else a consistency error unless the batch is contiguous, else
/// its timestamps.
pub open spec fn batch_result(top_height: u32, count: nat, es: Seq<(Option<u64>, Option<u64>)>) -> Result<Seq<u32>, FetchError> {
    if exists|i: int| 0 <= i < es.len() && malformed_entry(#[trigger] es[i]) {
        Err(FetchError::Parse)
    } else if !contiguous_batch(top_height, count, es) {
        Err(FetchError::Consistency { top_height, count: count as u32 })
    } else {
        Ok(batch_timestamps(es))
    }
}

/// Checks a batch of (height, timestamp) entries against the heights it must
/// describe and returns its timestamps.
pub fn check_batch(top_height: u32, count: u32, entries: &Vec<(Option<u64>, Option<u64>)>) -> (r: Result<Vec<u32>, FetchError>)
    ensures
        match r {
            Ok(ts) => batch_result(top_height, count as nat, entries@) == Ok::<Seq<u32>, FetchError>(ts@),
            Err(e) => batch_result(top_height, count as nat, entries@) == Err::<Seq<u32>, FetchError>(e),
        },
{
    let mut i: usize = 0;
    while i < entries.len()
        invariant
            i <= entries@.len(),
            forall|k: int| 0 <= k < i ==> !malformed_entry(#[trigger] entries@[k]),
        decreases entries@.len() - i,
    {
        let e = entries[i];
        if to_u32_field(e.0).is_err() || to_u32_field(e.1).is_err() {
            assert(malformed_entry(entries@[i as int]));
            return Err(FetchError::Parse);
        }
        i = i + 1;
    }
    if entries.len() != count as usize {
        return Err(FetchError::Consistency { top_height, count });
    }
    let mut out: Vec<u32> = Vec::new();
    let mut j: usize = 0;
    while j < entries.len()
        invariant
            j <= entries@.len(),
            entries@.len() == count,
            forall|k: int| 0 <= k < entries@.len() ==> !malformed_entry(#[trigger] entries@[k]),
            forall|k: int| 0 <= k < j ==> #[trigger] entries@[k].0 == Some((top_height - k) as u64)
                && top_height - k >= 0,
            out@ == batch_timestamps(entries@.subrange(0, j as int)),
        decreases entries@.len() - j,
    {
        let e = entries[j];
        assert(!malformed_entry(entries@[j as int]));
        let h = e.0.unwrap();
        if j as u64 > top_height as u64 || h != top_height as u64 - j as u64 {
            assert(!contiguous_batch(top_height, count as nat, entries@));
            return Err(FetchError::Consistency { top_height, count });
        }
        out.push(e.1.unwrap() as u32);
        assert(entries@.subrange(0, j + 1) == entries@.subrange(0, j as int).push(e));
        j = j + 1;
    }
    assert(entries@.subrange(0, j as int) == entries@);
    Ok(out)
}

/// Reads a batch of block descriptions (a JSON array of objects with a height
/// and a timestamp) that must describe `count` contiguous blocks descending
/// from `top_height`, and returns their timestamps in that order.
pub fn parse_block_batch(text: &str, top_height: u32, count: u32) -> (r: Result<Vec<u32>, FetchError>)
    ensures
        match json_u64_pairs(text@, BLOCK_HEIGHT_FIELD@, TIMESTAMP_FIELD@) {
            None => r == Err::<Vec<u32>, FetchError>(FetchError::Parse),
            Some(es) => match r {
                Ok(ts) => batch_result(top_height, count as nat, es) == Ok::<Seq<u32>, FetchError>(ts@),
                Err(e) => batch_result(top_height, count as nat, es) == Err::<Seq<u32>, FetchError>(e),
            },
        },
{
    match json_pairs(text, BLOCK_HEIGHT_FIELD, TIMESTAMP_FIELD) {
        None => Err(FetchError::Parse),
        Some(entries) => check_batch(top_height, count, &entries),
    }
}

/// Decodes the raw transaction `hex` that input `txid:vout` spends from, and
/// returns output `vout` of it with the transaction's coinbase flag. An
/// undecodable transaction, or an index past its outputs, is an error that
/// names the input.
pub fn spent_output(hex: &str, txid: &str, vout: u32) -> (r: Result<(TxOutput, bool), FetchError>)
    ensures
        match decoded_tx(hex@) {
            None => r matches Err(FetchError::FromHex(l)) && l@ == outpoint_label(txid@, vout),
            Some(t) => if vout < t.0.len() {
                r matches Ok((o, c)) && o@ == t.0[vout as int] && c == t.1
            } else {
                r matches Err(FetchError::Index(l)) && l@ == outpoint_label(txid@, vout)
            },
        },
{
    match decode_hex_transaction(hex) {
        Err(_) => Err(FetchError::FromHex(outpoint_string(txid, vout))),
        Ok(tx) => {
            let DecodedTx { mut outputs, is_coinbase } = tx;
            if (vout as usize) < outputs.len() {
                let o = outputs.remove(vout as usize);
                Ok((o, is_coinbase))
            } else {
                Err(FetchError::Index(outpoint_string(txid, vout)))
            }
        },
    }
}

} // verus!
