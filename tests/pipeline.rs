use utxo_fetcher::cache::CoinTimeCache;
use utxo_fetcher::chain::spent_output;
use utxo_fetcher::error::FetchError;
use utxo_fetcher::pacing::PacingPolicy;
use utxo_fetcher::pipeline::{InputProgress, Request, UtxoPipeline};
use utxo_fetcher::text::{color_last_3_digits, decimal_string, outpoint_string};
use utxo_fetcher::utxo::{OutPointRef, UtxoData};

/// The coinbase transaction of the first block.
const GENESIS_TX: &str = "01000000010000000000000000000000000000000000000000000000000000000000000000ffffffff4d04ffff001d0104455468652054696d65732030332f4a616e2f32303039204368616e63656c6c6f72206f6e206272696e6b206f66207365636f6e64206261696c6f757420666f722062616e6b73ffffffff0100f2052a01000000434104678afdb0fe5548271967f1a67130b7105cd6a828e03909a67962e0ea1f61deb649f6bc3f4cef38c4f35504e51ec112de5c384df7ba0b8d578a4c702b6bf11d5fac00000000";

fn outpoint(txid: &str, vout: u32) -> OutPointRef {
    OutPointRef { txid: txid.to_string(), vout }
}

/// Drives a run with fixed answers; returns the records and how many coin
/// times were computed, or the error that ended the run.
fn drive(
    block: Vec<Vec<OutPointRef>>,
    height_of: &dyn Fn(&str) -> u32,
    coin_time_of: &dyn Fn(u32) -> u32,
) -> Result<(Vec<UtxoData>, u32, Vec<bool>), FetchError> {
    let mut p = UtxoPipeline::new(block);
    let mut computed = 0;
    let mut hits = Vec::new();
    loop {
        match p.next_request() {
            Request::Height { txid } => p.accept_height(height_of(&txid))?,
            Request::TransactionHex { .. } => match p.accept_transaction(GENESIS_TX)? {
                InputProgress::Completed { was_hit } => hits.push(was_hit),
                InputProgress::NeedsCoinTime => {}
            },
            Request::CoinTime { height } => {
                computed += 1;
                p.accept_coin_time(coin_time_of(height));
                hits.push(false);
            }
            Request::Done => break,
        }
    }
    assert_eq!(p.processed(), p.total());
    Ok((p.into_records(), computed, hits))
}

fn sample_block() -> Vec<Vec<OutPointRef>> {
    vec![
        vec![outpoint("coinbase", 0)],
        vec![outpoint("aa", 0), outpoint("bb", 0)],
        vec![outpoint("cc", 0), outpoint("aa", 0)],
    ]
}

fn sample_height(txid: &str) -> u32 {
    match txid {
        "aa" => 100,
        "bb" => 100,
        _ => 200,
    }
}

#[test]
fn one_coin_time_per_distinct_height() {
    let (records, computed, hits) =
        drive(sample_block(), &sample_height, &|h| h * 1000).unwrap();
    assert_eq!(records.len(), 4);
    assert_eq!(computed, 2);
    assert_eq!(hits, vec![false, true, false, true]);
    let heights: Vec<u32> = records.iter().map(|r| r.creation_height).collect();
    assert_eq!(heights, vec![100, 100, 200, 100]);
    for r in &records {
        assert_eq!(r.creation_time, r.creation_height * 1000);
        assert!(r.is_coinbase);
        assert_eq!(r.txout.amount, 5_000_000_000);
        assert_eq!(r.txout.script.len(), 67);
        assert_eq!(r.txout.script[66], 0xac);
    }
}

#[test]
fn runs_are_repeatable() {
    let first = drive(sample_block(), &sample_height, &|h| h + 7).unwrap();
    let second = drive(sample_block(), &sample_height, &|h| h + 7).unwrap();
    assert_eq!(first, second);
}

#[test]
fn low_height_stops_the_run_before_any_coin_time() {
    let block = vec![vec![], vec![outpoint("aa", 0), outpoint("low", 3)]];
    let height = |txid: &str| if txid == "low" { 10 } else { 11 };
    let computed = std::cell::Cell::new(0);
    let r = drive(block, &height, &|h| {
        computed.set(computed.get() + 1);
        h
    });
    assert_eq!(r, Err(FetchError::NotEnoughHeight("low:3".to_string())));
    assert_eq!(computed.get(), 1);
}

#[test]
fn height_guard_on_first_input() {
    let mut p = UtxoPipeline::new(vec![vec![], vec![outpoint("ab", 12)]]);
    assert_eq!(p.accept_height(0), Err(FetchError::NotEnoughHeight("ab:12".to_string())));
    assert_eq!(p.next_request(), Request::Height { txid: "ab".to_string() });
    assert_eq!(p.accept_height(11), Ok(()));
    assert_eq!(p.next_request(), Request::TransactionHex { txid: "ab".to_string() });
}

#[test]
fn bad_output_index_and_bad_hex() {
    let mut p = UtxoPipeline::new(vec![vec![], vec![outpoint("ab", 1)]]);
    p.accept_height(500).unwrap();
    assert_eq!(p.accept_transaction(GENESIS_TX), Err(FetchError::Index("ab:1".to_string())));
    assert_eq!(p.accept_transaction("zz"), Err(FetchError::FromHex("ab:1".to_string())));
    assert_eq!(p.next_request(), Request::TransactionHex { txid: "ab".to_string() });
}

#[test]
fn block_with_only_a_coinbase_has_no_work() {
    let p = UtxoPipeline::new(vec![vec![outpoint("cb", 0)]]);
    assert_eq!(p.total(), 0);
    assert!(p.is_finished());
    assert_eq!(p.next_request(), Request::Done);
    let p = UtxoPipeline::new(vec![]);
    assert_eq!(p.next_request(), Request::Done);
}

#[test]
fn spent_output_of_genesis_coinbase() {
    let (out, coinbase) = spent_output(GENESIS_TX, "4a5e", 0).unwrap();
    assert!(coinbase);
    assert_eq!(out.amount, 5_000_000_000);
    assert_eq!(out.script[0], 0x41);
    assert_eq!(spent_output(GENESIS_TX, "4a5e", 7), Err(FetchError::Index("4a5e:7".to_string())));
    assert_eq!(spent_output("0100", "4a5e", 0), Err(FetchError::FromHex("4a5e:0".to_string())));
}

#[test]
fn cache_keeps_first_value() {
    let mut c = CoinTimeCache::new();
    assert_eq!(c.lookup(100), None);
    c.store(100, 5);
    assert_eq!(c.lookup(100), Some(5));
    c.store(100, 9);
    assert_eq!(c.lookup(100), Some(5));
    assert_eq!(c.lookup(101), None);
    assert_eq!(c.len(), 1);
}

#[test]
fn pacing_waits_out_the_interval() {
    let p = PacingPolicy::standard();
    assert_eq!(p.remaining_delay_ms(20, true), 100);
    assert_eq!(p.remaining_delay_ms(20, false), 300);
    assert_eq!(p.remaining_delay_ms(120, true), 0);
    assert_eq!(p.remaining_delay_ms(1000, false), 0);
    let q = PacingPolicy { hit_interval_ms: 0, miss_interval_ms: 50 };
    assert_eq!(q.remaining_delay_ms(0, true), 0);
    assert_eq!(q.remaining_delay_ms(49, false), 1);
}

#[test]
fn last_three_digits_are_green() {
    assert_eq!(color_last_3_digits(866_339), "866\x1b[32m339\x1b[0m");
    assert_eq!(color_last_3_digits(1_000), "1\x1b[32m000\x1b[0m");
    assert_eq!(color_last_3_digits(42), "\x1b[32m42\x1b[0m");
    assert_eq!(color_last_3_digits(0), "\x1b[32m0\x1b[0m");
    assert_eq!(color_last_3_digits(123), "\x1b[32m123\x1b[0m");
}

#[test]
fn decimal_and_labels() {
    assert_eq!(decimal_string(0), "0");
    assert_eq!(decimal_string(4_294_967_295), "4294967295");
    assert_eq!(outpoint_string("ab", 0), "ab:0");
    assert_eq!(outpoint_string("", 305), ":305");
}
