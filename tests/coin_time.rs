use utxo_fetcher::chain::{check_batch, parse_block_batch, parse_block_hash, parse_block_timestamp, parse_tx_height};
use utxo_fetcher::coin_time::{coin_time_from_responses, coin_time_sources};
use utxo_fetcher::error::FetchError;
use utxo_fetcher::median::{median_of_window, median_time_past, sort_times};

/// Timestamps of heights 156107..=156119: height 156113 is about two hours
/// ahead of its neighbours.
fn chain_156107() -> Vec<(u32, u32)> {
    vec![
        (156107, 1323064500),
        (156108, 1323064700),
        (156109, 1323065000),
        (156110, 1323065300),
        (156111, 1323065600),
        (156112, 1323065825),
        (156113, 1323073000),
        (156114, 1323065878),
        (156115, 1323066065),
        (156116, 1323066300),
        (156117, 1323066500),
        (156118, 1323066700),
        (156119, 1323066900),
    ]
}

fn timestamp_at(chain: &[(u32, u32)], height: u32) -> u32 {
    chain.iter().find(|(h, _)| *h == height).unwrap().1
}

fn batch_json(chain: &[(u32, u32)], top: u32, count: u32) -> String {
    let items: Vec<String> = (0..count)
        .map(|i| {
            let h = top - i;
            format!("{{\"id\":\"x\",\"height\":{},\"timestamp\":{}}}", h, timestamp_at(chain, h))
        })
        .collect();
    format!("[{}]", items.join(","))
}

fn block_json(chain: &[(u32, u32)], height: u32) -> String {
    format!("{{\"height\":{},\"timestamp\":{}}}", height, timestamp_at(chain, height))
}

fn coin_time_at(chain: &[(u32, u32)], height: u32) -> Result<u32, FetchError> {
    let (top, newest) = coin_time_sources(height);
    coin_time_from_responses(height, &batch_json(chain, top, 10), &block_json(chain, newest))
}

#[test]
fn median_skips_the_outlier_block() {
    let chain = chain_156107();
    assert_eq!(coin_time_at(&chain, 156_119), Ok(1_323_065_878));
}

#[test]
fn median_moves_with_the_window() {
    let chain = chain_156107();
    assert_eq!(coin_time_at(&chain, 156_118), Ok(1_323_065_825));
    assert_eq!(coin_time_at(&chain, 156_120), Ok(1_323_066_065));
}

#[test]
fn ascending_window_takes_the_middle_block() {
    // heights 866328..=866338 with ascending timestamps; 866333 is the middle one
    let chain: Vec<(u32, u32)> = (0..11u32)
        .map(|i| (866_328 + i, 1_729_331_091 - 5 * 600 + i * 600))
        .collect();
    assert_eq!(timestamp_at(&chain, 866_333), 1_729_331_091);
    assert_eq!(coin_time_at(&chain, 866_339), Ok(1_729_331_091));
}

#[test]
fn median_ignores_fetch_order() {
    let a = vec![9, 3, 7, 1, 5, 11, 2, 8, 4, 10, 6];
    let mut b = a.clone();
    b.reverse();
    assert_eq!(median_of_window(&a), 6);
    assert_eq!(median_of_window(&b), 6);
    assert_eq!(median_time_past(&vec![9, 3, 7, 1, 5, 11, 2, 8, 4, 10], 6), 6);
}

#[test]
fn median_with_duplicates_is_position_five() {
    let w = vec![5, 5, 5, 1, 1, 1, 1, 1, 9, 9, 9];
    assert_eq!(median_of_window(&w), 5);
    let w = vec![5, 5, 5, 1, 1, 1, 1, 1, 1, 9, 9];
    assert_eq!(median_of_window(&w), 1);
    let w = vec![7, 7, 7, 7, 7, 7, 7, 7, 7, 7, 7];
    assert_eq!(median_of_window(&w), 7);
}

#[test]
fn sort_orders_ascending() {
    assert_eq!(sort_times(&vec![3, 1, 2, 3, 0]), vec![0, 1, 2, 3, 3]);
    assert_eq!(sort_times(&vec![]), Vec::<u32>::new());
}

#[test]
fn sources_of_a_coin_time() {
    assert_eq!(coin_time_sources(866_339), (866_337, 866_338));
    assert_eq!(coin_time_sources(11), (9, 10));
}

#[test]
fn batch_with_a_gap_is_inconsistent() {
    let entries = vec![(Some(100), Some(7)), (Some(98), Some(8))];
    assert_eq!(
        check_batch(100, 2, &entries),
        Err(FetchError::Consistency { top_height: 100, count: 2 })
    );
}

#[test]
fn short_batch_is_inconsistent() {
    let entries = vec![(Some(100), Some(7)), (Some(99), Some(8))];
    assert_eq!(
        check_batch(100, 3, &entries),
        Err(FetchError::Consistency { top_height: 100, count: 3 })
    );
    assert_eq!(check_batch(100, 2, &entries), Ok(vec![7, 8]));
}

#[test]
fn batch_below_height_zero_is_inconsistent() {
    let entries = vec![(Some(1), Some(7)), (Some(0), Some(8)), (Some(0), Some(9))];
    assert_eq!(
        check_batch(1, 3, &entries),
        Err(FetchError::Consistency { top_height: 1, count: 3 })
    );
}

#[test]
fn batch_with_missing_timestamp_is_a_parse_error() {
    let entries = vec![(Some(100), None), (Some(5), Some(8))];
    assert_eq!(check_batch(100, 2, &entries), Err(FetchError::Parse));
    let entries = vec![(Some(100), Some(u32::MAX as u64 + 1))];
    assert_eq!(check_batch(100, 1, &entries), Err(FetchError::Parse));
}

#[test]
fn batch_text_is_parsed() {
    let text = "[{\"height\":20,\"timestamp\":1000},{\"height\":19,\"timestamp\":900}]";
    assert_eq!(parse_block_batch(text, 20, 2), Ok(vec![1000, 900]));
    assert_eq!(parse_block_batch("not json", 20, 2), Err(FetchError::Parse));
    assert_eq!(parse_block_batch("{\"height\":20}", 20, 1), Err(FetchError::Parse));
}

#[test]
fn coin_time_fails_on_either_answer() {
    let chain = chain_156107();
    let (top, newest) = coin_time_sources(156_119);
    let batch = batch_json(&chain, top, 10);
    let block = block_json(&chain, newest);
    assert_eq!(coin_time_from_responses(156_119, &batch, "{}"), Err(FetchError::Parse));
    assert_eq!(
        coin_time_from_responses(156_119, &batch_json(&chain, top, 9), &block),
        Err(FetchError::Consistency { top_height: top, count: 10 })
    );
    assert_eq!(coin_time_from_responses(156_119, "[", "{}"), Err(FetchError::Parse));
}

#[test]
fn transaction_height_is_read() {
    assert_eq!(parse_tx_height("{\"hash\":\"ab\",\"block_height\":866338}"), Ok(866_338));
    assert_eq!(parse_tx_height("{\"hash\":\"ab\"}"), Err(FetchError::Parse));
    assert_eq!(parse_tx_height("{\"block_height\":-1}"), Err(FetchError::Parse));
    assert_eq!(parse_tx_height("{\"block_height\":4294967296}"), Err(FetchError::Parse));
    assert_eq!(parse_tx_height("<html>"), Err(FetchError::Parse));
}

#[test]
fn block_timestamp_is_read() {
    assert_eq!(parse_block_timestamp("{\"timestamp\":1729331091}"), Ok(1_729_331_091));
    assert_eq!(parse_block_timestamp("{\"time\":1}"), Err(FetchError::Parse));
}

#[test]
fn block_hash_is_trimmed() {
    assert_eq!(parse_block_hash("  00000000abc\n").as_str(), "00000000abc");
    assert_eq!(parse_block_hash("").as_str(), "");
}
