use incomplete_block::{
    AccountId, BlockNumber, IncompleteBlock, U256, MAX_UTC_TIMESTAMP,
};

fn block_with_timestamp(timestamp: u64) -> IncompleteBlock {
    IncompleteBlock::new(
        BlockNumber(1),
        AccountId(2),
        vec![],
        (0, 0),
        10,
        U256::from_u64(0),
        U256::from_u64(0),
        timestamp,
    )
}

#[test]
fn timestamp_utc_round_trips_through_calendar_time() {
    let block = block_with_timestamp(1_431_648_000);
    assert_eq!(block.timestamp_utc().unix_seconds(), 1_431_648_000);
    assert_eq!(block.timestamp_utc_roundtrip(), 1_431_648_000);
}

#[test]
fn timestamp_utc_round_trips_at_the_edges() {
    let zero = block_with_timestamp(0);
    assert_eq!(zero.timestamp_utc_roundtrip(), 0);
    let last = block_with_timestamp(MAX_UTC_TIMESTAMP);
    assert_eq!(last.timestamp_utc_roundtrip(), MAX_UTC_TIMESTAMP as i64);
}

#[test]
fn timestamp_utc_matches_chrono() {
    let block = block_with_timestamp(1_431_648_000);
    let expected = chrono::TimeZone::timestamp_opt(&chrono::Utc, 1_431_648_000, 0).unwrap();
    assert_eq!(block.timestamp_utc().unix_seconds(), expected.timestamp());
}

#[test]
fn elapsed_seconds_at_now_is_zero() {
    let block = block_with_timestamp(1_000);
    assert_eq!(block.elapsed_seconds_at(1_000), 0);
}

#[test]
fn elapsed_seconds_in_the_past_is_the_difference() {
    let block = block_with_timestamp(1_000);
    assert_eq!(block.elapsed_seconds_at(1_250), 250);
}

#[test]
fn elapsed_seconds_in_the_future_clamps_to_zero() {
    let block = block_with_timestamp(1_000);
    assert_eq!(block.elapsed_seconds_at(999), 0);
    assert_eq!(block.elapsed_seconds_at(0), 0);
    assert_eq!(block.elapsed_seconds_at(-5), 0);
}

#[test]
fn elapsed_against_the_real_clock() {
    let now = chrono::Utc::now().timestamp();
    let past = block_with_timestamp((now - 100) as u64);
    let measured = past.elapsed().as_secs();
    assert!((100..200).contains(&measured), "measured {measured} seconds");

    let future = block_with_timestamp((now + 100_000) as u64);
    assert_eq!(future.elapsed(), std::time::Duration::from_secs(0));
}
