use borsh::BorshSerialize;
use lending_core::{
    decode_aggregator, published_price, read_price, Aggregator, Config, ForeignRecord,
    LendingError, Pubkey, Submission,
};

fn key(tag: u8) -> Pubkey {
    let mut bytes = [0u8; 32];
    bytes[0] = tag;
    bytes[31] = tag.wrapping_add(100);
    Pubkey::new(bytes)
}

fn sample(oracles: Vec<Pubkey>, answer: Option<u128>) -> Aggregator {
    let mut submissions = [Submission(0, 0); 8];
    for (k, submission) in submissions.iter_mut().enumerate() {
        *submission = Submission(-(k as i64) * 1_000_003, (k as u128 + 1) << (k * 15));
    }
    Aggregator {
        is_initialize: true,
        version: 0x0a0b_0c0d,
        config: Config { oracles, min_answer_threshold: 3, staleness_threshold: 200, decimals: 8 },
        updated_at: 1_650_000_000,
        owner: key(9),
        submissions,
        answer,
    }
}

/// The bytes of `aggregator`, each field written by borsh in the order of the record.
fn encoded(aggregator: &Aggregator) -> Vec<u8> {
    let mut out = Vec::new();
    aggregator.is_initialize.serialize(&mut out).unwrap();
    aggregator.version.serialize(&mut out).unwrap();
    let oracles: Vec<[u8; 32]> = aggregator.config.oracles.iter().map(|k| k.to_bytes()).collect();
    oracles.serialize(&mut out).unwrap();
    aggregator.config.min_answer_threshold.serialize(&mut out).unwrap();
    aggregator.config.staleness_threshold.serialize(&mut out).unwrap();
    aggregator.config.decimals.serialize(&mut out).unwrap();
    aggregator.updated_at.serialize(&mut out).unwrap();
    aggregator.owner.to_bytes().serialize(&mut out).unwrap();
    for submission in aggregator.submissions.iter() {
        submission.0.serialize(&mut out).unwrap();
        submission.1.serialize(&mut out).unwrap();
    }
    aggregator.answer.serialize(&mut out).unwrap();
    out
}

fn feed(owner: Pubkey, mut data: Vec<u8>, len: usize) -> ForeignRecord {
    data.resize(len, 0);
    ForeignRecord { key: key(50), owner, data }
}

#[test]
fn decodes_what_borsh_wrote() {
    let aggregator = sample(vec![key(1), key(2), key(3)], Some(123_456_789_000));
    let bytes = encoded(&aggregator);
    assert_eq!(bytes.len(), 245 + 3 * 32 + 16);
    assert_eq!(decode_aggregator(&bytes), Some(aggregator));
}

#[test]
fn decodes_a_record_without_oracles_or_answer() {
    let aggregator = sample(vec![], None);
    let bytes = encoded(&aggregator);
    assert_eq!(bytes.len(), 245);
    assert_eq!(decode_aggregator(&bytes), Some(aggregator));
}

#[test]
fn decodes_the_default_record_from_zeros() {
    assert_eq!(decode_aggregator(&[0u8; 245]), Some(Aggregator::default()));
    assert_eq!(decode_aggregator(&[0u8; 4096]), Some(Aggregator::default()));
}

#[test]
fn bytes_after_the_record_are_not_read() {
    let aggregator = sample(vec![key(4)], Some(u128::MAX));
    let mut bytes = encoded(&aggregator);
    bytes.extend_from_slice(&[0xabu8; 100]);
    assert_eq!(decode_aggregator(&bytes), Some(aggregator));
}

#[test]
fn truncated_record_does_not_decode() {
    let bytes = encoded(&sample(vec![key(1), key(2)], Some(5)));
    for len in 0..bytes.len() {
        assert_eq!(decode_aggregator(&bytes[..len]), None, "length {len}");
    }
    assert!(decode_aggregator(&bytes).is_some());
}

#[test]
fn record_without_answer_needs_no_room_for_one() {
    let bytes = encoded(&sample(vec![key(1)], None));
    assert!(decode_aggregator(&bytes).is_some());
    assert_eq!(decode_aggregator(&bytes[..bytes.len() - 1]), None);
}

#[test]
fn flag_and_tag_must_be_zero_or_one() {
    let good = encoded(&sample(vec![key(1)], Some(5)));
    let mut bad_flag = good.clone();
    bad_flag[0] = 2;
    assert_eq!(decode_aggregator(&bad_flag), None);
    let mut bad_tag = good.clone();
    let tag_at = 9 + 32 + 235;
    assert_eq!(bad_tag[tag_at], 1);
    bad_tag[tag_at] = 2;
    assert_eq!(decode_aggregator(&bad_tag), None);
    let mut no_answer = good.clone();
    no_answer[tag_at] = 0;
    assert_eq!(decode_aggregator(&no_answer).unwrap().answer, None);
}

#[test]
fn oracle_count_beyond_the_bytes_does_not_decode() {
    let mut bytes = encoded(&sample(vec![], None));
    bytes.resize(4096, 0);
    bytes[5..9].copy_from_slice(&u32::MAX.to_le_bytes());
    assert_eq!(decode_aggregator(&bytes), None);
    // 120 oracles and no answer fill 245 + 3840 = 4085 bytes; 121 do not fit.
    bytes[5..9].copy_from_slice(&120u32.to_le_bytes());
    assert_eq!(decode_aggregator(&bytes).unwrap().config.oracles.len(), 120);
    bytes[5..9].copy_from_slice(&121u32.to_le_bytes());
    assert_eq!(decode_aggregator(&bytes), None);
}

#[test]
fn published_price_is_answer_and_decimals() {
    assert_eq!(published_price(&sample(vec![], Some(42))), Ok((42, 8)));
    assert_eq!(published_price(&sample(vec![], Some(0))), Ok((0, 8)));
    assert_eq!(published_price(&sample(vec![], None)), Err(LendingError::InvalidOracleConfig));
}

#[test]
fn reads_the_price_of_a_trusted_feed() {
    let record = feed(key(7), encoded(&sample(vec![key(1), key(2)], Some(31_415))), 4096);
    assert_eq!(read_price(&record, &key(7)), Ok((31_415, 8)));
    let longer = feed(key(7), encoded(&sample(vec![], Some(2))), 5000);
    assert_eq!(read_price(&longer, &key(7)), Ok((2, 8)));
}

#[test]
fn feed_of_another_issuer_is_not_trusted() {
    let record = feed(key(7), encoded(&sample(vec![], Some(31_415))), 4096);
    assert_eq!(read_price(&record, &key(8)), Err(LendingError::InvalidOracleConfig));
}

#[test]
fn feed_shorter_than_the_prefix_is_turned_down() {
    let bytes = encoded(&sample(vec![], Some(31_415)));
    let len = bytes.len();
    assert_eq!(
        read_price(&feed(key(7), bytes.clone(), len), &key(7)),
        Err(LendingError::InvalidOracleConfig)
    );
    assert_eq!(
        read_price(&feed(key(7), bytes, 4095), &key(7)),
        Err(LendingError::InvalidOracleConfig)
    );
}

#[test]
fn feed_without_answer_is_turned_down() {
    let record = feed(key(7), encoded(&sample(vec![key(1)], None)), 4096);
    assert_eq!(read_price(&record, &key(7)), Err(LendingError::InvalidOracleConfig));
}

#[test]
fn feed_that_does_not_decode_is_turned_down() {
    let mut bytes = encoded(&sample(vec![], Some(1)));
    bytes[0] = 7;
    assert_eq!(read_price(&feed(key(7), bytes, 4096), &key(7)), Err(LendingError::InvalidOracleConfig));
}

#[test]
fn only_the_prefix_of_a_feed_is_read() {
    // 120 oracles put the answer's tag at byte 4084 and its value at 4085..4101: past the
    // prefix, so the record does not decode although the feed holds all of it.
    let oracles: Vec<Pubkey> = (0..120).map(|i| key(i as u8)).collect();
    let bytes = encoded(&sample(oracles, Some(1)));
    assert_eq!(bytes.len(), 4101);
    assert!(decode_aggregator(&bytes).is_some());
    assert_eq!(read_price(&feed(key(7), bytes, 4200), &key(7)), Err(LendingError::InvalidOracleConfig));
}
