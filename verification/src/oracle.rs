//! The price feed: the layout of an aggregator record and the price read from it.
//!
//! An aggregator record is written field after field, numbers least significant byte first:
//! a flag byte, a 32-bit version, the configuration (a 32-bit count of oracles, their
//! identities, three bytes of thresholds and decimal places), a 64-bit time, the owner's
//! identity, eight submissions of a 64-bit time and a 128-bit value, and the answer: a tag
//! byte and, after tag 1, a 128-bit value. Flag and tag are 0 or 1. Bytes after the answer
//! are not read.

use vstd::prelude::*;
use crate::bytes::{le_signed, le_value, read_i64, read_pubkey, read_u128, read_u32, read_u8};
use crate::error::LendingError;
use crate::pubkey::Pubkey;
use crate::state::ForeignRecord;

verus! {

/// How many bytes of a price feed are read.
pub const PRICE_FEED_PREFIX: usize = 4096;

/// One oracle's submission: when it was made and the value.
#[derive(Clone, Copy, Debug, PartialEq, Eq, Default)]
pub struct Submission(pub i64, pub u128);

/// The configuration of an aggregator.
#[derive(Clone, Debug, PartialEq, Eq, Default)]
pub struct Config {
    /// The oracles that contribute.
    pub oracles: Vec<Pubkey>,
    /// How many submissions make an answer.
    pub min_answer_threshold: u8,
    /// After how long a submission is stale.
    pub staleness_threshold: u8,
    /// Decimal places of the answer.
    pub decimals: u8,
}

/// An aggregator record.
#[derive(Clone, Debug, PartialEq, Eq, Default)]
pub struct Aggregator {
    pub is_initialize: bool,
    pub version: u32,
    pub config: Config,
    pub updated_at: i64,
    pub owner: Pubkey,
    pub submissions: [Submission; 8],
    /// The aggregated price, where there is one.
    pub answer: Option<u128>,
}

/// The number of oracles that the record in `bytes` lists.
pub open spec fn oracle_count(bytes: Seq<u8>) -> nat {
    le_value(bytes.subrange(5, 9))
}

/// Where the three configuration bytes start: after the list of oracles.
pub open spec fn thresholds_at(bytes: Seq<u8>) -> int {
    9 + 32 * (oracle_count(bytes) as int)
}

/// Where the answer's tag stands.
pub open spec fn answer_tag_at(bytes: Seq<u8>) -> int {
    thresholds_at(bytes) + 235
}

/// Whether `bytes` start with a whole aggregator record.
pub open spec fn aggregator_decodes(bytes: Seq<u8>) -> bool {
    &&& bytes.len() >= 9
    &&& bytes[0] <= 1
    &&& answer_tag_at(bytes) < bytes.len()
    &&& bytes[answer_tag_at(bytes)] <= 1
    &&& bytes[answer_tag_at(bytes)] == 1 ==> answer_tag_at(bytes) + 17 <= bytes.len()
}

/// The answer of the record in `bytes`.
pub open spec fn answer_in(bytes: Seq<u8>) -> Option<u128> {
    let tag = answer_tag_at(bytes);
    if bytes[tag] == 1 {
        Some(le_value(bytes.subrange(tag + 1, tag + 17)) as u128)
    } else {
        None
    }
}

/// The decimal places of the answer of the record in `bytes`.
pub open spec fn decimals_in(bytes: Seq<u8>) -> u8 {
    bytes[thresholds_at(bytes) + 2]
}

impl Aggregator {
    /// Whether `self` holds, field for field, the record that `bytes` start with.
    pub open spec fn decoded_from(&self, bytes: Seq<u8>) -> bool {
        let at = thresholds_at(bytes);
        &&& self.is_initialize == (bytes[0] == 1)
        &&& self.version == le_value(bytes.subrange(1, 5))
        &&& self.config.oracles@.len() == oracle_count(bytes)
        &&& forall|i: int|
            0 <= i < oracle_count(bytes) ==> (#[trigger] self.config.oracles@[i])@
                == bytes.subrange(9 + 32 * i, 41 + 32 * i)
        &&& self.config.min_answer_threshold == bytes[at]
        &&& self.config.staleness_threshold == bytes[at + 1]
        &&& self.config.decimals == decimals_in(bytes)
        &&& self.updated_at == le_signed(bytes.subrange(at + 3, at + 11))
        &&& self.owner@ == bytes.subrange(at + 11, at + 43)
        &&& forall|k: int|
            0 <= k < 8 ==> {
                &&& (#[trigger] self.submissions@[k]).0 == le_signed(
                    bytes.subrange(at + 43 + 24 * k, at + 51 + 24 * k),
                )
                &&& self.submissions@[k].1 == le_value(
                    bytes.subrange(at + 51 + 24 * k, at + 67 + 24 * k),
                )
            }
        &&& self.answer == answer_in(bytes)
    }
}

/// The aggregator record that `bytes` start with, if they hold a whole one.
pub fn decode_aggregator(bytes: &[u8]) -> (r: Option<Aggregator>)
    ensures
        r is Some <==> aggregator_decodes(bytes@),
        r matches Some(aggregator) ==> aggregator.decoded_from(bytes@),
{
    let len = bytes.len();
    if len < 245 {
        return None;
    }
    let flag = read_u8(bytes, 0);
    if flag > 1 {
        return None;
    }
    let version = read_u32(bytes, 1);
    let count = read_u32(bytes, 5);
    if count as usize > (len - 245) / 32 {
        return None;
    }
    let count: usize = count as usize;
    let mut oracles: Vec<Pubkey> = Vec::new();
    let mut i: usize = 0;
    while i < count
        invariant
            i <= count,
            len == bytes@.len(),
            9 + 32 * count + 236 <= len,
            oracles@.len() == i,
            forall|j: int|
                0 <= j < i ==> (#[trigger] oracles@[j])@ == bytes@.subrange(
                    9 + 32 * j,
                    41 + 32 * j,
                ),
        decreases count - i,
    {
        let key = read_pubkey(bytes, 9 + 32 * i);
        oracles.push(key);
        i += 1;
    }
    let at: usize = 9 + 32 * count;
    let min_answer_threshold = read_u8(bytes, at);
    let staleness_threshold = read_u8(bytes, at + 1);
    let decimals = read_u8(bytes, at + 2);
    let updated_at = read_i64(bytes, at + 3);
    let owner = read_pubkey(bytes, at + 11);
    let mut submissions: [Submission; 8] = [Submission(0, 0); 8];
    let mut k: usize = 0;
    while k < 8
        invariant
            k <= 8,
            len == bytes@.len(),
            at + 236 <= len,
            forall|j: int|
                0 <= j < k ==> {
                    &&& (#[trigger] submissions@[j]).0 == le_signed(
                        bytes@.subrange(at + 43 + 24 * j, at + 51 + 24 * j),
                    )
                    &&& submissions@[j].1 == le_value(
                        bytes@.subrange(at + 51 + 24 * j, at + 67 + 24 * j),
                    )
                },
        decreases 8 - k,
    {
        let time = read_i64(bytes, at + 43 + 24 * k);
        let value = read_u128(bytes, at + 51 + 24 * k);
        submissions[k] = Submission(time, value);
        k += 1;
    }
    let tag = read_u8(bytes, at + 235);
    if tag > 1 {
        return None;
    }
    let answer = if tag == 1 {
        if len - (at + 236) < 16 {
            return None;
        }
        Some(read_u128(bytes, at + 236))
    } else {
        None
    };
    Some(
        Aggregator {
            is_initialize: flag == 1,
            version,
            config: Config { oracles, min_answer_threshold, staleness_threshold, decimals },
            updated_at,
            owner,
            submissions,
            answer,
        },
    )
}

/// What reading the price feed `data`, owned by `feed_owner`, gives a market that trusts
/// `issuer`: the answer and its decimal places. The feed is turned down where another
/// program owns it, where it is shorter than the prefix that is read, where that prefix
/// holds no whole record, and where the record carries no answer.
pub open spec fn price_reading(feed_owner: Pubkey, data: Seq<u8>, issuer: Pubkey) -> Result<
    (u128, u8),
    LendingError,
> {
    let prefix = data.subrange(0, PRICE_FEED_PREFIX as int);
    if feed_owner == issuer && data.len() >= PRICE_FEED_PREFIX && aggregator_decodes(prefix)
        && answer_in(prefix) is Some {
        Ok((answer_in(prefix)->Some_0, decimals_in(prefix)))
    } else {
        Err(LendingError::InvalidOracleConfig)
    }
}

/// The price and its decimal places that an aggregator record publishes, or
/// `InvalidOracleConfig` where it carries no answer.
pub fn published_price(aggregator: &Aggregator) -> (r: Result<(u128, u8), LendingError>)
    ensures
        r == match aggregator.answer {
            Some(price) => Ok::<(u128, u8), LendingError>((price, aggregator.config.decimals)),
            None => Err::<(u128, u8), LendingError>(LendingError::InvalidOracleConfig),
        },
{
    match aggregator.answer {
        Some(price) => Ok((price, aggregator.config.decimals)),
        None => Err(LendingError::InvalidOracleConfig),
    }
}

/// Reads the current price from a price feed on behalf of a market that trusts `issuer`.
pub fn read_price(feed: &ForeignRecord, issuer: &Pubkey) -> (r: Result<(u128, u8), LendingError>)
    ensures
        r == price_reading(feed.owner, feed.data@, *issuer),
{
    if !crate::pubkey::same_key(&feed.owner, issuer) {
        return Err(LendingError::InvalidOracleConfig);
    }
    if feed.data.len() < PRICE_FEED_PREFIX {
        return Err(LendingError::InvalidOracleConfig);
    }
    let prefix = vstd::slice::slice_subrange(feed.data.as_slice(), 0, PRICE_FEED_PREFIX);
    match decode_aggregator(prefix) {
        Some(aggregator) => published_price(&aggregator),
        None => Err(LendingError::InvalidOracleConfig),
    }
}

} // verus!
