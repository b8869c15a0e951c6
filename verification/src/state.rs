//! The records that the market keeps: markets, reserves and positions.

use vstd::prelude::*;
use crate::pubkey::Pubkey;

verus! {

/// Bytes that a stored market takes.
pub const LENDING_MARKET_SIZE: usize = 32 + 32;

/// Bytes that a stored reserve takes.
pub const RESERVE_SIZE: usize = 1 + 32 + 32 + 32 + 32 + 32 + 32 + 8 + 8 + 8 + 8 + 16 + 1 + 16 + 1
    + 20;

/// Bytes that a stored position takes.
pub const OBLIGATION_SIZE: usize = 32 + 32 + 8 + 8 + 1;

/// A lending market: who administers it and whose price feeds it trusts.
#[derive(Clone, Copy, Debug, PartialEq, Eq)]
pub struct LendingMarket {
    /// The principal who administers the market and its reserves.
    pub owner: Pubkey,
    /// The issuer whose price feeds the market trusts.
    pub oracle_program_id: Pubkey,
}

/// The bookkeeping of one pair of a collateral asset and a liquidity asset in a market.
#[derive(Clone, Copy, Debug, PartialEq, Eq)]
pub struct Reserve {
    /// Activation flag. No request is turned down on its account.
    pub is_live: bool,
    /// The market that the reserve belongs to.
    pub lending_market: Pubkey,
    /// The asset that is lent.
    pub liquidity_mint: Pubkey,
    /// The record that holds the reserve's liquidity.
    pub liquidity_account: Pubkey,
    /// The price feed of the liquidity asset.
    pub liquidity_oracle: Pubkey,
    /// The asset that is pledged.
    pub collateral_mint: Pubkey,
    /// The record that holds the pledged collateral.
    pub collateral_account: Pubkey,
    /// Liquidity lent out and not yet repaid, over all positions.
    pub total_liquidity: u64,
    /// Collateral pledged and not yet withdrawn, over all positions.
    pub total_collateral: u64,
    /// Numerator of the ceiling on debt value over collateral value.
    pub max_borrow_rate_numerator: u64,
    /// Denominator of that ceiling.
    pub max_borrow_rate_denominator: u64,
    /// Last price of the liquidity asset.
    pub liquidity_market_price: u128,
    /// Decimal places of that price.
    pub liquidity_market_price_decimals: u8,
    /// Last price of the collateral asset.
    pub collateral_market_price: u128,
    /// Decimal places of that price.
    pub collateral_market_price_decimals: u8,
    /// Salt of the reserve's derived authority.
    pub bump: u8,
}

/// One participant's position against one reserve.
#[derive(Clone, Copy, Debug, PartialEq, Eq)]
pub struct Obligation {
    /// The reserve that the position is held against.
    pub reserve: Pubkey,
    /// The participant.
    pub owner: Pubkey,
    /// Collateral pledged and not yet withdrawn.
    pub input_amount: u64,
    /// Liquidity borrowed and not yet repaid.
    pub output_amount: u64,
    /// Salt of the position's derived address.
    pub bump: u8,
}

/// A record of the market together with the address it is stored under.
#[derive(Clone, Copy, Debug, PartialEq, Eq)]
pub struct Record<T> {
    /// The record's address.
    pub key: Pubkey,
    /// What the record holds.
    pub state: T,
}

/// A record kept by another program: its address, the program that owns it and its bytes.
#[derive(Clone, Debug, PartialEq, Eq)]
pub struct ForeignRecord {
    /// The record's address.
    pub key: Pubkey,
    /// The program that owns the record.
    pub owner: Pubkey,
    /// The record's bytes.
    pub data: Vec<u8>,
}

} // verus!
