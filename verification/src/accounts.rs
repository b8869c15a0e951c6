//! The records that each request names.
//!
//! `owner` and `authority` are the principal who signed the request. That the principal
//! signed, that a holding record or a mint belongs to the asset ledger, and that a reserve
//! or a position is stored under the address derived for it, is for the host to establish
//! before the request reaches the market. The market checks how the records relate.

use vstd::prelude::*;
use crate::pubkey::Pubkey;
use crate::state::{ForeignRecord, LendingMarket, Obligation, Record, Reserve};

verus! {

/// Records of a request to refresh a reserve's prices.
#[derive(Clone, Debug, PartialEq, Eq)]
pub struct SetMarketPrice {
    pub owner: Pubkey,
    pub lending_market: Record<LendingMarket>,
    pub reserve: Record<Reserve>,
    pub oracle_price: ForeignRecord,
}

/// Records of a request to change a reserve's ceiling.
#[derive(Clone, Copy, Debug, PartialEq, Eq)]
pub struct SetBorrowRate {
    pub owner: Pubkey,
    pub lending_market: Record<LendingMarket>,
    pub reserve: Record<Reserve>,
}

/// Records of an operator's request to add liquidity to a reserve.
#[derive(Clone, Debug, PartialEq, Eq)]
pub struct DepositReserveLiquidity {
    pub owner: Pubkey,
    pub source_liquidity: ForeignRecord,
    pub dest_liquidity: ForeignRecord,
    pub reserve: Record<Reserve>,
    pub token_program: Pubkey,
}

/// Records of an operator's request to take collateral out of a reserve.
#[derive(Clone, Debug, PartialEq, Eq)]
pub struct RedeemReserveCollateral {
    pub owner: Pubkey,
    pub source_collateral: ForeignRecord,
    pub dest_collateral: ForeignRecord,
    pub reserve: Record<Reserve>,
    pub lending_market: Record<LendingMarket>,
    pub token_program: Pubkey,
}

/// Records of a request to repay borrowed liquidity.
#[derive(Clone, Debug, PartialEq, Eq)]
pub struct RepayLiquidity {
    pub owner: Pubkey,
    pub source_liquidity: ForeignRecord,
    pub dest_liquidity: ForeignRecord,
    pub reserve: Record<Reserve>,
    pub obligation: Record<Obligation>,
    pub token_program: Pubkey,
}

/// Records of a request to borrow liquidity.
#[derive(Clone, Debug, PartialEq, Eq)]
pub struct BorrowLiquidity {
    pub owner: Pubkey,
    pub collateral_mint: ForeignRecord,
    pub liquidity_mint: ForeignRecord,
    pub source_liquidity: ForeignRecord,
    pub dest_liquidity: ForeignRecord,
    pub reserve: Record<Reserve>,
    pub obligation: Record<Obligation>,
    /// Address of the market that the caller names.
    pub lending_market: Pubkey,
    /// Address of the price feed that the caller names.
    pub oracle_price: Pubkey,
    pub token_program: Pubkey,
}

/// Records of a request to withdraw collateral.
#[derive(Clone, Debug, PartialEq, Eq)]
pub struct WithdrawCollateral {
    pub owner: Pubkey,
    pub collateral_mint: ForeignRecord,
    pub liquidity_mint: ForeignRecord,
    pub source_collateral: ForeignRecord,
    pub dest_collateral: ForeignRecord,
    pub reserve: Record<Reserve>,
    pub obligation: Record<Obligation>,
    /// Address of the market that the caller names.
    pub lending_market: Pubkey,
    /// Address of the price feed that the caller names.
    pub oracle_price: Pubkey,
    pub token_program: Pubkey,
}

/// Records of a request to pledge collateral.
#[derive(Clone, Debug, PartialEq, Eq)]
pub struct DepositCollateral {
    pub owner: Pubkey,
    pub source_collateral: ForeignRecord,
    pub dest_collateral: ForeignRecord,
    pub reserve: Record<Reserve>,
    pub obligation: Record<Obligation>,
    pub token_program: Pubkey,
}

/// Records of a request to open a position.
#[derive(Clone, Copy, Debug, PartialEq, Eq)]
pub struct InitObligation {
    /// The new position, stored under the address derived from reserve and owner.
    pub obligation: Record<Obligation>,
    pub owner: Pubkey,
    /// Address of the reserve.
    pub reserve: Pubkey,
}

/// Records of a request to create a reserve.
#[derive(Clone, Debug, PartialEq, Eq)]
pub struct InitReserve {
    /// The new reserve, stored under the address derived from market and mints; that
    /// address is the authority the reserve acts by.
    pub reserve: Record<Reserve>,
    pub owner: Pubkey,
    pub lending_market: Record<LendingMarket>,
    /// Address of the liquidity asset's mint.
    pub liquidity_mint: Pubkey,
    pub liquidity_account: ForeignRecord,
    pub oracle_price: ForeignRecord,
    /// Address of the collateral asset's mint.
    pub collateral_mint: Pubkey,
    pub collateral_account: ForeignRecord,
}

/// Records of a request to hand a market to a new owner.
#[derive(Clone, Copy, Debug, PartialEq, Eq)]
pub struct SetLendingMarketOwner {
    pub lending_market: Record<LendingMarket>,
    pub owner: Pubkey,
    pub new_owner: Pubkey,
}

/// Records of a request to switch a reserve on or off.
#[derive(Clone, Copy, Debug, PartialEq, Eq)]
pub struct ReserveLiveControl {
    pub reserve: Record<Reserve>,
    pub owner: Pubkey,
    pub lending_market: Record<LendingMarket>,
}

/// Records of a request to create a market.
#[derive(Clone, Copy, Debug, PartialEq, Eq)]
pub struct InitLendingMarket {
    pub lending_market: Record<LendingMarket>,
    pub authority: Pubkey,
    /// Address of the issuer of the price feeds that the market will trust.
    pub oracle_program_id: Pubkey,
}

} // verus!
