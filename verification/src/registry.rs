//! Markets and reserves: creation, ownership, activation, ceiling and prices.
//!
//! A request that is turned down leaves every record as it was.

use vstd::prelude::*;
use crate::accounts::{
    InitLendingMarket,
    InitReserve,
    ReserveLiveControl,
    SetBorrowRate,
    SetLendingMarketOwner,
    SetMarketPrice,
};
use crate::error::{lending, LendingError, RequestError};
use crate::ledger::{
    token_account_admitted,
    token_account_mint,
    token_account_owner,
    unpack_token_account,
};
use crate::oracle::{price_reading, read_price};
use crate::pubkey::same_key;
use crate::state::{LendingMarket, Record, Reserve};

verus! {

/// Creates a market that `ctx.authority` owns and that trusts the price feeds of
/// `ctx.oracle_program_id`.
pub fn init_lending_market(ctx: &mut InitLendingMarket) -> (r: Result<(), RequestError>)
    ensures
        r == Ok::<(), RequestError>(()),
        *final(ctx) == (InitLendingMarket {
            lending_market: Record {
                key: old(ctx).lending_market.key,
                state: LendingMarket {
                    owner: old(ctx).authority,
                    oracle_program_id: old(ctx).oracle_program_id,
                },
            },
            ..*old(ctx)
        }),
{
    ctx.lending_market.state.owner = ctx.authority;
    ctx.lending_market.state.oracle_program_id = ctx.oracle_program_id;
    Ok(())
}

/// Hands the market to `ctx.new_owner`. Only the market's owner may.
pub fn set_lending_market_owner(ctx: &mut SetLendingMarketOwner) -> (r: Result<(), RequestError>)
    ensures
        old(ctx).lending_market.state.owner != old(ctx).owner ==> r == Err::<(), RequestError>(
            lending(LendingError::NotMatchOwnerAddress),
        ) && *final(ctx) == *old(ctx),
        old(ctx).lending_market.state.owner == old(ctx).owner ==> r == Ok::<(), RequestError>(())
            && *final(ctx) == (SetLendingMarketOwner {
            lending_market: Record {
                key: old(ctx).lending_market.key,
                state: LendingMarket {
                    owner: old(ctx).new_owner,
                    ..old(ctx).lending_market.state
                },
            },
            ..*old(ctx)
        }),
{
    if !same_key(&ctx.lending_market.state.owner, &ctx.owner) {
        return Err(RequestError::Lending(LendingError::NotMatchOwnerAddress));
    }
    ctx.lending_market.state.owner = ctx.new_owner;
    Ok(())
}

/// Why a request to create a reserve is turned down, if it is: the first of the checks
/// that fails, in this order. The last two hold the reserve's own address against the
/// authority that controls each holding record.
pub open spec fn init_reserve_rejection(ctx: InitReserve) -> Option<RequestError> {
    let liquidity = ctx.liquidity_account.data@;
    let collateral = ctx.collateral_account.data@;
    if ctx.lending_market.state.owner != ctx.owner {
        Some(lending(LendingError::NotMatchOwnerAddress))
    } else if !token_account_admitted(liquidity) || !token_account_admitted(collateral) {
        Some(RequestError::InvalidAccountData)
    } else if token_account_mint(liquidity) != ctx.liquidity_mint@ {
        Some(lending(LendingError::NotMatchLiquidityMint))
    } else if token_account_mint(collateral) != ctx.collateral_mint@ {
        Some(lending(LendingError::NotMatchCollateralMint))
    } else if ctx.lending_market.state.oracle_program_id != ctx.oracle_price.owner {
        Some(lending(LendingError::InvalidOracleConfig))
    } else if token_account_owner(collateral) != ctx.reserve.key@ {
        Some(lending(LendingError::NotMatchCollateralAccount))
    } else if token_account_owner(liquidity) != ctx.reserve.key@ {
        Some(lending(LendingError::NotMatchLiquidityAccount))
    } else {
        None
    }
}

/// The reserve that a request creates: bound to the market, the two mints, the two holding
/// records and the price feed that the request names, with nothing lent or pledged, switched
/// off, and with the ceiling and the salt given. Its prices stay as the record had them.
pub open spec fn init_reserve_state(
    ctx: InitReserve,
    bump: u8,
    max_borrow_rate_numerator: u64,
    max_borrow_rate_denominator: u64,
) -> Reserve {
    Reserve {
        is_live: false,
        lending_market: ctx.lending_market.key,
        liquidity_mint: ctx.liquidity_mint,
        liquidity_account: ctx.liquidity_account.key,
        liquidity_oracle: ctx.oracle_price.key,
        collateral_mint: ctx.collateral_mint,
        collateral_account: ctx.collateral_account.key,
        total_liquidity: 0,
        total_collateral: 0,
        max_borrow_rate_numerator,
        max_borrow_rate_denominator,
        bump,
        ..ctx.reserve.state
    }
}

/// Creates a reserve for a pair of assets in a market.
pub fn init_reserve(
    ctx: &mut InitReserve,
    bump: u8,
    max_borrow_rate_numerator: u64,
    max_borrow_rate_denominator: u64,
) -> (r: Result<(), RequestError>)
    ensures
        match init_reserve_rejection(*old(ctx)) {
            Some(e) => r == Err::<(), RequestError>(e) && *final(ctx) == *old(ctx),
            None => r == Ok::<(), RequestError>(()) && *final(ctx) == (InitReserve {
                reserve: Record {
                    key: old(ctx).reserve.key,
                    state: init_reserve_state(
                        *old(ctx),
                        bump,
                        max_borrow_rate_numerator,
                        max_borrow_rate_denominator,
                    ),
                },
                ..*old(ctx)
            }),
        },
{
    if !same_key(&ctx.lending_market.state.owner, &ctx.owner) {
        return Err(RequestError::Lending(LendingError::NotMatchOwnerAddress));
    }
    let liquidity_account = unpack_token_account(ctx.liquidity_account.data.as_slice())?;
    let collateral_account = unpack_token_account(ctx.collateral_account.data.as_slice())?;
    if !same_key(&liquidity_account.mint, &ctx.liquidity_mint) {
        return Err(RequestError::Lending(LendingError::NotMatchLiquidityMint));
    }
    if !same_key(&collateral_account.mint, &ctx.collateral_mint) {
        return Err(RequestError::Lending(LendingError::NotMatchCollateralMint));
    }
    if !same_key(&ctx.lending_market.state.oracle_program_id, &ctx.oracle_price.owner) {
        return Err(RequestError::Lending(LendingError::InvalidOracleConfig));
    }
    if !same_key(&collateral_account.owner, &ctx.reserve.key) {
        return Err(RequestError::Lending(LendingError::NotMatchCollateralAccount));
    }
    if !same_key(&liquidity_account.owner, &ctx.reserve.key) {
        return Err(RequestError::Lending(LendingError::NotMatchLiquidityAccount));
    }
    ctx.reserve.state.lending_market = ctx.lending_market.key;
    ctx.reserve.state.liquidity_mint = ctx.liquidity_mint;
    ctx.reserve.state.liquidity_account = ctx.liquidity_account.key;
    ctx.reserve.state.liquidity_oracle = ctx.oracle_price.key;
    ctx.reserve.state.collateral_mint = ctx.collateral_mint;
    ctx.reserve.state.collateral_account = ctx.collateral_account.key;
    ctx.reserve.state.max_borrow_rate_numerator = max_borrow_rate_numerator;
    ctx.reserve.state.max_borrow_rate_denominator = max_borrow_rate_denominator;
    ctx.reserve.state.total_liquidity = 0;
    ctx.reserve.state.total_collateral = 0;
    ctx.reserve.state.is_live = false;
    ctx.reserve.state.bump = bump;
    Ok(())
}

/// Why an administrative request on a reserve is turned down, if it is: the caller is not
/// the market's owner, or the reserve belongs to another market.
pub open spec fn administration_rejection(
    owner: crate::pubkey::Pubkey,
    lending_market: Record<LendingMarket>,
    reserve: Reserve,
) -> Option<RequestError> {
    if lending_market.state.owner != owner {
        Some(lending(LendingError::NotMatchOwnerAddress))
    } else if reserve.lending_market != lending_market.key {
        Some(lending(LendingError::NotMatchLendingMarket))
    } else {
        None
    }
}

/// Switches a reserve on or off.
pub fn reserve_live_control(ctx: &mut ReserveLiveControl, is_live: bool) -> (r: Result<
    (),
    RequestError,
>)
    ensures
        match administration_rejection(
            old(ctx).owner,
            old(ctx).lending_market,
            old(ctx).reserve.state,
        ) {
            Some(e) => r == Err::<(), RequestError>(e) && *final(ctx) == *old(ctx),
            None => r == Ok::<(), RequestError>(()) && *final(ctx) == (ReserveLiveControl {
                reserve: Record {
                    key: old(ctx).reserve.key,
                    state: Reserve { is_live, ..old(ctx).reserve.state },
                },
                ..*old(ctx)
            }),
        },
{
    if !same_key(&ctx.lending_market.state.owner, &ctx.owner) {
        return Err(RequestError::Lending(LendingError::NotMatchOwnerAddress));
    }
    if !same_key(&ctx.reserve.state.lending_market, &ctx.lending_market.key) {
        return Err(RequestError::Lending(LendingError::NotMatchLendingMarket));
    }
    ctx.reserve.state.is_live = is_live;
    Ok(())
}

/// Overwrites a reserve's ceiling. Positions that are open are not held against it.
pub fn set_borrow_rate(
    ctx: &mut SetBorrowRate,
    borrow_rate_numerator: u64,
    borrow_rate_denominator: u64,
) -> (r: Result<(), RequestError>)
    ensures
        match administration_rejection(
            old(ctx).owner,
            old(ctx).lending_market,
            old(ctx).reserve.state,
        ) {
            Some(e) => r == Err::<(), RequestError>(e) && *final(ctx) == *old(ctx),
            None => r == Ok::<(), RequestError>(()) && *final(ctx) == (SetBorrowRate {
                reserve: Record {
                    key: old(ctx).reserve.key,
                    state: Reserve {
                        max_borrow_rate_numerator: borrow_rate_numerator,
                        max_borrow_rate_denominator: borrow_rate_denominator,
                        ..old(ctx).reserve.state
                    },
                },
                ..*old(ctx)
            }),
        },
{
    if !same_key(&ctx.lending_market.state.owner, &ctx.owner) {
        return Err(RequestError::Lending(LendingError::NotMatchOwnerAddress));
    }
    if !same_key(&ctx.reserve.state.lending_market, &ctx.lending_market.key) {
        return Err(RequestError::Lending(LendingError::NotMatchLendingMarket));
    }
    ctx.reserve.state.max_borrow_rate_numerator = borrow_rate_numerator;
    ctx.reserve.state.max_borrow_rate_denominator = borrow_rate_denominator;
    Ok(())
}

/// Why a request to refresh a reserve's prices is turned down, if it is: the first of the
/// checks that fails, in this order.
pub open spec fn set_market_price_rejection(ctx: SetMarketPrice) -> Option<RequestError> {
    let administration = administration_rejection(ctx.owner, ctx.lending_market, ctx.reserve.state);
    if administration is Some {
        administration
    } else if ctx.reserve.state.liquidity_oracle != ctx.oracle_price.key {
        Some(lending(LendingError::InvalidOracleConfig))
    } else if price_reading(
        ctx.oracle_price.owner,
        ctx.oracle_price.data@,
        ctx.lending_market.state.oracle_program_id,
    ) is Err {
        Some(lending(LendingError::InvalidOracleConfig))
    } else {
        None
    }
}

/// The reserve after its prices were refreshed: the liquidity price and its decimal places
/// are the feed's, the collateral price and its decimal places are the caller's.
pub open spec fn set_market_price_state(
    ctx: SetMarketPrice,
    collateral_market_price: u128,
    collateral_market_price_decimals: u8,
) -> Reserve {
    let reading = price_reading(
        ctx.oracle_price.owner,
        ctx.oracle_price.data@,
        ctx.lending_market.state.oracle_program_id,
    )->Ok_0;
    Reserve {
        liquidity_market_price: reading.0,
        liquidity_market_price_decimals: reading.1,
        collateral_market_price,
        collateral_market_price_decimals,
        ..ctx.reserve.state
    }
}

/// Refreshes a reserve's prices: the liquidity price is read from the price feed, the
/// collateral price is the one that the caller states.
pub fn set_market_price(
    ctx: &mut SetMarketPrice,
    collateral_market_price: u128,
    collateral_market_price_decimals: u8,
) -> (r: Result<(), RequestError>)
    ensures
        match set_market_price_rejection(*old(ctx)) {
            Some(e) => r == Err::<(), RequestError>(e) && *final(ctx) == *old(ctx),
            None => r == Ok::<(), RequestError>(()) && *final(ctx) == (SetMarketPrice {
                reserve: Record {
                    key: old(ctx).reserve.key,
                    state: set_market_price_state(
                        *old(ctx),
                        collateral_market_price,
                        collateral_market_price_decimals,
                    ),
                },
                ..*old(ctx)
            }),
        },
{
    if !same_key(&ctx.lending_market.state.owner, &ctx.owner) {
        return Err(RequestError::Lending(LendingError::NotMatchOwnerAddress));
    }
    if !same_key(&ctx.reserve.state.lending_market, &ctx.lending_market.key) {
        return Err(RequestError::Lending(LendingError::NotMatchLendingMarket));
    }
    if !same_key(&ctx.reserve.state.liquidity_oracle, &ctx.oracle_price.key) {
        return Err(RequestError::Lending(LendingError::InvalidOracleConfig));
    }
    let (price, decimals) = match read_price(
        &ctx.oracle_price,
        &ctx.lending_market.state.oracle_program_id,
    ) {
        Ok(reading) => reading,
        Err(e) => {
            return Err(RequestError::Lending(e));
        },
    };
    ctx.reserve.state.liquidity_market_price = price;
    ctx.reserve.state.liquidity_market_price_decimals = decimals;
    ctx.reserve.state.collateral_market_price = collateral_market_price;
    ctx.reserve.state.collateral_market_price_decimals = collateral_market_price_decimals;
    Ok(())
}

} // verus!
