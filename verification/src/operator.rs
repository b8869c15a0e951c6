//! The operator's own moves of assets into and out of a reserve's holding records.
//!
//! They touch neither a position nor the reserve's totals: each only says which transfer
//! the caller has to make.

use vstd::prelude::*;
use crate::accounts::{DepositReserveLiquidity, RedeemReserveCollateral};
use crate::error::{lending, LendingError, RequestError};
use crate::ledger::{
    token_account_admitted,
    token_account_amount,
    token_account_mint,
    unpack_token_account,
};
use crate::gateway::{AuthoritySeeds, TokenTransferParams, TokenTransferParamsWithoutSeed};
use crate::pubkey::same_key;

verus! {

/// Why a request to take `amount` of collateral out of a reserve is turned down, if it is:
/// the first of the checks that fails, in this order.
pub open spec fn redeem_reserve_collateral_rejection(
    ctx: RedeemReserveCollateral,
    amount: u64,
) -> Option<RequestError> {
    let reserve = ctx.reserve.state;
    let source = ctx.source_collateral.data@;
    let dest = ctx.dest_collateral.data@;
    if ctx.lending_market.state.owner != ctx.owner {
        Some(lending(LendingError::NotMatchOwnerAddress))
    } else if reserve.lending_market != ctx.lending_market.key {
        Some(lending(LendingError::NotMatchLendingMarket))
    } else if reserve.collateral_account != ctx.source_collateral.key {
        Some(lending(LendingError::NotMatchCollateralAccount))
    } else if !token_account_admitted(source) || !token_account_admitted(dest) {
        Some(RequestError::InvalidAccountData)
    } else if token_account_mint(source) != reserve.collateral_mint@ {
        Some(lending(LendingError::NotMatchCollateralMint))
    } else if token_account_mint(dest) != reserve.collateral_mint@ {
        Some(lending(LendingError::NotMatchCollateralMint))
    } else if token_account_amount(source) < amount {
        Some(lending(LendingError::NotEnoughCollateral))
    } else {
        None
    }
}

/// Takes collateral out of a reserve's holding record, by the reserve's derived authority.
pub fn redeem_reserve_collateral(ctx: &RedeemReserveCollateral, amount: u64) -> (r: Result<
    TokenTransferParams,
    RequestError,
>)
    ensures
        r == match redeem_reserve_collateral_rejection(*ctx, amount) {
            Some(e) => Err::<TokenTransferParams, RequestError>(e),
            None => Ok::<TokenTransferParams, RequestError>(
                TokenTransferParams {
                    source: ctx.source_collateral.key,
                    destination: ctx.dest_collateral.key,
                    authority: ctx.reserve.key,
                    token_program: ctx.token_program,
                    authority_signer_seeds: ctx.reserve.state.authority_seeds(),
                    amount,
                },
            ),
        },
{
    if !same_key(&ctx.lending_market.state.owner, &ctx.owner) {
        return Err(RequestError::Lending(LendingError::NotMatchOwnerAddress));
    }
    if !same_key(&ctx.reserve.state.lending_market, &ctx.lending_market.key) {
        return Err(RequestError::Lending(LendingError::NotMatchLendingMarket));
    }
    if !same_key(&ctx.reserve.state.collateral_account, &ctx.source_collateral.key) {
        return Err(RequestError::Lending(LendingError::NotMatchCollateralAccount));
    }
    let source_collateral = unpack_token_account(ctx.source_collateral.data.as_slice())?;
    let dest_collateral = unpack_token_account(ctx.dest_collateral.data.as_slice())?;
    if !same_key(&source_collateral.mint, &ctx.reserve.state.collateral_mint) {
        return Err(RequestError::Lending(LendingError::NotMatchCollateralMint));
    }
    if !same_key(&dest_collateral.mint, &ctx.reserve.state.collateral_mint) {
        return Err(RequestError::Lending(LendingError::NotMatchCollateralMint));
    }
    if source_collateral.amount < amount {
        return Err(RequestError::Lending(LendingError::NotEnoughCollateral));
    }
    Ok(
        TokenTransferParams {
            source: ctx.source_collateral.key,
            destination: ctx.dest_collateral.key,
            authority: ctx.reserve.key,
            token_program: ctx.token_program,
            authority_signer_seeds: AuthoritySeeds {
                lending_market: ctx.reserve.state.lending_market,
                collateral_mint: ctx.reserve.state.collateral_mint,
                liquidity_mint: ctx.reserve.state.liquidity_mint,
                bump: ctx.reserve.state.bump,
            },
            amount,
        },
    )
}

/// Why a request to add liquidity to a reserve is turned down, if it is: the first of the
/// checks that fails, in this order.
pub open spec fn deposit_reserve_liquidity_rejection(ctx: DepositReserveLiquidity) -> Option<
    RequestError,
> {
    let source = ctx.source_liquidity.data@;
    if ctx.reserve.state.liquidity_account != ctx.dest_liquidity.key {
        Some(lending(LendingError::NotMatchLiquidityAccount))
    } else if !token_account_admitted(source) {
        Some(RequestError::InvalidAccountData)
    } else if token_account_mint(source) != ctx.reserve.state.liquidity_mint@ {
        Some(lending(LendingError::NotMatchLiquidityMint))
    } else {
        None
    }
}

/// Adds liquidity to a reserve's holding record, by the caller's own signature.
pub fn deposit_reserve_liquidity(ctx: &DepositReserveLiquidity, amount: u64) -> (r: Result<
    TokenTransferParamsWithoutSeed,
    RequestError,
>)
    ensures
        r == match deposit_reserve_liquidity_rejection(*ctx) {
            Some(e) => Err::<TokenTransferParamsWithoutSeed, RequestError>(e),
            None => Ok::<TokenTransferParamsWithoutSeed, RequestError>(
                TokenTransferParamsWithoutSeed {
                    source: ctx.source_liquidity.key,
                    destination: ctx.dest_liquidity.key,
                    authority: ctx.owner,
                    token_program: ctx.token_program,
                    amount,
                },
            ),
        },
{
    if !same_key(&ctx.reserve.state.liquidity_account, &ctx.dest_liquidity.key) {
        return Err(RequestError::Lending(LendingError::NotMatchLiquidityAccount));
    }
    let source_liquidity = unpack_token_account(ctx.source_liquidity.data.as_slice())?;
    if !same_key(&ctx.reserve.state.liquidity_mint, &source_liquidity.mint) {
        return Err(RequestError::Lending(LendingError::NotMatchLiquidityMint));
    }
    Ok(
        TokenTransferParamsWithoutSeed {
            source: ctx.source_liquidity.key,
            destination: ctx.dest_liquidity.key,
            authority: ctx.owner,
            token_program: ctx.token_program,
            amount,
        },
    )
}

} // verus!
