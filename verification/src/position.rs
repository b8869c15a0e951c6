//! Positions: pledging and withdrawing collateral, borrowing and repaying liquidity.
//!
//! Each request checks that the records it names belong together, then the balances and the
//! ceiling, and only then books the change and hands back the one transfer that the caller
//! has to make. A request that is turned down leaves every record as it was.

use vstd::prelude::*;
use crate::accounts::{
    BorrowLiquidity,
    DepositCollateral,
    InitObligation,
    RepayLiquidity,
    WithdrawCollateral,
};
use crate::error::{lending, LendingError, RequestError};
use crate::ledger::{
    token_account_admitted,
    token_account_amount,
    token_account_mint,
    token_mint_admitted,
    token_mint_decimals,
    unpack_token_account,
    unpack_token_mint,
};
use crate::math::{checked_weighted_value, value_fits, within_ceiling};
use crate::gateway::{AuthoritySeeds, TokenTransferParams, TokenTransferParamsWithoutSeed};
use crate::pubkey::same_key;
use crate::state::{Obligation, Record, Reserve};

verus! {

/// Whether both sides of the ceiling can be computed in 128 bits for a position of
/// `input` collateral and `output` debt.
pub open spec fn ceiling_computable(
    reserve: Reserve,
    input: nat,
    output: nat,
    liquidity_decimals: u8,
    collateral_decimals: u8,
) -> bool {
    &&& value_fits(
        output,
        reserve.liquidity_market_price as nat,
        reserve.max_borrow_rate_denominator as nat,
        (liquidity_decimals + reserve.liquidity_market_price_decimals) as nat,
    )
    &&& value_fits(
        input,
        reserve.collateral_market_price as nat,
        reserve.max_borrow_rate_numerator as nat,
        (collateral_decimals + reserve.collateral_market_price_decimals) as nat,
    )
}

/// Whether a position of `input` collateral and `output` debt is within the reserve's
/// ceiling at the reserve's last prices.
pub open spec fn ceiling_holds(
    reserve: Reserve,
    input: nat,
    output: nat,
    liquidity_decimals: u8,
    collateral_decimals: u8,
) -> bool {
    within_ceiling(
        output,
        reserve.liquidity_market_price as nat,
        reserve.max_borrow_rate_denominator as nat,
        (liquidity_decimals + reserve.liquidity_market_price_decimals) as nat,
        input,
        reserve.collateral_market_price as nat,
        reserve.max_borrow_rate_numerator as nat,
        (collateral_decimals + reserve.collateral_market_price_decimals) as nat,
    )
}

/// Why a position of `input` collateral and `output` debt is not admitted, if it is not.
pub open spec fn ceiling_verdict(
    reserve: Reserve,
    input: nat,
    output: nat,
    liquidity_decimals: u8,
    collateral_decimals: u8,
) -> Option<LendingError> {
    if !ceiling_computable(reserve, input, output, liquidity_decimals, collateral_decimals) {
        Some(LendingError::MathOverflow)
    } else if !ceiling_holds(reserve, input, output, liquidity_decimals, collateral_decimals) {
        Some(LendingError::InvalidBorrowRate)
    } else {
        None
    }
}

/// Holds a position of `input` collateral and `output` debt against the reserve's ceiling.
pub fn check_ceiling(
    reserve: &Reserve,
    input: u64,
    output: u64,
    liquidity_decimals: u8,
    collateral_decimals: u8,
) -> (r: Result<(), LendingError>)
    ensures
        r == match ceiling_verdict(
            *reserve,
            input as nat,
            output as nat,
            liquidity_decimals,
            collateral_decimals,
        ) {
            Some(e) => Err::<(), LendingError>(e),
            None => Ok::<(), LendingError>(()),
        },
{
    let debt_value = checked_weighted_value(
        output,
        reserve.liquidity_market_price,
        reserve.max_borrow_rate_denominator,
        liquidity_decimals,
        reserve.liquidity_market_price_decimals,
    );
    let collateral_value = checked_weighted_value(
        input,
        reserve.collateral_market_price,
        reserve.max_borrow_rate_numerator,
        collateral_decimals,
        reserve.collateral_market_price_decimals,
    );
    match (debt_value, collateral_value) {
        (Ok(debt), Ok(collateral)) => {
            if debt > collateral {
                Err(LendingError::InvalidBorrowRate)
            } else {
                Ok(())
            }
        },
        _ => Err(LendingError::MathOverflow),
    }
}

/// The smaller of what is asked for and what the position records.
pub open spec fn clamped(requested: u64, recorded: u64) -> u64 {
    if requested > recorded {
        recorded
    } else {
        requested
    }
}

/// Why a request to withdraw `collateral_amount` is turned down, if it is: the first of
/// the checks that fails, in this order.
pub open spec fn withdraw_collateral_rejection(
    ctx: WithdrawCollateral,
    collateral_amount: u64,
) -> Option<RequestError> {
    let reserve = ctx.reserve.state;
    let obligation = ctx.obligation.state;
    let source = ctx.source_collateral.data@;
    let dest = ctx.dest_collateral.data@;
    let real_amount = clamped(collateral_amount, obligation.input_amount);
    let verdict = ceiling_verdict(
        reserve,
        (obligation.input_amount - real_amount) as nat,
        obligation.output_amount as nat,
        token_mint_decimals(ctx.liquidity_mint.data@),
        token_mint_decimals(ctx.collateral_mint.data@),
    );
    if obligation.owner != ctx.owner {
        Some(lending(LendingError::NotMatchOwnerAddress))
    } else if obligation.reserve != ctx.reserve.key {
        Some(lending(LendingError::NotMatchReserveAddress))
    } else if reserve.lending_market != ctx.lending_market {
        Some(lending(LendingError::NotMatchLendingMarket))
    } else if reserve.collateral_account != ctx.source_collateral.key {
        Some(lending(LendingError::NotMatchCollateralAccount))
    } else if reserve.liquidity_oracle != ctx.oracle_price {
        Some(lending(LendingError::InvalidOracleConfig))
    } else if !token_account_admitted(source) || !token_account_admitted(dest)
        || !token_mint_admitted(ctx.liquidity_mint.data@) || !token_mint_admitted(
        ctx.collateral_mint.data@,
    ) {
        Some(RequestError::InvalidAccountData)
    } else if reserve.collateral_mint != ctx.collateral_mint.key {
        Some(lending(LendingError::NotMatchCollateralMint))
    } else if reserve.liquidity_mint != ctx.liquidity_mint.key {
        Some(lending(LendingError::NotMatchLiquidityMint))
    } else if token_account_mint(source) != reserve.collateral_mint@ {
        Some(lending(LendingError::NotMatchCollateralMint))
    } else if token_account_mint(dest) != reserve.collateral_mint@ {
        Some(lending(LendingError::NotMatchCollateralMint))
    } else if collateral_amount > token_account_amount(source) {
        Some(lending(LendingError::NotEnoughCollateral))
    } else if verdict is Some {
        Some(lending(verdict->Some_0))
    } else if reserve.total_collateral < real_amount {
        Some(lending(LendingError::MathOverflow))
    } else {
        None
    }
}

/// The records after a withdrawal of `collateral_amount` that was admitted: the position
/// and the reserve's total are down by what was really withdrawn.
pub open spec fn withdraw_collateral_effect(
    ctx: WithdrawCollateral,
    collateral_amount: u64,
) -> WithdrawCollateral {
    let real_amount = clamped(collateral_amount, ctx.obligation.state.input_amount);
    WithdrawCollateral {
        obligation: Record {
            key: ctx.obligation.key,
            state: Obligation {
                input_amount: (ctx.obligation.state.input_amount - real_amount) as u64,
                ..ctx.obligation.state
            },
        },
        reserve: Record {
            key: ctx.reserve.key,
            state: Reserve {
                total_collateral: (ctx.reserve.state.total_collateral - real_amount) as u64,
                ..ctx.reserve.state
            },
        },
        ..ctx
    }
}

/// The transfer that pays out a withdrawal: from the reserve's collateral record to the
/// caller's, by the reserve's derived authority.
pub open spec fn withdraw_collateral_transfer(
    ctx: WithdrawCollateral,
    collateral_amount: u64,
) -> TokenTransferParams {
    TokenTransferParams {
        source: ctx.source_collateral.key,
        destination: ctx.dest_collateral.key,
        authority: ctx.reserve.key,
        token_program: ctx.token_program,
        authority_signer_seeds: ctx.reserve.state.authority_seeds(),
        amount: clamped(collateral_amount, ctx.obligation.state.input_amount),
    }
}

/// Withdraws collateral from a position: as much as is asked for, or all that the
/// position records where more is asked for.
pub fn withdraw_collateral(ctx: &mut WithdrawCollateral, collateral_amount: u64) -> (r: Result<
    TokenTransferParams,
    RequestError,
>)
    ensures
        match withdraw_collateral_rejection(*old(ctx), collateral_amount) {
            Some(e) => r == Err::<TokenTransferParams, RequestError>(e) && *final(ctx) == *old(
                ctx,
            ),
            None => r == Ok::<TokenTransferParams, RequestError>(
                withdraw_collateral_transfer(*old(ctx), collateral_amount),
            ) && *final(ctx) == withdraw_collateral_effect(*old(ctx), collateral_amount),
        },
        r is Ok ==> ceiling_holds(
            final(ctx).reserve.state,
            final(ctx).obligation.state.input_amount as nat,
            final(ctx).obligation.state.output_amount as nat,
            token_mint_decimals(final(ctx).liquidity_mint.data@),
            token_mint_decimals(final(ctx).collateral_mint.data@),
        ),
{
    if !same_key(&ctx.obligation.state.owner, &ctx.owner) {
        return Err(RequestError::Lending(LendingError::NotMatchOwnerAddress));
    }
    if !same_key(&ctx.obligation.state.reserve, &ctx.reserve.key) {
        return Err(RequestError::Lending(LendingError::NotMatchReserveAddress));
    }
    if !same_key(&ctx.reserve.state.lending_market, &ctx.lending_market) {
        return Err(RequestError::Lending(LendingError::NotMatchLendingMarket));
    }
    if !same_key(&ctx.reserve.state.collateral_account, &ctx.source_collateral.key) {
        return Err(RequestError::Lending(LendingError::NotMatchCollateralAccount));
    }
    if !same_key(&ctx.reserve.state.liquidity_oracle, &ctx.oracle_price) {
        return Err(RequestError::Lending(LendingError::InvalidOracleConfig));
    }
    let source_collateral = unpack_token_account(ctx.source_collateral.data.as_slice())?;
    let dest_collateral = unpack_token_account(ctx.dest_collateral.data.as_slice())?;
    let liquidity_mint = unpack_token_mint(ctx.liquidity_mint.data.as_slice())?;
    let collateral_mint = unpack_token_mint(ctx.collateral_mint.data.as_slice())?;
    if !same_key(&ctx.reserve.state.collateral_mint, &ctx.collateral_mint.key) {
        return Err(RequestError::Lending(LendingError::NotMatchCollateralMint));
    }
    if !same_key(&ctx.reserve.state.liquidity_mint, &ctx.liquidity_mint.key) {
        return Err(RequestError::Lending(LendingError::NotMatchLiquidityMint));
    }
    if !same_key(&source_collateral.mint, &ctx.reserve.state.collateral_mint) {
        return Err(RequestError::Lending(LendingError::NotMatchCollateralMint));
    }
    if !same_key(&dest_collateral.mint, &ctx.reserve.state.collateral_mint) {
        return Err(RequestError::Lending(LendingError::NotMatchCollateralMint));
    }
    if collateral_amount > source_collateral.amount {
        return Err(RequestError::Lending(LendingError::NotEnoughCollateral));
    }
    let mut real_amount = collateral_amount;
    if collateral_amount > ctx.obligation.state.input_amount {
        real_amount = ctx.obligation.state.input_amount;
    }
    let remaining = ctx.obligation.state.input_amount - real_amount;
    match check_ceiling(
        &ctx.reserve.state,
        remaining,
        ctx.obligation.state.output_amount,
        liquidity_mint.decimals,
        collateral_mint.decimals,
    ) {
        Ok(()) => {},
        Err(e) => {
            return Err(RequestError::Lending(e));
        },
    }
    let total_collateral = match ctx.reserve.state.total_collateral.checked_sub(real_amount) {
        Some(total) => total,
        None => {
            return Err(RequestError::Lending(LendingError::MathOverflow));
        },
    };
    let transfer = TokenTransferParams {
        source: ctx.source_collateral.key,
        destination: ctx.dest_collateral.key,
        authority: ctx.reserve.key,
        token_program: ctx.token_program,
        authority_signer_seeds: AuthoritySeeds {
            lending_market: ctx.reserve.state.lending_market,
            collateral_mint: ctx.reserve.state.collateral_mint,
            liquidity_mint: ctx.reserve.state.liquidity_mint,
            bump: ctx.reserve.state.bump,
        },
        amount: real_amount,
    };
    ctx.obligation.state.input_amount = remaining;
    ctx.reserve.state.total_collateral = total_collateral;
    Ok(transfer)
}

/// Why a request to borrow `liquidity_amount` is turned down, if it is: the first of the
/// checks that fails, in this order.
pub open spec fn borrow_liquidity_rejection(
    ctx: BorrowLiquidity,
    liquidity_amount: u64,
) -> Option<RequestError> {
    let reserve = ctx.reserve.state;
    let obligation = ctx.obligation.state;
    let source = ctx.source_liquidity.data@;
    let dest = ctx.dest_liquidity.data@;
    let verdict = ceiling_verdict(
        reserve,
        obligation.input_amount as nat,
        (obligation.output_amount + liquidity_amount) as nat,
        token_mint_decimals(ctx.liquidity_mint.data@),
        token_mint_decimals(ctx.collateral_mint.data@),
    );
    if obligation.owner != ctx.owner {
        Some(lending(LendingError::NotMatchOwnerAddress))
    } else if obligation.reserve != ctx.reserve.key {
        Some(lending(LendingError::NotMatchReserveAddress))
    } else if reserve.lending_market != ctx.lending_market {
        Some(lending(LendingError::NotMatchLendingMarket))
    } else if reserve.liquidity_account != ctx.source_liquidity.key {
        Some(lending(LendingError::NotMatchLiquidityAccount))
    } else if reserve.liquidity_oracle != ctx.oracle_price {
        Some(lending(LendingError::InvalidOracleConfig))
    } else if !token_account_admitted(source) || !token_account_admitted(dest)
        || !token_mint_admitted(ctx.liquidity_mint.data@) || !token_mint_admitted(
        ctx.collateral_mint.data@,
    ) {
        Some(RequestError::InvalidAccountData)
    } else if reserve.collateral_mint != ctx.collateral_mint.key {
        Some(lending(LendingError::NotMatchCollateralMint))
    } else if reserve.liquidity_mint != ctx.liquidity_mint.key {
        Some(lending(LendingError::NotMatchLiquidityMint))
    } else if token_account_mint(source) != reserve.liquidity_mint@ {
        Some(lending(LendingError::NotMatchLiquidityMint))
    } else if token_account_mint(dest) != reserve.liquidity_mint@ {
        Some(lending(LendingError::NotMatchLiquidityMint))
    } else if liquidity_amount > token_account_amount(source) {
        Some(lending(LendingError::NotEnoughLiquidity))
    } else if obligation.output_amount + liquidity_amount > u64::MAX {
        Some(lending(LendingError::MathOverflow))
    } else if verdict is Some {
        Some(lending(verdict->Some_0))
    } else if reserve.total_liquidity + liquidity_amount > u64::MAX {
        Some(lending(LendingError::MathOverflow))
    } else {
        None
    }
}

/// The records after a loan of `liquidity_amount` that was admitted: the position's debt
/// and the reserve's total are up by it.
pub open spec fn borrow_liquidity_effect(
    ctx: BorrowLiquidity,
    liquidity_amount: u64,
) -> BorrowLiquidity {
    BorrowLiquidity {
        obligation: Record {
            key: ctx.obligation.key,
            state: Obligation {
                output_amount: (ctx.obligation.state.output_amount + liquidity_amount) as u64,
                ..ctx.obligation.state
            },
        },
        reserve: Record {
            key: ctx.reserve.key,
            state: Reserve {
                total_liquidity: (ctx.reserve.state.total_liquidity + liquidity_amount) as u64,
                ..ctx.reserve.state
            },
        },
        ..ctx
    }
}

/// The transfer that pays out a loan: from the reserve's liquidity record to the caller's,
/// by the reserve's derived authority.
pub open spec fn borrow_liquidity_transfer(
    ctx: BorrowLiquidity,
    liquidity_amount: u64,
) -> TokenTransferParams {
    TokenTransferParams {
        source: ctx.source_liquidity.key,
        destination: ctx.dest_liquidity.key,
        authority: ctx.reserve.key,
        token_program: ctx.token_program,
        authority_signer_seeds: ctx.reserve.state.authority_seeds(),
        amount: liquidity_amount,
    }
}

/// Borrows liquidity against the collateral that a position has pledged.
pub fn borrow_liquidity(ctx: &mut BorrowLiquidity, liquidity_amount: u64) -> (r: Result<
    TokenTransferParams,
    RequestError,
>)
    ensures
        match borrow_liquidity_rejection(*old(ctx), liquidity_amount) {
            Some(e) => r == Err::<TokenTransferParams, RequestError>(e) && *final(ctx) == *old(
                ctx,
            ),
            None => r == Ok::<TokenTransferParams, RequestError>(
                borrow_liquidity_transfer(*old(ctx), liquidity_amount),
            ) && *final(ctx) == borrow_liquidity_effect(*old(ctx), liquidity_amount),
        },
        r is Ok ==> ceiling_holds(
            final(ctx).reserve.state,
            final(ctx).obligation.state.input_amount as nat,
            final(ctx).obligation.state.output_amount as nat,
            token_mint_decimals(final(ctx).liquidity_mint.data@),
            token_mint_decimals(final(ctx).collateral_mint.data@),
        ),
{
    if !same_key(&ctx.obligation.state.owner, &ctx.owner) {
        return Err(RequestError::Lending(LendingError::NotMatchOwnerAddress));
    }
    if !same_key(&ctx.obligation.state.reserve, &ctx.reserve.key) {
        return Err(RequestError::Lending(LendingError::NotMatchReserveAddress));
    }
    if !same_key(&ctx.reserve.state.lending_market, &ctx.lending_market) {
        return Err(RequestError::Lending(LendingError::NotMatchLendingMarket));
    }
    if !same_key(&ctx.reserve.state.liquidity_account, &ctx.source_liquidity.key) {
        return Err(RequestError::Lending(LendingError::NotMatchLiquidityAccount));
    }
    if !same_key(&ctx.reserve.state.liquidity_oracle, &ctx.oracle_price) {
        return Err(RequestError::Lending(LendingError::InvalidOracleConfig));
    }
    let source_liquidity = unpack_token_account(ctx.source_liquidity.data.as_slice())?;
    let dest_liquidity = unpack_token_account(ctx.dest_liquidity.data.as_slice())?;
    let liquidity_mint = unpack_token_mint(ctx.liquidity_mint.data.as_slice())?;
    let collateral_mint = unpack_token_mint(ctx.collateral_mint.data.as_slice())?;
    if !same_key(&ctx.reserve.state.collateral_mint, &ctx.collateral_mint.key) {
        return Err(RequestError::Lending(LendingError::NotMatchCollateralMint));
    }
    if !same_key(&ctx.reserve.state.liquidity_mint, &ctx.liquidity_mint.key) {
        return Err(RequestError::Lending(LendingError::NotMatchLiquidityMint));
    }
    if !same_key(&source_liquidity.mint, &ctx.reserve.state.liquidity_mint) {
        return Err(RequestError::Lending(LendingError::NotMatchLiquidityMint));
    }
    if !same_key(&dest_liquidity.mint, &ctx.reserve.state.liquidity_mint) {
        return Err(RequestError::Lending(LendingError::NotMatchLiquidityMint));
    }
    if liquidity_amount > source_liquidity.amount {
        return Err(RequestError::Lending(LendingError::NotEnoughLiquidity));
    }
    let debt = match ctx.obligation.state.output_amount.checked_add(liquidity_amount) {
        Some(debt) => debt,
        None => {
            return Err(RequestError::Lending(LendingError::MathOverflow));
        },
    };
    match check_ceiling(
        &ctx.reserve.state,
        ctx.obligation.state.input_amount,
        debt,
        liquidity_mint.decimals,
        collateral_mint.decimals,
    ) {
        Ok(()) => {},
        Err(e) => {
            return Err(RequestError::Lending(e));
        },
    }
    let total_liquidity = match ctx.reserve.state.total_liquidity.checked_add(liquidity_amount) {
        Some(total) => total,
        None => {
            return Err(RequestError::Lending(LendingError::MathOverflow));
        },
    };
    let transfer = TokenTransferParams {
        source: ctx.source_liquidity.key,
        destination: ctx.dest_liquidity.key,
        authority: ctx.reserve.key,
        token_program: ctx.token_program,
        authority_signer_seeds: AuthoritySeeds {
            lending_market: ctx.reserve.state.lending_market,
            collateral_mint: ctx.reserve.state.collateral_mint,
            liquidity_mint: ctx.reserve.state.liquidity_mint,
            bump: ctx.reserve.state.bump,
        },
        amount: liquidity_amount,
    };
    ctx.obligation.state.output_amount = debt;
    ctx.reserve.state.total_liquidity = total_liquidity;
    Ok(transfer)
}

/// Why a request to repay `liquidity_amount` is turned down, if it is: the first of the
/// checks that fails, in this order. Offering more than is owed is no reason.
pub open spec fn repay_liquidity_rejection(
    ctx: RepayLiquidity,
    liquidity_amount: u64,
) -> Option<RequestError> {
    let reserve = ctx.reserve.state;
    let obligation = ctx.obligation.state;
    let source = ctx.source_liquidity.data@;
    let dest = ctx.dest_liquidity.data@;
    if obligation.owner != ctx.owner {
        Some(lending(LendingError::NotMatchOwnerAddress))
    } else if obligation.reserve != ctx.reserve.key {
        Some(lending(LendingError::NotMatchReserveAddress))
    } else if reserve.liquidity_account != ctx.dest_liquidity.key {
        Some(lending(LendingError::NotMatchLiquidityAccount))
    } else if !token_account_admitted(source) || !token_account_admitted(dest) {
        Some(RequestError::InvalidAccountData)
    } else if token_account_mint(source) != reserve.liquidity_mint@ {
        Some(lending(LendingError::NotMatchLiquidityMint))
    } else if token_account_mint(dest) != reserve.liquidity_mint@ {
        Some(lending(LendingError::NotMatchLiquidityMint))
    } else if reserve.total_liquidity < clamped(liquidity_amount, obligation.output_amount) {
        Some(lending(LendingError::MathOverflow))
    } else {
        None
    }
}

/// The records after a repayment that was admitted: the position's debt and the reserve's
/// total are down by what was really repaid.
pub open spec fn repay_liquidity_effect(ctx: RepayLiquidity, liquidity_amount: u64) -> RepayLiquidity {
    let real_amount = clamped(liquidity_amount, ctx.obligation.state.output_amount);
    RepayLiquidity {
        obligation: Record {
            key: ctx.obligation.key,
            state: Obligation {
                output_amount: (ctx.obligation.state.output_amount - real_amount) as u64,
                ..ctx.obligation.state
            },
        },
        reserve: Record {
            key: ctx.reserve.key,
            state: Reserve {
                total_liquidity: (ctx.reserve.state.total_liquidity - real_amount) as u64,
                ..ctx.reserve.state
            },
        },
        ..ctx
    }
}

/// The transfer that a repayment asks of the caller: from the caller's record to the
/// reserve's liquidity record, by the caller's own signature.
pub open spec fn repay_liquidity_transfer(
    ctx: RepayLiquidity,
    liquidity_amount: u64,
) -> TokenTransferParamsWithoutSeed {
    TokenTransferParamsWithoutSeed {
        source: ctx.source_liquidity.key,
        destination: ctx.dest_liquidity.key,
        authority: ctx.owner,
        token_program: ctx.token_program,
        amount: clamped(liquidity_amount, ctx.obligation.state.output_amount),
    }
}

/// Repays borrowed liquidity: as much as is offered, or all that is owed where more is
/// offered.
pub fn repay_liquidity(ctx: &mut RepayLiquidity, liquidity_amount: u64) -> (r: Result<
    TokenTransferParamsWithoutSeed,
    RequestError,
>)
    ensures
        match repay_liquidity_rejection(*old(ctx), liquidity_amount) {
            Some(e) => r == Err::<TokenTransferParamsWithoutSeed, RequestError>(e) && *final(ctx)
                == *old(ctx),
            None => r == Ok::<TokenTransferParamsWithoutSeed, RequestError>(
                repay_liquidity_transfer(*old(ctx), liquidity_amount),
            ) && *final(ctx) == repay_liquidity_effect(*old(ctx), liquidity_amount),
        },
{
    if !same_key(&ctx.obligation.state.owner, &ctx.owner) {
        return Err(RequestError::Lending(LendingError::NotMatchOwnerAddress));
    }
    if !same_key(&ctx.obligation.state.reserve, &ctx.reserve.key) {
        return Err(RequestError::Lending(LendingError::NotMatchReserveAddress));
    }
    if !same_key(&ctx.reserve.state.liquidity_account, &ctx.dest_liquidity.key) {
        return Err(RequestError::Lending(LendingError::NotMatchLiquidityAccount));
    }
    let source_liquidity = unpack_token_account(ctx.source_liquidity.data.as_slice())?;
    let dest_liquidity = unpack_token_account(ctx.dest_liquidity.data.as_slice())?;
    if !same_key(&source_liquidity.mint, &ctx.reserve.state.liquidity_mint) {
        return Err(RequestError::Lending(LendingError::NotMatchLiquidityMint));
    }
    if !same_key(&dest_liquidity.mint, &ctx.reserve.state.liquidity_mint) {
        return Err(RequestError::Lending(LendingError::NotMatchLiquidityMint));
    }
    let mut real_amount: u64 = liquidity_amount;
    if real_amount > ctx.obligation.state.output_amount {
        real_amount = ctx.obligation.state.output_amount;
    }
    let total_liquidity = match ctx.reserve.state.total_liquidity.checked_sub(real_amount) {
        Some(total) => total,
        None => {
            return Err(RequestError::Lending(LendingError::MathOverflow));
        },
    };
    let transfer = TokenTransferParamsWithoutSeed {
        source: ctx.source_liquidity.key,
        destination: ctx.dest_liquidity.key,
        authority: ctx.owner,
        token_program: ctx.token_program,
        amount: real_amount,
    };
    ctx.obligation.state.output_amount = ctx.obligation.state.output_amount - real_amount;
    ctx.reserve.state.total_liquidity = total_liquidity;
    Ok(transfer)
}

/// Why a request to pledge `collateral_amount` is turned down, if it is: the first of the
/// checks that fails, in this order.
pub open spec fn deposit_collateral_rejection(
    ctx: DepositCollateral,
    collateral_amount: u64,
) -> Option<RequestError> {
    let reserve = ctx.reserve.state;
    let obligation = ctx.obligation.state;
    let source = ctx.source_collateral.data@;
    let dest = ctx.dest_collateral.data@;
    if obligation.owner != ctx.owner {
        Some(lending(LendingError::NotMatchOwnerAddress))
    } else if obligation.reserve != ctx.reserve.key {
        Some(lending(LendingError::NotMatchReserveAddress))
    } else if reserve.collateral_account != ctx.dest_collateral.key {
        Some(lending(LendingError::NotMatchCollateralAccount))
    } else if !token_account_admitted(source) || !token_account_admitted(dest) {
        Some(RequestError::InvalidAccountData)
    } else if token_account_mint(source) != reserve.collateral_mint@ {
        Some(lending(LendingError::NotMatchCollateralMint))
    } else if token_account_mint(dest) != reserve.collateral_mint@ {
        Some(lending(LendingError::NotMatchCollateralMint))
    } else if obligation.input_amount + collateral_amount > u64::MAX || reserve.total_collateral
        + collateral_amount > u64::MAX {
        Some(lending(LendingError::MathOverflow))
    } else {
        None
    }
}

/// The records after a deposit that was admitted: the position's collateral and the
/// reserve's total are up by it.
pub open spec fn deposit_collateral_effect(
    ctx: DepositCollateral,
    collateral_amount: u64,
) -> DepositCollateral {
    DepositCollateral {
        obligation: Record {
            key: ctx.obligation.key,
            state: Obligation {
                input_amount: (ctx.obligation.state.input_amount + collateral_amount) as u64,
                ..ctx.obligation.state
            },
        },
        reserve: Record {
            key: ctx.reserve.key,
            state: Reserve {
                total_collateral: (ctx.reserve.state.total_collateral + collateral_amount) as u64,
                ..ctx.reserve.state
            },
        },
        ..ctx
    }
}

/// The transfer that a deposit asks of the caller: from the caller's record to the
/// reserve's collateral record, by the caller's own signature.
pub open spec fn deposit_collateral_transfer(
    ctx: DepositCollateral,
    collateral_amount: u64,
) -> TokenTransferParamsWithoutSeed {
    TokenTransferParamsWithoutSeed {
        source: ctx.source_collateral.key,
        destination: ctx.dest_collateral.key,
        authority: ctx.owner,
        token_program: ctx.token_program,
        amount: collateral_amount,
    }
}

/// Pledges collateral to a position.
pub fn deposit_collateral(ctx: &mut DepositCollateral, collateral_amount: u64) -> (r: Result<
    TokenTransferParamsWithoutSeed,
    RequestError,
>)
    ensures
        match deposit_collateral_rejection(*old(ctx), collateral_amount) {
            Some(e) => r == Err::<TokenTransferParamsWithoutSeed, RequestError>(e) && *final(ctx)
                == *old(ctx),
            None => r == Ok::<TokenTransferParamsWithoutSeed, RequestError>(
                deposit_collateral_transfer(*old(ctx), collateral_amount),
            ) && *final(ctx) == deposit_collateral_effect(*old(ctx), collateral_amount),
        },
{
    if !same_key(&ctx.obligation.state.owner, &ctx.owner) {
        return Err(RequestError::Lending(LendingError::NotMatchOwnerAddress));
    }
    if !same_key(&ctx.obligation.state.reserve, &ctx.reserve.key) {
        return Err(RequestError::Lending(LendingError::NotMatchReserveAddress));
    }
    if !same_key(&ctx.reserve.state.collateral_account, &ctx.dest_collateral.key) {
        return Err(RequestError::Lending(LendingError::NotMatchCollateralAccount));
    }
    let source_collateral = unpack_token_account(ctx.source_collateral.data.as_slice())?;
    let dest_collateral = unpack_token_account(ctx.dest_collateral.data.as_slice())?;
    if !same_key(&source_collateral.mint, &ctx.reserve.state.collateral_mint) {
        return Err(RequestError::Lending(LendingError::NotMatchCollateralMint));
    }
    if !same_key(&dest_collateral.mint, &ctx.reserve.state.collateral_mint) {
        return Err(RequestError::Lending(LendingError::NotMatchCollateralMint));
    }
    let input_amount = match ctx.obligation.state.input_amount.checked_add(collateral_amount) {
        Some(input) => input,
        None => {
            return Err(RequestError::Lending(LendingError::MathOverflow));
        },
    };
    let total_collateral = match ctx.reserve.state.total_collateral.checked_add(collateral_amount) {
        Some(total) => total,
        None => {
            return Err(RequestError::Lending(LendingError::MathOverflow));
        },
    };
    let transfer = TokenTransferParamsWithoutSeed {
        source: ctx.source_collateral.key,
        destination: ctx.dest_collateral.key,
        authority: ctx.owner,
        token_program: ctx.token_program,
        amount: collateral_amount,
    };
    ctx.obligation.state.input_amount = input_amount;
    ctx.reserve.state.total_collateral = total_collateral;
    Ok(transfer)
}

/// Opens a position of `ctx.owner` against `ctx.reserve`, with nothing pledged and nothing
/// owed.
pub fn init_obligation(ctx: &mut InitObligation, bump: u8) -> (r: Result<(), RequestError>)
    ensures
        r == Ok::<(), RequestError>(()),
        *final(ctx) == (InitObligation {
            obligation: Record {
                key: old(ctx).obligation.key,
                state: Obligation {
                    reserve: old(ctx).reserve,
                    owner: old(ctx).owner,
                    input_amount: 0,
                    output_amount: 0,
                    bump,
                },
            },
            ..*old(ctx)
        }),
{
    ctx.obligation.state.owner = ctx.owner;
    ctx.obligation.state.reserve = ctx.reserve;
    ctx.obligation.state.input_amount = 0;
    ctx.obligation.state.output_amount = 0;
    ctx.obligation.state.bump = bump;
    Ok(())
}

} // verus!
