//! What holds of the market whatever requests it serves.

use vstd::prelude::*;
use crate::accounts::{
    BorrowLiquidity,
    DepositCollateral,
    InitObligation,
    InitReserve,
    RepayLiquidity,
    SetMarketPrice,
    WithdrawCollateral,
};
use crate::error::{lending, LendingError, RequestError};
use crate::ledger::{
    token_account_admitted,
    token_account_amount,
    token_account_mint,
    token_account_owner,
    token_mint_decimals,
};
use crate::math::weighted_value_grows;
use crate::position::{
    borrow_liquidity_effect,
    borrow_liquidity_rejection,
    borrow_liquidity_transfer,
    ceiling_holds,
    deposit_collateral_effect,
    deposit_collateral_rejection,
    repay_liquidity_effect,
    repay_liquidity_rejection,
    repay_liquidity_transfer,
    withdraw_collateral_effect,
    withdraw_collateral_rejection,
    withdraw_collateral_transfer,
};
use crate::pubkey::Pubkey;
use crate::oracle::{answer_in, price_reading, PRICE_FEED_PREFIX};
use crate::registry::{
    administration_rejection,
    init_reserve_rejection,
    init_reserve_state,
    set_market_price_rejection,
};
use crate::state::{Obligation, Record, Reserve};

verus! {

/// What one position pledges to the reserve stored under `reserve`.
pub open spec fn pledged_by(position: Obligation, reserve: Pubkey) -> nat {
    if position.reserve == reserve {
        position.input_amount as nat
    } else {
        0
    }
}

/// What one position owes to the reserve stored under `reserve`.
pub open spec fn owed_by(position: Obligation, reserve: Pubkey) -> nat {
    if position.reserve == reserve {
        position.output_amount as nat
    } else {
        0
    }
}

/// The collateral that `positions` pledge to the reserve stored under `reserve`.
pub open spec fn pledged(positions: Seq<Obligation>, reserve: Pubkey) -> nat
    decreases positions.len(),
{
    if positions.len() == 0 {
        0
    } else {
        pledged(positions.drop_last(), reserve) + pledged_by(positions.last(), reserve)
    }
}

/// The liquidity that `positions` owe to the reserve stored under `reserve`.
pub open spec fn owed(positions: Seq<Obligation>, reserve: Pubkey) -> nat
    decreases positions.len(),
{
    if positions.len() == 0 {
        0
    } else {
        owed(positions.drop_last(), reserve) + owed_by(positions.last(), reserve)
    }
}

/// The reserve's totals are the sums over all positions held against it.
pub open spec fn books_balance(reserve: Record<Reserve>, positions: Seq<Obligation>) -> bool {
    &&& reserve.state.total_collateral == pledged(positions, reserve.key)
    &&& reserve.state.total_liquidity == owed(positions, reserve.key)
}

/// Replacing one position changes both sums by the difference between the new position
/// and the old one.
pub proof fn sums_after_update(
    positions: Seq<Obligation>,
    i: int,
    position: Obligation,
    reserve: Pubkey,
)
    requires
        0 <= i < positions.len(),
    ensures
        pledged(positions.update(i, position), reserve) + pledged_by(positions[i], reserve)
            == pledged(positions, reserve) + pledged_by(position, reserve),
        owed(positions.update(i, position), reserve) + owed_by(positions[i], reserve) == owed(
            positions,
            reserve,
        ) + owed_by(position, reserve),
    decreases positions.len(),
{
    let updated = positions.update(i, position);
    if i == positions.len() - 1 {
        assert(updated.drop_last() =~= positions.drop_last());
    } else {
        sums_after_update(positions.drop_last(), i, position, reserve);
        assert(updated.drop_last() =~= positions.drop_last().update(i, position));
    }
}

/// A reserve is created with balanced books, where no position against its address holds
/// anything yet.
pub proof fn created_reserve_balances(
    ctx: InitReserve,
    bump: u8,
    max_borrow_rate_numerator: u64,
    max_borrow_rate_denominator: u64,
    positions: Seq<Obligation>,
)
    requires
        init_reserve_rejection(ctx) is None,
        pledged(positions, ctx.reserve.key) == 0,
        owed(positions, ctx.reserve.key) == 0,
    ensures
        books_balance(
            Record {
                key: ctx.reserve.key,
                state: init_reserve_state(
                    ctx,
                    bump,
                    max_borrow_rate_numerator,
                    max_borrow_rate_denominator,
                ),
            },
            positions,
        ),
{
}

/// Opening a position keeps the books of every reserve balanced: the new position holds
/// nothing.
pub proof fn opened_position_keeps_books(
    reserve: Record<Reserve>,
    positions: Seq<Obligation>,
    ctx: InitObligation,
    bump: u8,
)
    requires
        books_balance(reserve, positions),
    ensures
        books_balance(
            reserve,
            positions.push(
                Obligation {
                    reserve: ctx.reserve,
                    owner: ctx.owner,
                    input_amount: 0,
                    output_amount: 0,
                    bump,
                },
            ),
        ),
{
    let opened = Obligation {
        reserve: ctx.reserve,
        owner: ctx.owner,
        input_amount: 0,
        output_amount: 0,
        bump,
    };
    assert(positions.push(opened).drop_last() =~= positions);
}

/// The books depend on a reserve's address and its two totals alone: requests that change
/// neither (activation, ceiling, prices, the operator's own transfers) keep them balanced.
pub proof fn books_rest_on_totals(
    before: Record<Reserve>,
    after: Record<Reserve>,
    positions: Seq<Obligation>,
)
    requires
        books_balance(before, positions),
        after.key == before.key,
        after.state.total_collateral == before.state.total_collateral,
        after.state.total_liquidity == before.state.total_liquidity,
    ensures
        books_balance(after, positions),
{
}

/// A deposit keeps the reserve's books balanced.
pub proof fn deposit_keeps_books(
    ctx: DepositCollateral,
    collateral_amount: u64,
    positions: Seq<Obligation>,
    i: int,
)
    requires
        0 <= i < positions.len(),
        positions[i] == ctx.obligation.state,
        books_balance(ctx.reserve, positions),
        deposit_collateral_rejection(ctx, collateral_amount) is None,
    ensures
        books_balance(
            deposit_collateral_effect(ctx, collateral_amount).reserve,
            positions.update(i, deposit_collateral_effect(ctx, collateral_amount).obligation.state),
        ),
{
    let after = deposit_collateral_effect(ctx, collateral_amount);
    sums_after_update(positions, i, after.obligation.state, ctx.reserve.key);
}

/// A withdrawal keeps the reserve's books balanced.
pub proof fn withdraw_keeps_books(
    ctx: WithdrawCollateral,
    collateral_amount: u64,
    positions: Seq<Obligation>,
    i: int,
)
    requires
        0 <= i < positions.len(),
        positions[i] == ctx.obligation.state,
        books_balance(ctx.reserve, positions),
        withdraw_collateral_rejection(ctx, collateral_amount) is None,
    ensures
        books_balance(
            withdraw_collateral_effect(ctx, collateral_amount).reserve,
            positions.update(
                i,
                withdraw_collateral_effect(ctx, collateral_amount).obligation.state,
            ),
        ),
{
    let after = withdraw_collateral_effect(ctx, collateral_amount);
    sums_after_update(positions, i, after.obligation.state, ctx.reserve.key);
}

/// A loan keeps the reserve's books balanced.
pub proof fn borrow_keeps_books(
    ctx: BorrowLiquidity,
    liquidity_amount: u64,
    positions: Seq<Obligation>,
    i: int,
)
    requires
        0 <= i < positions.len(),
        positions[i] == ctx.obligation.state,
        books_balance(ctx.reserve, positions),
        borrow_liquidity_rejection(ctx, liquidity_amount) is None,
    ensures
        books_balance(
            borrow_liquidity_effect(ctx, liquidity_amount).reserve,
            positions.update(i, borrow_liquidity_effect(ctx, liquidity_amount).obligation.state),
        ),
{
    let after = borrow_liquidity_effect(ctx, liquidity_amount);
    sums_after_update(positions, i, after.obligation.state, ctx.reserve.key);
}

/// A repayment keeps the reserve's books balanced.
pub proof fn repay_keeps_books(
    ctx: RepayLiquidity,
    liquidity_amount: u64,
    positions: Seq<Obligation>,
    i: int,
)
    requires
        0 <= i < positions.len(),
        positions[i] == ctx.obligation.state,
        books_balance(ctx.reserve, positions),
        repay_liquidity_rejection(ctx, liquidity_amount) is None,
    ensures
        books_balance(
            repay_liquidity_effect(ctx, liquidity_amount).reserve,
            positions.update(i, repay_liquidity_effect(ctx, liquidity_amount).obligation.state),
        ),
{
    let after = repay_liquidity_effect(ctx, liquidity_amount);
    sums_after_update(positions, i, after.obligation.state, ctx.reserve.key);
}

/// After a loan that was admitted, the position is within the reserve's ceiling.
pub proof fn borrow_within_ceiling(ctx: BorrowLiquidity, liquidity_amount: u64)
    requires
        borrow_liquidity_rejection(ctx, liquidity_amount) is None,
    ensures
        ceiling_holds(
            borrow_liquidity_effect(ctx, liquidity_amount).reserve.state,
            borrow_liquidity_effect(ctx, liquidity_amount).obligation.state.input_amount as nat,
            borrow_liquidity_effect(ctx, liquidity_amount).obligation.state.output_amount as nat,
            token_mint_decimals(ctx.liquidity_mint.data@),
            token_mint_decimals(ctx.collateral_mint.data@),
        ),
{
}

/// After a withdrawal that was admitted, the position is within the reserve's ceiling.
pub proof fn withdraw_within_ceiling(ctx: WithdrawCollateral, collateral_amount: u64)
    requires
        withdraw_collateral_rejection(ctx, collateral_amount) is None,
    ensures
        ceiling_holds(
            withdraw_collateral_effect(ctx, collateral_amount).reserve.state,
            withdraw_collateral_effect(ctx, collateral_amount).obligation.state.input_amount as nat,
            withdraw_collateral_effect(ctx, collateral_amount).obligation.state.output_amount as nat,
            token_mint_decimals(ctx.liquidity_mint.data@),
            token_mint_decimals(ctx.collateral_mint.data@),
        ),
{
}

/// A deposit leaves a position within the ceiling if it was: more collateral is never
/// worth less.
pub proof fn deposit_keeps_ceiling(
    ctx: DepositCollateral,
    collateral_amount: u64,
    liquidity_decimals: u8,
    collateral_decimals: u8,
)
    requires
        deposit_collateral_rejection(ctx, collateral_amount) is None,
        ceiling_holds(
            ctx.reserve.state,
            ctx.obligation.state.input_amount as nat,
            ctx.obligation.state.output_amount as nat,
            liquidity_decimals,
            collateral_decimals,
        ),
    ensures
        ceiling_holds(
            deposit_collateral_effect(ctx, collateral_amount).reserve.state,
            deposit_collateral_effect(ctx, collateral_amount).obligation.state.input_amount as nat,
            deposit_collateral_effect(ctx, collateral_amount).obligation.state.output_amount as nat,
            liquidity_decimals,
            collateral_decimals,
        ),
{
    let reserve = ctx.reserve.state;
    weighted_value_grows(
        ctx.obligation.state.input_amount as nat,
        (ctx.obligation.state.input_amount + collateral_amount) as nat,
        reserve.collateral_market_price as nat,
        reserve.max_borrow_rate_numerator as nat,
        (collateral_decimals + reserve.collateral_market_price_decimals) as nat,
    );
}

/// A repayment leaves a position within the ceiling if it was: less debt is never worth
/// more.
pub proof fn repay_keeps_ceiling(
    ctx: RepayLiquidity,
    liquidity_amount: u64,
    liquidity_decimals: u8,
    collateral_decimals: u8,
)
    requires
        repay_liquidity_rejection(ctx, liquidity_amount) is None,
        ceiling_holds(
            ctx.reserve.state,
            ctx.obligation.state.input_amount as nat,
            ctx.obligation.state.output_amount as nat,
            liquidity_decimals,
            collateral_decimals,
        ),
    ensures
        ceiling_holds(
            repay_liquidity_effect(ctx, liquidity_amount).reserve.state,
            repay_liquidity_effect(ctx, liquidity_amount).obligation.state.input_amount as nat,
            repay_liquidity_effect(ctx, liquidity_amount).obligation.state.output_amount as nat,
            liquidity_decimals,
            collateral_decimals,
        ),
{
    let reserve = ctx.reserve.state;
    let after = repay_liquidity_effect(ctx, liquidity_amount).obligation.state;
    weighted_value_grows(
        after.output_amount as nat,
        ctx.obligation.state.output_amount as nat,
        reserve.liquidity_market_price as nat,
        reserve.max_borrow_rate_denominator as nat,
        (liquidity_decimals + reserve.liquidity_market_price_decimals) as nat,
    );
}

/// A deposit followed by a withdrawal of the same amount, with nothing between them,
/// leaves the position and the reserve as they were.
pub proof fn deposit_then_withdraw_restores(
    deposit: DepositCollateral,
    withdraw: WithdrawCollateral,
    amount: u64,
)
    requires
        deposit_collateral_rejection(deposit, amount) is None,
        withdraw.obligation == deposit_collateral_effect(deposit, amount).obligation,
        withdraw.reserve == deposit_collateral_effect(deposit, amount).reserve,
        withdraw_collateral_rejection(withdraw, amount) is None,
    ensures
        withdraw_collateral_effect(withdraw, amount).obligation == deposit.obligation,
        withdraw_collateral_effect(withdraw, amount).reserve == deposit.reserve,
        withdraw_collateral_transfer(withdraw, amount).amount == amount,
{
}

/// A loan followed by a repayment of the same amount, with nothing between them, leaves
/// the position and the reserve as they were.
pub proof fn borrow_then_repay_restores(borrow: BorrowLiquidity, repay: RepayLiquidity, amount: u64)
    requires
        borrow_liquidity_rejection(borrow, amount) is None,
        repay.obligation == borrow_liquidity_effect(borrow, amount).obligation,
        repay.reserve == borrow_liquidity_effect(borrow, amount).reserve,
        repay_liquidity_rejection(repay, amount) is None,
    ensures
        repay_liquidity_effect(repay, amount).obligation == borrow.obligation,
        repay_liquidity_effect(repay, amount).reserve == borrow.reserve,
        repay_liquidity_transfer(repay, amount).amount == amount,
        borrow_liquidity_transfer(borrow, amount).amount == amount,
{
}

/// Asking to withdraw more than the position records is asking for all of it: as long as
/// the reserve's holding record holds what is asked for, the request ends as a request
/// for exactly the recorded collateral does.
pub proof fn withdraw_clamps(ctx: WithdrawCollateral, collateral_amount: u64)
    requires
        collateral_amount >= ctx.obligation.state.input_amount,
        collateral_amount <= token_account_amount(ctx.source_collateral.data@),
    ensures
        withdraw_collateral_rejection(ctx, collateral_amount) == withdraw_collateral_rejection(
            ctx,
            ctx.obligation.state.input_amount,
        ),
        withdraw_collateral_effect(ctx, collateral_amount) == withdraw_collateral_effect(
            ctx,
            ctx.obligation.state.input_amount,
        ),
        withdraw_collateral_transfer(ctx, collateral_amount) == withdraw_collateral_transfer(
            ctx,
            ctx.obligation.state.input_amount,
        ),
{
}

/// Offering to repay more than is owed is offering all that is owed: the request ends as
/// a request for exactly the recorded debt does.
pub proof fn repay_clamps(ctx: RepayLiquidity, liquidity_amount: u64)
    requires
        liquidity_amount >= ctx.obligation.state.output_amount,
    ensures
        repay_liquidity_rejection(ctx, liquidity_amount) == repay_liquidity_rejection(
            ctx,
            ctx.obligation.state.output_amount,
        ),
        repay_liquidity_effect(ctx, liquidity_amount) == repay_liquidity_effect(
            ctx,
            ctx.obligation.state.output_amount,
        ),
        repay_liquidity_transfer(ctx, liquidity_amount) == repay_liquidity_transfer(
            ctx,
            ctx.obligation.state.output_amount,
        ),
{
}

/// No reserve is created over a collateral record that another authority than the
/// reserve's own controls: whatever else the request holds, it is turned down.
pub proof fn foreign_collateral_record_creates_nothing(ctx: InitReserve)
    requires
        token_account_owner(ctx.collateral_account.data@) != ctx.reserve.key@,
    ensures
        init_reserve_rejection(ctx) is Some,
{
}

/// Where the ledger admits both holding records, each holds the asset that the request
/// names and the market trusts the price feed, a collateral record that another authority
/// controls fails the request with a relationship mismatch: for the market's owner it is
/// `NotMatchCollateralAccount`.
pub proof fn foreign_collateral_record_is_a_mismatch(ctx: InitReserve)
    requires
        token_account_admitted(ctx.liquidity_account.data@),
        token_account_admitted(ctx.collateral_account.data@),
        token_account_mint(ctx.liquidity_account.data@) == ctx.liquidity_mint@,
        token_account_mint(ctx.collateral_account.data@) == ctx.collateral_mint@,
        ctx.lending_market.state.oracle_program_id == ctx.oracle_price.owner,
        token_account_owner(ctx.collateral_account.data@) != ctx.reserve.key@,
    ensures
        init_reserve_rejection(ctx) matches Some(RequestError::Lending(e))
            && e.is_relationship_mismatch(),
        ctx.lending_market.state.owner == ctx.owner ==> init_reserve_rejection(ctx) == Some(
            lending(LendingError::NotMatchCollateralAccount),
        ),
{
}

/// A price feed whose record carries no answer gives no price, whoever owns it and
/// whichever issuer the market trusts.
pub proof fn feed_without_answer_gives_no_price(feed_owner: Pubkey, data: Seq<u8>, issuer: Pubkey)
    requires
        answer_in(data.subrange(0, PRICE_FEED_PREFIX as int)) is None,
    ensures
        price_reading(feed_owner, data, issuer) == Err::<(u128, u8), LendingError>(
            LendingError::InvalidOracleConfig,
        ),
{
}

/// A price feed whose record carries no answer never refreshes a reserve's prices: the
/// request is turned down, and for the owner of the reserve's market the failure is
/// `InvalidOracleConfig`.
pub proof fn feed_without_answer_keeps_prices(ctx: SetMarketPrice)
    requires
        answer_in(ctx.oracle_price.data@.subrange(0, PRICE_FEED_PREFIX as int)) is None,
    ensures
        set_market_price_rejection(ctx) is Some,
        administration_rejection(ctx.owner, ctx.lending_market, ctx.reserve.state) is None
            ==> set_market_price_rejection(ctx) == Some(
            lending(LendingError::InvalidOracleConfig),
        ),
{
}

} // verus!
