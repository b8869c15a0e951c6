//! Values of positions in a common unit, and the collateralisation inequality.

use vstd::prelude::*;
use crate::error::LendingError;

verus! {

/// The largest exponent for which a power of ten fits 128 bits.
pub const MAX_SCALE: u32 = 38;

/// Ten to the power `e`.
pub open spec fn pow10(e: nat) -> nat
    decreases e,
{
    if e == 0 {
        1
    } else {
        10 * pow10((e - 1) as nat)
    }
}

/// The value of `amount` units at `price`, weighted by one term of the ceiling and brought down
/// by `scale` decimal places: the product is formed first and divided last, rounding down.
pub open spec fn weighted_value(amount: nat, price: nat, term: nat, scale: nat) -> nat {
    (amount * price * term) / pow10(scale)
}

/// Whether `weighted_value` can be computed in 128 bits: both products and the divisor fit.
pub open spec fn value_fits(amount: nat, price: nat, term: nat, scale: nat) -> bool {
    &&& amount * price <= u128::MAX
    &&& amount * price * term <= u128::MAX
    &&& scale <= MAX_SCALE
}

/// The collateralisation inequality: debt weighted by the ceiling's denominator is worth no
/// more than collateral weighted by its numerator.
pub open spec fn within_ceiling(
    debt: nat,
    debt_price: nat,
    denominator: nat,
    debt_scale: nat,
    collateral: nat,
    collateral_price: nat,
    numerator: nat,
    collateral_scale: nat,
) -> bool {
    weighted_value(debt, debt_price, denominator, debt_scale) <= weighted_value(
        collateral,
        collateral_price,
        numerator,
        collateral_scale,
    )
}

/// Powers of ten are positive and grow with the exponent.
pub proof fn pow10_grows(a: nat, b: nat)
    requires
        a <= b,
    ensures
        0 < pow10(a) <= pow10(b),
    decreases b,
{
    if b == 0 {
    } else if a == b {
        pow10_grows(0, (b - 1) as nat);
    } else {
        pow10_grows(a, (b - 1) as nat);
    }
}

/// More of a balance is never worth less, at the same price, weight and scale.
pub proof fn weighted_value_grows(less: nat, more: nat, price: nat, term: nat, scale: nat)
    requires
        less <= more,
    ensures
        weighted_value(less, price, term, scale) <= weighted_value(more, price, term, scale),
{
    pow10_grows(0, scale);
    assert(less * price * term <= more * price * term) by (nonlinear_arith)
        requires
            less <= more,
    ;
    vstd::arithmetic::div_mod::lemma_div_is_ordered(
        (less * price * term) as int,
        (more * price * term) as int,
        pow10(scale) as int,
    );
}

/// Ten to the thirty-eighth is the last power of ten below 2^128.
pub proof fn pow10_limit()
    ensures
        pow10(38) == 100000000000000000000000000000000000000,
        pow10(38) <= u128::MAX,
        pow10(39) > u128::MAX,
{
    reveal_with_fuel(pow10, 40);
}

/// Ten to the power `exp`, where it fits 128 bits.
pub fn checked_pow10(exp: u32) -> (r: Option<u128>)
    ensures
        exp <= MAX_SCALE ==> r == Some(pow10(exp as nat) as u128) && pow10(exp as nat) <= u128::MAX,
        exp > MAX_SCALE ==> r is None && pow10(exp as nat) > u128::MAX,
{
    proof {
        pow10_limit();
    }
    if exp > MAX_SCALE {
        proof {
            pow10_grows(39, exp as nat);
        }
        return None;
    }
    let mut power: u128 = 1;
    let mut i: u32 = 0;
    while i < exp
        invariant
            i <= exp <= MAX_SCALE,
            power == pow10(i as nat),
            pow10(38) <= u128::MAX,
        decreases exp - i,
    {
        proof {
            pow10_grows((i + 1) as nat, 38);
        }
        power = power * 10;
        i += 1;
    }
    proof {
        pow10_grows(exp as nat, 38);
    }
    Some(power)
}

/// The weighted value of a balance, or `MathOverflow` where 128 bits do not hold a step of it.
///
/// The scale is the sum of the asset's own decimal places and those of its price.
pub fn checked_weighted_value(
    amount: u64,
    price: u128,
    term: u64,
    mint_decimals: u8,
    price_decimals: u8,
) -> (r: Result<u128, LendingError>)
    ensures
        value_fits(amount as nat, price as nat, term as nat, (mint_decimals + price_decimals) as nat)
            ==> r is Ok && r->Ok_0 == weighted_value(
            amount as nat,
            price as nat,
            term as nat,
            (mint_decimals + price_decimals) as nat,
        ),
        !value_fits(amount as nat, price as nat, term as nat, (mint_decimals + price_decimals) as nat)
            ==> r == Err::<u128, LendingError>(LendingError::MathOverflow),
{
    let priced = match widen(amount).checked_mul(price) {
        Some(p) => p,
        None => {
            return Err(LendingError::MathOverflow);
        },
    };
    let weighted = match priced.checked_mul(widen(term)) {
        Some(w) => w,
        None => {
            return Err(LendingError::MathOverflow);
        },
    };
    let scale: u32 = widen_scale(mint_decimals) + widen_scale(price_decimals);
    let divisor = match checked_pow10(scale) {
        Some(d) => d,
        None => {
            return Err(LendingError::MathOverflow);
        },
    };
    proof {
        pow10_grows(0, scale as nat);
        let product = amount as nat * price as nat * term as nat;
        let d = pow10(scale as nat);
        assert(product == weighted);
        assert(0 <= product / d <= product) by (nonlinear_arith)
            requires
                0 < d,
                0 <= product,
        ;
    }
    Ok(weighted / divisor)
}

/// A 64-bit amount in 128 bits.
fn widen(x: u64) -> (r: u128)
    ensures
        r == x,
{
    x as u128
}

/// A count of decimal places in 32 bits.
fn widen_scale(x: u8) -> (r: u32)
    ensures
        r == x,
{
    x as u32
}

} // verus!
