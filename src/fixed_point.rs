use vstd::prelude::*;

use crate::errors::SurfError;
use crate::wide::{mul_div_floor, q128, q64};

verus! {

/// Growth per unit of principal, in Q64.64, when `interest` accrued on `total`.
pub open spec fn interest_per_unit_of(total: int, interest: int) -> int {
    interest * q64() / total
}

/// The share of a Q64.64 per-unit growth owed to `amount` units, rounded down.
pub open spec fn user_interest_of(amount: int, per_unit: int) -> int {
    amount * per_unit / q64()
}

/// Difference of two growth counters that wrap at 2^128.
pub open spec fn growth_delta(current: int, checkpoint: int) -> int {
    if current >= checkpoint {
        current - checkpoint
    } else {
        current - checkpoint + q128()
    }
}

/// `amount`'s pro-rata share of `after` when the pool held `before`, rounded down.
pub open spec fn pro_rata(amount: int, before: int, after: int) -> int {
    amount * after / before
}

/// Whether moving a pool of `before` by `diff` can be applied to a holder of `amount`
/// without leaving `[0, max]`.
pub open spec fn rebalance_fits(amount: int, before: int, diff: int, max: int) -> bool {
    diff == 0 || (before > 0 && 0 <= before + diff <= max && pro_rata(amount, before, before
        + diff) <= max)
}

/// What a holder of `amount` holds after the pool moved from `before` by `diff`.
pub open spec fn rebalanced(amount: int, before: int, diff: int) -> int {
    if diff == 0 {
        amount
    } else {
        pro_rata(amount, before, before + diff)
    }
}

/// Q64.64 interest per unit of principal: `(global_interest << 64) / global_total`.
/// Fails with `MathError` when the interest exceeds the principal or the principal is zero.
pub fn calculate_interest_per_unit(global_total: u64, global_interest: u64) -> (r: Result<
    u128,
    SurfError,
>)
    ensures
        global_total == 0 || global_total < global_interest ==> r == Err::<u128, SurfError>(
            SurfError::MathError,
        ),
        0 < global_total && global_interest <= global_total ==> r == Ok::<u128, SurfError>(
            interest_per_unit_of(global_total as int, global_interest as int) as u128,
        ),
        r is Ok ==> r->Ok_0 <= q64(),
{
    if global_total == 0 || global_total < global_interest {
        return Err(SurfError::MathError);
    }
    let shifted = (global_interest as u128) * 0x1_0000_0000_0000_0000u128;
    let per_unit = shifted / (global_total as u128);
    proof {
        assert(per_unit <= q64()) by (nonlinear_arith)
            requires
                per_unit == (shifted as int) / (global_total as int),
                shifted == global_interest * q64(),
                global_interest <= global_total,
                global_total > 0,
        ;
    }
    Ok(per_unit)
}

/// Interest owed to `user_total` units at `interest_per_unit` (Q64.64), rounded down.
/// Fails with `MathError` when the result does not fit in a `u64`.
pub fn calculate_user_interest(user_total: u64, interest_per_unit: u128) -> (r: Result<
    u64,
    SurfError,
>)
    ensures
        user_total * interest_per_unit < q128() ==> r == Ok::<u64, SurfError>(
            user_interest_of(user_total as int, interest_per_unit as int) as u64,
        ),
        user_total * interest_per_unit >= q128() ==> r == Err::<u64, SurfError>(
            SurfError::MathError,
        ),
{
    match (user_total as u128).checked_mul(interest_per_unit) {
        None => Err(SurfError::MathError),
        Some(product) => {
            let interest = product / 0x1_0000_0000_0000_0000u128;
            Ok(interest as u64)
        },
    }
}

/// Fee owed to `liquidity` units for a Q64.64 growth `delta`: `(delta * liquidity) >> 64`,
/// or `None` when the product overflows 128 bits (the result would not fit in a `u64`).
pub fn checked_mul_shift_right(delta: u128, liquidity: u128) -> (r: Option<u64>)
    ensures
        delta * liquidity < q128() ==> r == Some(user_interest_of(liquidity as int, delta as int) as u64),
        delta * liquidity >= q128() ==> r is None,
{
    match delta.checked_mul(liquidity) {
        None => None,
        Some(product) => {
            proof {
                assert(delta * liquidity == liquidity * delta) by (nonlinear_arith);
            }
            Some((product / 0x1_0000_0000_0000_0000u128) as u64)
        },
    }
}

/// Wrapping difference of two growth counters.
pub fn growth_delta_of(current: u128, checkpoint: u128) -> (r: u128)
    ensures
        r == growth_delta(current as int, checkpoint as int),
{
    current.wrapping_sub(checkpoint)
}

/// A participant's amount after the pool's amount `global_amount` moved by `global_diff`:
/// the participant keeps its share, `user_amount * (global_amount + global_diff) / global_amount`,
/// rounded down. A zero diff leaves the amount as it is. Fails with `MathError` when the
/// pool would leave the `u64` range, the pool was empty, or the result does not fit.
pub fn calculate_user_amount_diff(global_amount: u64, global_diff: i64, user_amount: u64) -> (r:
    Result<u64, SurfError>)
    ensures
        rebalance_fits(user_amount as int, global_amount as int, global_diff as int, u64::MAX as int)
            ==> r == Ok::<u64, SurfError>(
            rebalanced(user_amount as int, global_amount as int, global_diff as int) as u64,
        ),
        !rebalance_fits(user_amount as int, global_amount as int, global_diff as int, u64::MAX as int)
            ==> r == Err::<u64, SurfError>(SurfError::MathError),
{
    if global_diff == 0 {
        return Ok(user_amount);
    }
    if global_amount == 0 {
        return Err(SurfError::MathError);
    }
    let new_global: i128 = global_amount as i128 + global_diff as i128;
    if new_global < 0 || new_global > u64::MAX as i128 {
        return Err(SurfError::MathError);
    }
    proof {
        assert(user_amount * new_global <= u64::MAX * u64::MAX) by (nonlinear_arith)
            requires
                0 <= user_amount <= u64::MAX,
                0 <= new_global <= u64::MAX,
        ;
    }
    let product: u128 = (user_amount as u128) * (new_global as u128);
    let amount: u128 = product / (global_amount as u128);
    if amount > u64::MAX as u128 {
        return Err(SurfError::MathError);
    }
    Ok(amount as u64)
}

/// A participant's liquidity after the pool's liquidity `global_liquidity` moved by
/// `global_diff`, computed with a 256-bit intermediate product. Fails with
/// `LiquidityDiffTooHigh` when the pool would leave the `u128` range, the pool was empty,
/// or the result does not fit.
pub fn calculate_user_liquidity(global_liquidity: u128, global_diff: i128, user_liquidity: u128) -> (r:
    Result<u128, SurfError>)
    ensures
        rebalance_fits(user_liquidity as int, global_liquidity as int, global_diff as int, u128::MAX as int)
            ==> r == Ok::<u128, SurfError>(
            rebalanced(user_liquidity as int, global_liquidity as int, global_diff as int) as u128,
        ),
        !rebalance_fits(user_liquidity as int, global_liquidity as int, global_diff as int, u128::MAX as int)
            ==> r == Err::<u128, SurfError>(SurfError::LiquidityDiffTooHigh),
{
    if global_diff == 0 {
        return Ok(user_liquidity);
    }
    if global_liquidity == 0 {
        return Err(SurfError::LiquidityDiffTooHigh);
    }
    let new_global = match global_liquidity.checked_add_signed(global_diff) {
        None => {
            return Err(SurfError::LiquidityDiffTooHigh);
        },
        Some(v) => v,
    };
    match mul_div_floor(user_liquidity, new_global, global_liquidity) {
        None => Err(SurfError::LiquidityDiffTooHigh),
        Some(v) => Ok(v),
    }
}

} // verus!
