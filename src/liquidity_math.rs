use vstd::prelude::*;

use crate::errors::SurfError;
use crate::orca::{amount_delta_a, amount_delta_b, try_get_amount_delta_a, try_get_amount_delta_b};
use crate::wide::{div_rem_wide, mul_wide, mul_wide_u64, q128, q64};

verus! {

/// `n / d`, plus one when asked to round up and `d` does not divide `n`.
pub open spec fn div_rounded(n: int, d: int, round_up: bool) -> int {
    if round_up && n % d != 0 {
        n / d + 1
    } else {
        n / d
    }
}

/// Liquidity that a quote token amount provides across a range:
/// `(amount << 64) / (upper - lower)`, rounded down or up.
pub fn get_liquidity_from_quote_token(
    amount: u64,
    sqrt_price_lower: u128,
    sqrt_price_upper: u128,
    round_up: bool,
) -> (r: u128)
    requires
        sqrt_price_lower < sqrt_price_upper,
    ensures
        r == div_rounded(amount * q64(), sqrt_price_upper - sqrt_price_lower, round_up),
{
    let numerator = (amount as u128) * 0x1_0000_0000_0000_0000u128;
    let denominator = sqrt_price_upper - sqrt_price_lower;
    proof {
        assert(numerator / denominator <= numerator) by (nonlinear_arith)
            requires
                numerator >= 0,
                denominator >= 1,
        ;
    }
    if round_up && numerator % denominator > 0 {
        numerator / denominator + 1
    } else {
        numerator / denominator
    }
}

/// The Q64.64 quotient behind the liquidity a base token amount provides across a range:
/// `lower * upper * amount / (upper - lower)`.
pub open spec fn base_liquidity_x64(amount: int, lower: int, upper: int) -> int {
    lower * upper * amount / (upper - lower)
}

/// Liquidity that a base token amount provides across a range:
/// `(lower * upper * amount / (upper - lower)) >> 64`, computed with a 256-bit intermediate,
/// plus one when asked to round up and the division left a remainder. Fails with
/// `BaseTokenOverflow` when the quotient before the shift does not fit in 128 bits.
pub fn get_liquidity_from_base_token(
    amount: u64,
    sqrt_price_lower: u128,
    sqrt_price_upper: u128,
    round_up: bool,
) -> (r: Result<u128, SurfError>)
    requires
        sqrt_price_lower < sqrt_price_upper,
    ensures
        ({
            let range = sqrt_price_upper - sqrt_price_lower;
            let product = sqrt_price_lower * sqrt_price_upper * amount;
            let quotient = base_liquidity_x64(amount as int, sqrt_price_lower as int, sqrt_price_upper as int);
            if quotient >= q128() {
                r == Err::<u128, SurfError>(SurfError::BaseTokenOverflow)
            } else if round_up && product % range != 0 {
                r == Ok::<u128, SurfError>((quotient / q64() + 1) as u128)
            } else {
                r == Ok::<u128, SurfError>((quotient / q64()) as u128)
            }
        }),
{
    let range = sqrt_price_upper - sqrt_price_lower;
    let bounds_product = mul_wide(sqrt_price_lower, sqrt_price_upper);
    let ghost product: int = sqrt_price_lower * sqrt_price_upper * amount;
    let ghost quotient: int = product / (range as int);
    proof {
        assert(bounds_product.value() * amount == product);
    }
    let full = match mul_wide_u64(bounds_product, amount) {
        None => {
            proof {
                assert(quotient >= q128()) by (nonlinear_arith)
                    requires
                        product >= q128() * q128(),
                        quotient == product / (range as int),
                        0 < range < q128(),
                ;
            }
            return Err(SurfError::BaseTokenOverflow);
        },
        Some(w) => w,
    };
    proof {
        crate::wide::lemma_quotient_fits(full.hi as int, full.lo as int, range as int);
    }
    if full.hi >= range {
        return Err(SurfError::BaseTokenOverflow);
    }
    let (q, rem) = div_rem_wide(full, range);
    let shifted = q / 0x1_0000_0000_0000_0000u128;
    if round_up && rem != 0 {
        Ok(shifted + 1)
    } else {
        Ok(shifted)
    }
}

/// Base token amount that `liquidity` holds between two sqrt prices, as the market's
/// range math gives it. Fails with `TokenMaxExceeded` past `u64::MAX`.
pub fn get_amount_delta_a_wrapped(
    sqrt_price_1: u128,
    sqrt_price_2: u128,
    liquidity: u128,
    round_up: bool,
) -> (r: Result<u64, SurfError>)
    requires
        sqrt_price_1 > 0,
        sqrt_price_2 > 0,
    ensures
        ({
            let amount = amount_delta_a(sqrt_price_1 as int, sqrt_price_2 as int, liquidity as int, round_up);
            if amount <= u64::MAX {
                r == Ok::<u64, SurfError>(amount as u64)
            } else {
                r == Err::<u64, SurfError>(SurfError::TokenMaxExceeded)
            }
        }),
{
    match try_get_amount_delta_a(sqrt_price_1, sqrt_price_2, liquidity, round_up) {
        None => Err(SurfError::TokenMaxExceeded),
        Some(amount) => Ok(amount),
    }
}

/// Quote token amount that `liquidity` holds between two sqrt prices, as the market's
/// range math gives it. Fails with `TokenMaxExceeded` past `u64::MAX`.
pub fn get_amount_delta_b_wrapped(
    sqrt_price_1: u128,
    sqrt_price_2: u128,
    liquidity: u128,
    round_up: bool,
) -> (r: Result<u64, SurfError>)
    ensures
        ({
            let amount = amount_delta_b(sqrt_price_1 as int, sqrt_price_2 as int, liquidity as int, round_up);
            if amount <= u64::MAX {
                r == Ok::<u64, SurfError>(amount as u64)
            } else {
                r == Err::<u64, SurfError>(SurfError::TokenMaxExceeded)
            }
        }),
{
    match try_get_amount_delta_b(sqrt_price_1, sqrt_price_2, liquidity, round_up) {
        None => Err(SurfError::TokenMaxExceeded),
        Some(amount) => Ok(amount),
    }
}

/// Token amounts, as (base, quote) and rounded up, that `liquidity_input` needs at the
/// current sqrt price within a position's range: base from the current price to the
/// upper bound, quote from the lower bound to the current price. Fails with
/// `TokenMaxExceeded` when either passes `u64::MAX`.
pub fn get_whirlpool_input_tokens_deltas(
    liquidity_input: u128,
    current_sqrt_price: u128,
    upper_sqrt_price: u128,
    lower_sqrt_price: u128,
) -> (r: Result<(u64, u64), SurfError>)
    requires
        current_sqrt_price > 0,
        upper_sqrt_price > 0,
    ensures
        ({
            let base = amount_delta_a(current_sqrt_price as int, upper_sqrt_price as int, liquidity_input as int, true);
            let quote = amount_delta_b(lower_sqrt_price as int, current_sqrt_price as int, liquidity_input as int, true);
            if base <= u64::MAX && quote <= u64::MAX {
                r == Ok::<(u64, u64), SurfError>((base as u64, quote as u64))
            } else {
                r == Err::<(u64, u64), SurfError>(SurfError::TokenMaxExceeded)
            }
        }),
{
    let base = get_amount_delta_a_wrapped(current_sqrt_price, upper_sqrt_price, liquidity_input, true)?;
    let quote = get_amount_delta_b_wrapped(lower_sqrt_price, current_sqrt_price, liquidity_input, true)?;
    Ok((base, quote))
}

} // verus!
