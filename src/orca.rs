use vstd::prelude::*;

use crate::liquidity_math::div_rounded;
use crate::tick_math::{MAX_TICK_INDEX, MIN_TICK_INDEX};
use crate::wide::{q128, q64};

verus! {

/// The Q64.64 square root of the price at a tick, as the market's range math gives it.
pub uninterp spec fn sqrt_price_at_tick(tick_index: i32) -> u128;

/// Relies on `orca_whirlpools_core::tick_index_to_sqrt_price`: the sqrt price at a tick, a
/// function of the tick alone, exact within the tick bounds.
#[verifier::external_body]
pub(crate) fn sqrt_price_from_tick_index(tick_index: i32) -> (r: u128)
    requires
        MIN_TICK_INDEX <= tick_index <= MAX_TICK_INDEX,
    ensures
        r == sqrt_price_at_tick(tick_index),
{
    orca_whirlpools_core::tick_index_to_sqrt_price(tick_index)
}

/// Relies on `orca_whirlpools_core::MIN_SQRT_PRICE`: the lowest sqrt price a pool reaches.
#[verifier::external_body]
pub(crate) fn min_sqrt_price() -> (r: u128)
    ensures
        r == 4295048016u128,
{
    orca_whirlpools_core::MIN_SQRT_PRICE
}

/// Relies on `orca_whirlpools_core::MAX_SQRT_PRICE`: the highest sqrt price a pool reaches.
#[verifier::external_body]
pub(crate) fn max_sqrt_price() -> (r: u128)
    ensures
        r == 79226673515401279992447579055u128,
{
    orca_whirlpools_core::MAX_SQRT_PRICE
}

/// The lower and the higher of two sqrt prices.
pub open spec fn ordered_prices(price_a: int, price_b: int) -> (int, int) {
    if price_a < price_b {
        (price_a, price_b)
    } else {
        (price_b, price_a)
    }
}

/// Base token amount that `liquidity` holds between two sqrt prices:
/// `((liquidity * (upper - lower)) << 64) / (lower * upper)`, where the shift is taken
/// modulo 2^256, rounded down or up.
pub open spec fn amount_delta_a(price_a: int, price_b: int, liquidity: int, round_up: bool) -> int {
    let (lower, upper) = ordered_prices(price_a, price_b);
    div_rounded((liquidity * (upper - lower) * q64()) % (q128() * q128()), lower * upper, round_up)
}

/// Quote token amount that `liquidity` holds between two sqrt prices:
/// `(liquidity * (upper - lower)) >> 64`, rounded down or up.
pub open spec fn amount_delta_b(price_a: int, price_b: int, liquidity: int, round_up: bool) -> int {
    let (lower, upper) = ordered_prices(price_a, price_b);
    div_rounded(liquidity * (upper - lower), q64(), round_up)
}

/// Relies on `orca_whirlpools_core::try_get_amount_delta_a`: the base token amount of
/// `amount_delta_a`, which fails only when it exceeds `u64::MAX` (a zero price would
/// divide by zero).
#[verifier::external_body]
pub(crate) fn try_get_amount_delta_a(
    sqrt_price_1: u128,
    sqrt_price_2: u128,
    liquidity: u128,
    round_up: bool,
) -> (r: Option<u64>)
    requires
        sqrt_price_1 > 0,
        sqrt_price_2 > 0,
    ensures
        amount_delta_a(sqrt_price_1 as int, sqrt_price_2 as int, liquidity as int, round_up)
            <= u64::MAX ==> r == Some(
            amount_delta_a(sqrt_price_1 as int, sqrt_price_2 as int, liquidity as int, round_up) as u64,
        ),
        amount_delta_a(sqrt_price_1 as int, sqrt_price_2 as int, liquidity as int, round_up)
            > u64::MAX ==> r is None,
{
    orca_whirlpools_core::try_get_amount_delta_a(sqrt_price_1, sqrt_price_2, liquidity, round_up).ok()
}

/// Relies on `orca_whirlpools_core::try_get_amount_delta_b`: the quote token amount of
/// `amount_delta_b`, which fails only when it exceeds `u64::MAX`.
#[verifier::external_body]
pub(crate) fn try_get_amount_delta_b(
    sqrt_price_1: u128,
    sqrt_price_2: u128,
    liquidity: u128,
    round_up: bool,
) -> (r: Option<u64>)
    ensures
        amount_delta_b(sqrt_price_1 as int, sqrt_price_2 as int, liquidity as int, round_up)
            <= u64::MAX ==> r == Some(
            amount_delta_b(sqrt_price_1 as int, sqrt_price_2 as int, liquidity as int, round_up) as u64,
        ),
        amount_delta_b(sqrt_price_1 as int, sqrt_price_2 as int, liquidity as int, round_up)
            > u64::MAX ==> r is None,
{
    orca_whirlpools_core::try_get_amount_delta_b(sqrt_price_1, sqrt_price_2, liquidity, round_up).ok()
}

} // verus!
