use vstd::prelude::*;

use crate::errors::SurfError;
use crate::orca::{sqrt_price_at_tick, sqrt_price_from_tick_index};
use crate::tick_math::{
    get_initializable_tick_index, initializable_tick, MAX_TICK_INDEX, MIN_TICK_INDEX,
};

verus! {

/// Smallest full range of the market position, in ticks.
pub const MIN_FULL_TICK_RANGE: u32 = 400;

/// Smallest working range, in ticks.
pub const MIN_VAULT_TICK_RANGE: u32 = 200;

/// Smallest hedge range, in ticks.
pub const MIN_HEDGE_TICK_RANGE: u32 = 20;

/// A price range by its tick bounds and their sqrt prices.
#[derive(Clone, Copy, Debug)]
pub struct RangeBounds {
    pub upper_tick_index: i32,
    pub lower_tick_index: i32,
    pub upper_sqrt_price: u128,
    pub lower_sqrt_price: u128,
}

/// The bounds `tick_range / 2` ticks above and below `current_tick`, as (upper, lower).
pub open spec fn range_around(current_tick: int, tick_range: int) -> (int, int) {
    (current_tick + tick_range / 2, current_tick - tick_range / 2)
}

/// The tick bounds `tick_range / 2` ticks above and below `current_tick`, as (upper, lower).
pub fn calculate_range_bounds(current_tick: i32, tick_range: i32) -> (r: (i32, i32))
    requires
        tick_range >= 0,
        i32::MIN <= current_tick - tick_range / 2,
        current_tick + tick_range / 2 <= i32::MAX,
    ensures
        r.0 == range_around(current_tick as int, tick_range as int).0,
        r.1 == range_around(current_tick as int, tick_range as int).1,
{
    let upper_tick = current_tick + tick_range / 2;
    let lower_tick = current_tick - tick_range / 2;
    (upper_tick, lower_tick)
}

/// The configured ranges nest: the full range is at least 400 ticks, the working range at
/// least 200 ticks and at most half the full range, the hedge range at least 20 ticks and
/// at most the working range. Fails with the error of the first rule broken.
pub fn validate_tick_ranges(full_tick_range: u32, vault_tick_range: u32, hedge_tick_range: u32) -> (r:
    Result<(), SurfError>)
    ensures
        full_tick_range < MIN_FULL_TICK_RANGE ==> r == Err::<(), SurfError>(
            SurfError::FullTickRangeTooSmall,
        ),
        full_tick_range >= MIN_FULL_TICK_RANGE && vault_tick_range < MIN_VAULT_TICK_RANGE ==> r
            == Err::<(), SurfError>(SurfError::VaultTickRangeTooSmall),
        full_tick_range >= MIN_FULL_TICK_RANGE && vault_tick_range >= MIN_VAULT_TICK_RANGE
            && vault_tick_range > full_tick_range / 2 ==> r == Err::<(), SurfError>(
            SurfError::VaultTickRangeTooBig,
        ),
        full_tick_range >= MIN_FULL_TICK_RANGE && MIN_VAULT_TICK_RANGE <= vault_tick_range
            <= full_tick_range / 2 && hedge_tick_range < MIN_HEDGE_TICK_RANGE ==> r == Err::<
            (),
            SurfError,
        >(SurfError::HedgeTickRangeTooSmall),
        full_tick_range >= MIN_FULL_TICK_RANGE && MIN_VAULT_TICK_RANGE <= vault_tick_range
            <= full_tick_range / 2 && hedge_tick_range >= MIN_HEDGE_TICK_RANGE && hedge_tick_range
            > vault_tick_range ==> r == Err::<(), SurfError>(SurfError::HedgeTickRangeTooBig),
        full_tick_range >= MIN_FULL_TICK_RANGE && MIN_VAULT_TICK_RANGE <= vault_tick_range
            <= full_tick_range / 2 && MIN_HEDGE_TICK_RANGE <= hedge_tick_range <= vault_tick_range
            ==> r is Ok,
{
    if full_tick_range < MIN_FULL_TICK_RANGE {
        return Err(SurfError::FullTickRangeTooSmall);
    }
    if vault_tick_range < MIN_VAULT_TICK_RANGE {
        return Err(SurfError::VaultTickRangeTooSmall);
    }
    if vault_tick_range > full_tick_range / 2 {
        return Err(SurfError::VaultTickRangeTooBig);
    }
    if hedge_tick_range < MIN_HEDGE_TICK_RANGE {
        return Err(SurfError::HedgeTickRangeTooSmall);
    }
    if hedge_tick_range > vault_tick_range {
        return Err(SurfError::HedgeTickRangeTooBig);
    }
    Ok(())
}

/// The full range must lie strictly inside the tick bounds and the working range must not
/// share a bound with it. Fails with `UpperTickIndexOutOfBounds`,
/// `LowerTickIndexOutOfBounds` or `InvalidTickRangeBounds`, in that order.
pub fn validate_bounds(whirlpool_range_bounds: &RangeBounds, inner_range_bounds: &RangeBounds) -> (r:
    Result<(), SurfError>)
    ensures
        whirlpool_range_bounds.upper_tick_index >= MAX_TICK_INDEX ==> r == Err::<(), SurfError>(
            SurfError::UpperTickIndexOutOfBounds,
        ),
        whirlpool_range_bounds.upper_tick_index < MAX_TICK_INDEX
            && whirlpool_range_bounds.lower_tick_index <= MIN_TICK_INDEX ==> r == Err::<
            (),
            SurfError,
        >(SurfError::LowerTickIndexOutOfBounds),
        whirlpool_range_bounds.upper_tick_index < MAX_TICK_INDEX
            && whirlpool_range_bounds.lower_tick_index > MIN_TICK_INDEX && (
        inner_range_bounds.upper_tick_index == whirlpool_range_bounds.upper_tick_index
            || inner_range_bounds.lower_tick_index == whirlpool_range_bounds.lower_tick_index) ==> r
            == Err::<(), SurfError>(SurfError::InvalidTickRangeBounds),
        whirlpool_range_bounds.upper_tick_index < MAX_TICK_INDEX
            && whirlpool_range_bounds.lower_tick_index > MIN_TICK_INDEX
            && inner_range_bounds.upper_tick_index != whirlpool_range_bounds.upper_tick_index
            && inner_range_bounds.lower_tick_index != whirlpool_range_bounds.lower_tick_index ==> r is Ok,
{
    if whirlpool_range_bounds.upper_tick_index >= MAX_TICK_INDEX {
        return Err(SurfError::UpperTickIndexOutOfBounds);
    }
    if whirlpool_range_bounds.lower_tick_index <= MIN_TICK_INDEX {
        return Err(SurfError::LowerTickIndexOutOfBounds);
    }
    if inner_range_bounds.upper_tick_index == whirlpool_range_bounds.upper_tick_index
        || inner_range_bounds.lower_tick_index == whirlpool_range_bounds.lower_tick_index {
        return Err(SurfError::InvalidTickRangeBounds);
    }
    Ok(())
}

/// The bounds as ticks and sqrt prices.
pub open spec fn bounds_at(upper: int, lower: int) -> RangeBounds {
    RangeBounds {
        upper_tick_index: upper as i32,
        lower_tick_index: lower as i32,
        upper_sqrt_price: sqrt_price_at_tick(upper as i32),
        lower_sqrt_price: sqrt_price_at_tick(lower as i32),
    }
}

/// Half of `x`, rounded toward zero.
pub open spec fn half_toward_zero(x: int) -> int {
    if x >= 0 {
        x / 2
    } else {
        -((-x) / 2)
    }
}

/// Whether a tick lies within the tick bounds.
pub open spec fn in_tick_bounds(tick: int) -> bool {
    MIN_TICK_INDEX <= tick <= MAX_TICK_INDEX
}

/// The ranges a new market position takes around `current_tick`: the full range, with
/// both bounds rounded toward zero to the pool's tick spacing; the working range, unrounded;
/// and the sqrt price at the middle tick of the full range. Fails with
/// `UpperTickIndexOutOfBounds` or `LowerTickIndexOutOfBounds` when a bound of either range
/// falls outside the tick bounds.
pub fn calculate_whirlpool_and_inner_bounds(
    current_tick: i32,
    tick_spacing: u16,
    full_tick_range: u32,
    vault_tick_range: u32,
) -> (r: Result<(RangeBounds, RangeBounds, u128), SurfError>)
    requires
        tick_spacing > 0,
    ensures
        ({
            let full = range_around(current_tick as int, full_tick_range as int);
            let inner = range_around(current_tick as int, vault_tick_range as int);
            if !(in_tick_bounds(full.0) && in_tick_bounds(inner.0)) {
                r == Err::<(RangeBounds, RangeBounds, u128), SurfError>(
                    SurfError::UpperTickIndexOutOfBounds,
                )
            } else if !(in_tick_bounds(full.1) && in_tick_bounds(inner.1)) {
                r == Err::<(RangeBounds, RangeBounds, u128), SurfError>(
                    SurfError::LowerTickIndexOutOfBounds,
                )
            } else {
                let upper = initializable_tick(full.0, tick_spacing as int);
                let lower = initializable_tick(full.1, tick_spacing as int);
                r == Ok::<(RangeBounds, RangeBounds, u128), SurfError>(
                    (
                        bounds_at(upper, lower),
                        bounds_at(inner.0, inner.1),
                        sqrt_price_at_tick(half_toward_zero(lower + upper) as i32),
                    ),
                )
            }
        }),
{
    let full_half = (full_tick_range / 2) as i64;
    let inner_half = (vault_tick_range / 2) as i64;
    let tick = current_tick as i64;
    let full_upper = tick + full_half;
    let full_lower = tick - full_half;
    let inner_upper = tick + inner_half;
    let inner_lower = tick - inner_half;
    if !(MIN_TICK_INDEX as i64 <= full_upper && full_upper <= MAX_TICK_INDEX as i64
        && MIN_TICK_INDEX as i64 <= inner_upper && inner_upper <= MAX_TICK_INDEX as i64) {
        return Err(SurfError::UpperTickIndexOutOfBounds);
    }
    if !(MIN_TICK_INDEX as i64 <= full_lower && full_lower <= MAX_TICK_INDEX as i64
        && MIN_TICK_INDEX as i64 <= inner_lower && inner_lower <= MAX_TICK_INDEX as i64) {
        return Err(SurfError::LowerTickIndexOutOfBounds);
    }
    let upper = get_initializable_tick_index(full_upper as i32, tick_spacing);
    let lower = get_initializable_tick_index(full_lower as i32, tick_spacing);
    let whirlpool_range_bounds = RangeBounds {
        upper_sqrt_price: sqrt_price_from_tick_index(upper),
        lower_sqrt_price: sqrt_price_from_tick_index(lower),
        upper_tick_index: upper,
        lower_tick_index: lower,
    };
    let inner_range_bounds = RangeBounds {
        upper_sqrt_price: sqrt_price_from_tick_index(inner_upper as i32),
        lower_sqrt_price: sqrt_price_from_tick_index(inner_lower as i32),
        upper_tick_index: inner_upper as i32,
        lower_tick_index: inner_lower as i32,
    };
    let middle_tick_index = (lower + upper) / 2;
    let middle_sqrt_price = sqrt_price_from_tick_index(middle_tick_index);
    Ok((whirlpool_range_bounds, inner_range_bounds, middle_sqrt_price))
}

} // verus!
