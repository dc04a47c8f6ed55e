use vstd::prelude::*;

verus! {

/// Lowest tick index a concentrated-liquidity position may use.
pub const MIN_TICK_INDEX: i32 = -443636;

/// Highest tick index a concentrated-liquidity position may use.
pub const MAX_TICK_INDEX: i32 = 443636;

/// `tick_index` rounded toward zero to a multiple of `spacing`.
pub open spec fn initializable_tick(tick_index: int, spacing: int) -> int {
    if tick_index >= 0 {
        tick_index - tick_index % spacing
    } else {
        -((-tick_index) - (-tick_index) % spacing)
    }
}

/// Rounds a tick index toward zero to the nearest multiple of the tick spacing.
pub fn get_initializable_tick_index(tick_index: i32, tick_spacing: u16) -> (r: i32)
    requires
        tick_spacing > 0,
    ensures
        r == initializable_tick(tick_index as int, tick_spacing as int),
{
    tick_index - tick_index % (tick_spacing as i32)
}

} // verus!
