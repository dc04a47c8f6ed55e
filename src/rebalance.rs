use vstd::prelude::*;

use crate::errors::SurfError;
use crate::hedge_position::{
    calculate_new_amount, moved_amount, update_diffs_fits, BorrowPosition, HedgePosition, LAST_BORROW_POSITION_INDEX,
};
use crate::key::AccountKey;
use crate::liquidity_math::{
    base_liquidity_x64, div_rounded, get_amount_delta_a_wrapped, get_amount_delta_b_wrapped,
    get_liquidity_from_base_token, get_liquidity_from_quote_token,
};
use crate::orca::{amount_delta_a, amount_delta_b, ordered_prices};
use crate::tick_range::RangeBounds;
use crate::wide::{q128, q64};
use crate::vault_state::{VaultState, WhirlpoolAdjustmentState};
use crate::whirlpool_position::WhirlpoolPosition;

verus! {

/// A hedge epoch whose last slot is current needs the next epoch's record, which must not
/// be the all-zero address. Fails with `MissingNextHedgePositionAccount` otherwise.
pub fn validate_next_hedge_position(
    hedge_position: &HedgePosition,
    next_hedge_position_key: &AccountKey,
) -> (r: Result<(), SurfError>)
    ensures
        r is Err <==> hedge_position.current_borrow_position_index == LAST_BORROW_POSITION_INDEX
            && next_hedge_position_key.bytes@ == Seq::new(32, |i: int| 0u8),
        r is Err ==> r == Err::<(), SurfError>(SurfError::MissingNextHedgePositionAccount),
{
    if hedge_position.current_borrow_position_index == LAST_BORROW_POSITION_INDEX
        && next_hedge_position_key.same_as(&AccountKey::zero()) {
        return Err(SurfError::MissingNextHedgePositionAccount);
    }
    Ok(())
}

proof fn lemma_amount_delta_a_nonnegative(price_a: int, price_b: int, liquidity: int, round_up: bool)
    requires
        price_a > 0,
        price_b > 0,
        liquidity >= 0,
    ensures
        amount_delta_a(price_a, price_b, liquidity, round_up) >= 0,
{
    let (lower, upper) = ordered_prices(price_a, price_b);
    let m = q128() * q128();
    let numerator = (liquidity * (upper - lower) * q64()) % m;
    assert(lower * upper > 0) by (nonlinear_arith)
        requires
            lower > 0,
            upper > 0,
    ;
    assert(numerator >= 0);
    assert(numerator / (lower * upper) >= 0) by (nonlinear_arith)
        requires
            numerator >= 0,
            lower * upper > 0,
    ;
}

/// How much the borrow must shrink (price moved above) or grow (price moved below) so that
/// the current slot's borrow matches the base token amount the market position's liquidity
/// holds from the current sqrt price up to the position's upper bound (rounded up). Fails
/// with `MathError` when a price is zero or the borrow would move the other way, and with
/// `TokenMaxExceeded` when the required amount passes `u64::MAX`.
pub fn get_borrowed_amount_diff(
    current_sqrt_price: u128,
    whirlpool_position: &WhirlpoolPosition,
    hedge_position: &HedgePosition,
    is_above: bool,
) -> (r: Result<u64, SurfError>)
    requires
        hedge_position.wf(),
    ensures
        ({
            let required = amount_delta_a(
                current_sqrt_price as int,
                whirlpool_position.upper_sqrt_price as int,
                whirlpool_position.liquidity as int,
                true,
            );
            let borrowed = hedge_position.current().borrowed_amount as int;
            if current_sqrt_price == 0 || whirlpool_position.upper_sqrt_price == 0 {
                r == Err::<u64, SurfError>(SurfError::MathError)
            } else if required > u64::MAX {
                r == Err::<u64, SurfError>(SurfError::TokenMaxExceeded)
            } else if is_above {
                if borrowed >= required {
                    r == Ok::<u64, SurfError>((borrowed - required) as u64)
                } else {
                    r == Err::<u64, SurfError>(SurfError::MathError)
                }
            } else {
                if required >= borrowed {
                    r == Ok::<u64, SurfError>((required - borrowed) as u64)
                } else {
                    r == Err::<u64, SurfError>(SurfError::MathError)
                }
            }
        }),
{
    if current_sqrt_price == 0 || whirlpool_position.upper_sqrt_price == 0 {
        return Err(SurfError::MathError);
    }
    proof {
        lemma_amount_delta_a_nonnegative(
            current_sqrt_price as int,
            whirlpool_position.upper_sqrt_price as int,
            whirlpool_position.liquidity as int,
            true,
        );
    }
    let required_borrowed_amount = get_amount_delta_a_wrapped(
        current_sqrt_price,
        whirlpool_position.upper_sqrt_price,
        whirlpool_position.liquidity,
        true,
    )?;
    let current = hedge_position.get_current_position();
    if is_above {
        if current.borrowed_amount < required_borrowed_amount {
            return Err(SurfError::MathError);
        }
        Ok(current.borrowed_amount - required_borrowed_amount)
    } else {
        if required_borrowed_amount < current.borrowed_amount {
            return Err(SurfError::MathError);
        }
        Ok(required_borrowed_amount - current.borrowed_amount)
    }
}

/// Whether the hedge may be adjusted at `current_tick`: with no range move pending, only
/// once the price has crossed the hedge range beyond the last adjustment in the given
/// direction; right after a range move, only in the opposite direction to it. Fails with
/// `VaultPositionNotHedged` when the hedge was never adjusted,
/// `HedgePositionNotOutOfHedgeTickRange` when the price has not moved far enough, and
/// `InvalidWhirlpoolAdjustmentState` after a range move in the same direction.
pub fn validate_hedge_adjustment(
    vault_state: &VaultState,
    current_tick: i32,
    is_above: bool,
) -> (r: Result<(), SurfError>)
    ensures
        vault_state.last_hedge_adjustment_tick is None ==> r == Err::<(), SurfError>(
            SurfError::VaultPositionNotHedged,
        ),
        vault_state.last_hedge_adjustment_tick is Some ==> {
            let last = vault_state.last_hedge_adjustment_tick->Some_0 as int;
            let range = vault_state.hedge_tick_range as int;
            let opposite = if is_above {
                WhirlpoolAdjustmentState::Below
            } else {
                WhirlpoolAdjustmentState::Above
            };
            if vault_state.whirlpool_adjustment_state == WhirlpoolAdjustmentState::NoAdjustment {
                if (is_above && current_tick > last + range) || (!is_above && current_tick < last
                    - range) {
                    r is Ok
                } else {
                    r == Err::<(), SurfError>(SurfError::HedgePositionNotOutOfHedgeTickRange)
                }
            } else if vault_state.whirlpool_adjustment_state == opposite {
                r is Ok
            } else {
                r == Err::<(), SurfError>(SurfError::InvalidWhirlpoolAdjustmentState)
            }
        },
{
    let last = match vault_state.last_hedge_adjustment_tick {
        None => {
            return Err(SurfError::VaultPositionNotHedged);
        },
        Some(t) => t as i64,
    };
    let range = vault_state.hedge_tick_range as i64;
    let tick = current_tick as i64;
    match vault_state.whirlpool_adjustment_state {
        WhirlpoolAdjustmentState::NoAdjustment => {
            if (is_above && tick > last + range) || (!is_above && tick < last - range) {
                Ok(())
            } else {
                Err(SurfError::HedgePositionNotOutOfHedgeTickRange)
            }
        },
        WhirlpoolAdjustmentState::Above => {
            if is_above {
                Err(SurfError::InvalidWhirlpoolAdjustmentState)
            } else {
                Ok(())
            }
        },
        WhirlpoolAdjustmentState::Below => {
            if is_above {
                Ok(())
            } else {
                Err(SurfError::InvalidWhirlpoolAdjustmentState)
            }
        },
    }
}

/// The slot that carries the amounts forward after an adjustment: the amounts the adjusted
/// slot ends with, added to what the receiving slot already holds.
pub open spec fn carried_slot(target: BorrowPosition, amount: int, notional: int) -> BorrowPosition {
    BorrowPosition {
        borrowed_amount: (target.borrowed_amount + amount) as u64,
        borrowed_amount_notional: (target.borrowed_amount_notional + notional) as u64,
        ..target
    }
}

/// The error a hedge adjustment of `hedge` by the given diffs meets, in the order the
/// conditions are checked, or `None` when it succeeds.
pub open spec fn adjustment_error(
    hedge: HedgePosition,
    vault: VaultState,
    next: Option<HedgePosition>,
    diff: int,
    diff_notional: int,
) -> Option<SurfError> {
    let slot = hedge.current();
    let rollover = hedge.current_borrow_position_index == LAST_BORROW_POSITION_INDEX;
    let amount = moved_amount(slot.borrowed_amount as int, diff);
    let notional = moved_amount(slot.borrowed_amount_notional as int, diff_notional);
    if rollover && next is None {
        Some(SurfError::MissingNextHedgePositionAccount)
    } else if rollover && (vault.current_hedge_position_id is None
        || vault.current_hedge_position_id->Some_0 == u64::MAX) {
        Some(SurfError::HedgePositionIdOverflow)
    } else if !(0 <= amount <= u64::MAX) {
        Some(SurfError::BorrowOverflow)
    } else if !(0 <= notional <= u64::MAX) {
        Some(SurfError::BorrowNotionalOverflow)
    } else if !(i64::MIN <= slot.borrowed_amount_diff + diff <= i64::MAX) {
        Some(SurfError::BorrowOverflow)
    } else if !(i64::MIN <= slot.borrowed_amount_notional_diff + diff_notional <= i64::MAX) {
        Some(SurfError::BorrowNotionalOverflow)
    } else {
        let target = if rollover {
            next->Some_0.current()
        } else {
            hedge.borrow_positions@[hedge.current_borrow_position_index + 1]
        };
        if target.borrowed_amount + amount > u64::MAX {
            Some(SurfError::BorrowOverflow)
        } else if target.borrowed_amount_notional + notional > u64::MAX {
            Some(SurfError::BorrowNotionalOverflow)
        } else {
            None
        }
    }
}

/// Closes the current borrow slot of a hedge adjustment and opens the next one. The diffs
/// are recorded on the current slot; the amounts it ends with move into the next slot of
/// the same hedge epoch or, when its last slot was current, into the current slot of
/// `next_hedge_position`, which then becomes the vault's current hedge epoch. The tick of
/// the adjustment is recorded. All or nothing: on failure no record changes. Fails with
/// `MissingNextHedgePositionAccount` when a new epoch is needed and none is given,
/// `HedgePositionIdOverflow` when the vault cannot move to it, and the error of
/// `update_diffs` or `increase_hedge` when an amount leaves its range.
pub fn update_program_accounts(
    borrowed_amount_diff: i64,
    borrowed_amount_diff_notional: i64,
    current_tick: i32,
    hedge_position: &mut HedgePosition,
    vault_state: &mut VaultState,
    next_hedge_position: &mut Option<HedgePosition>,
) -> (r: Result<(), SurfError>)
    requires
        old(hedge_position).wf(),
        (*old(next_hedge_position)) is Some ==> (*old(next_hedge_position))->Some_0.wf(),
    ensures
        final(hedge_position).wf(),
        (*final(next_hedge_position)) is Some ==> (*final(next_hedge_position))->Some_0.wf(),
        match adjustment_error(
            *old(hedge_position),
            *old(vault_state),
            *old(next_hedge_position),
            borrowed_amount_diff as int,
            borrowed_amount_diff_notional as int,
        ) {
            Some(e) => r == Err::<(), SurfError>(e),
            None => r is Ok,
        },
        r is Err ==> *final(hedge_position) == *old(hedge_position) && *final(vault_state)
            == *old(vault_state) && *final(next_hedge_position) == *old(next_hedge_position),
        old(hedge_position).current_borrow_position_index == LAST_BORROW_POSITION_INDEX && (*old(next_hedge_position)) is None ==> r == Err::<(), SurfError>(SurfError::MissingNextHedgePositionAccount),
        !update_diffs_fits(
            old(hedge_position).current(),
            borrowed_amount_diff as int,
            borrowed_amount_diff_notional as int,
        ) ==> r is Err,
        r is Ok ==> {
            let slot = old(hedge_position).current();
            let amount = moved_amount(slot.borrowed_amount as int, borrowed_amount_diff as int);
            let notional = moved_amount(
                slot.borrowed_amount_notional as int,
                borrowed_amount_diff_notional as int,
            );
            let closed = BorrowPosition {
                borrowed_amount_diff: (slot.borrowed_amount_diff + borrowed_amount_diff) as i64,
                borrowed_amount_notional_diff: (slot.borrowed_amount_notional_diff
                    + borrowed_amount_diff_notional) as i64,
                ..slot
            };
            let idx = old(hedge_position).current_borrow_position_index as int;
            &&& final(vault_state).last_hedge_adjustment_tick == Some(current_tick)
            &&& if idx < LAST_BORROW_POSITION_INDEX {
                &&& final(hedge_position).current_borrow_position_index == idx + 1
                &&& final(hedge_position).borrow_positions@ == old(
                    hedge_position,
                ).borrow_positions@.update(idx, closed).update(
                    idx + 1,
                    carried_slot(old(hedge_position).borrow_positions@[idx + 1], amount, notional),
                )
                &&& final(hedge_position).id == old(hedge_position).id
                &&& *final(next_hedge_position) == *old(next_hedge_position)
                &&& *final(vault_state) == (VaultState {
                    last_hedge_adjustment_tick: Some(current_tick),
                    ..*old(vault_state)
                })
            } else {
                let next = (*old(next_hedge_position))->Some_0;
                &&& final(hedge_position).is_with_current(old(hedge_position), closed)
                &&& (*final(next_hedge_position)) is Some
                &&& (*final(next_hedge_position))->Some_0.is_with_current(
                    &next,
                    carried_slot(next.current(), amount, notional),
                )
                &&& old(vault_state).current_hedge_position_id is Some
                &&& *final(vault_state) == (VaultState {
                    last_hedge_adjustment_tick: Some(current_tick),
                    current_hedge_position_id: Some(
                        (old(vault_state).current_hedge_position_id->Some_0 + 1) as u64,
                    ),
                    ..*old(vault_state)
                })
            }
        },
{
    let rollover = hedge_position.current_borrow_position_index == LAST_BORROW_POSITION_INDEX;
    if rollover {
        if next_hedge_position.is_none() {
            return Err(SurfError::MissingNextHedgePositionAccount);
        }
        match vault_state.current_hedge_position_id {
            None => {
                return Err(SurfError::HedgePositionIdOverflow);
            },
            Some(id) => {
                if id == u64::MAX {
                    return Err(SurfError::HedgePositionIdOverflow);
                }
            },
        }
    }
    let slot = hedge_position.get_current_position();
    let amount = match calculate_new_amount(slot.borrowed_amount, borrowed_amount_diff) {
        None => {
            return Err(SurfError::BorrowOverflow);
        },
        Some(v) => v,
    };
    let notional = match calculate_new_amount(
        slot.borrowed_amount_notional,
        borrowed_amount_diff_notional,
    ) {
        None => {
            return Err(SurfError::BorrowNotionalOverflow);
        },
        Some(v) => v,
    };
    if slot.borrowed_amount_diff.checked_add(borrowed_amount_diff).is_none() {
        return Err(SurfError::BorrowOverflow);
    }
    if slot.borrowed_amount_notional_diff.checked_add(borrowed_amount_diff_notional).is_none() {
        return Err(SurfError::BorrowNotionalOverflow);
    }
    if rollover {
        match next_hedge_position {
            None => {
                return Err(SurfError::MissingNextHedgePositionAccount);
            },
            Some(next) => {
                next.increase_hedge(amount, notional)?;
            },
        }
        let _ = hedge_position.update_diffs(borrowed_amount_diff, borrowed_amount_diff_notional);
        let _ = vault_state.update_hedge_position_id();
    } else {
        let target = hedge_position.borrow_positions[(hedge_position.current_borrow_position_index
            + 1) as usize];
        if target.borrowed_amount.checked_add(amount).is_none() {
            return Err(SurfError::BorrowOverflow);
        }
        if target.borrowed_amount_notional.checked_add(notional).is_none() {
            return Err(SurfError::BorrowNotionalOverflow);
        }
        let _ = hedge_position.update_diffs(borrowed_amount_diff, borrowed_amount_diff_notional);
        let _ = hedge_position.update_current_position_id();
        let _ = hedge_position.increase_hedge(amount, notional);
    }
    vault_state.update_hedge_adjustment_tick(current_tick);
    Ok(())
}

proof fn lemma_amount_delta_b_nonnegative(price_a: int, price_b: int, liquidity: int, round_up: bool)
    requires
        liquidity >= 0,
    ensures
        amount_delta_b(price_a, price_b, liquidity, round_up) >= 0,
{
    let (lower, upper) = ordered_prices(price_a, price_b);
    assert(liquidity * (upper - lower) >= 0) by (nonlinear_arith)
        requires
            liquidity >= 0,
            upper >= lower,
    ;
}

proof fn lemma_base_liquidity_nonnegative(amount: int, lower: int, upper: int)
    requires
        amount >= 0,
        0 <= lower < upper,
    ensures
        base_liquidity_x64(amount, lower, upper) >= 0,
{
    assert(lower * upper * amount >= 0) by (nonlinear_arith)
        requires
            amount >= 0,
            lower >= 0,
            upper >= 0,
    ;
}

/// The tokens the market position holds at its middle price, as (base, quote), rounded
/// down; `None` when one passes `u64::MAX`.
pub open spec fn held_at_middle(p: WhirlpoolPosition) -> Option<(int, int)> {
    let base = amount_delta_a(p.middle_sqrt_price as int, p.upper_sqrt_price as int, p.liquidity as int, false);
    let quote = amount_delta_b(p.lower_sqrt_price as int, p.middle_sqrt_price as int, p.liquidity as int, false);
    if base > u64::MAX || quote > u64::MAX {
        None
    } else {
        Some((base, quote))
    }
}

/// Sizing of a range move, as (base held, quote held, amount to swap). Above the working
/// range the vault buys base: the quote it holds is priced into liquidity from the new
/// lower bound up to the current price, and the swap is the base that liquidity needs up to
/// the new upper bound beyond what is held. Below it the vault buys quote: the base held is
/// priced into liquidity from the current price up to the old upper bound, and the swap is
/// the quote that liquidity needs down to the new lower bound beyond what is held.
pub open spec fn rebalance_swap_plan(
    p: WhirlpoolPosition,
    current: u128,
    next: RangeBounds,
    is_above: bool,
) -> Result<(u64, u64, u64), SurfError> {
    if p.middle_sqrt_price == 0 || p.upper_sqrt_price == 0 || current == 0
        || next.upper_sqrt_price == 0 {
        Err(SurfError::MathError)
    } else {
        match held_at_middle(p) {
            None => Err(SurfError::TokenMaxExceeded),
            Some((base, quote)) => if is_above {
                if next.lower_sqrt_price >= current {
                    Err(SurfError::MathError)
                } else {
                    let liquidity = div_rounded(quote * q64(), current - next.lower_sqrt_price, false);
                    let needed = amount_delta_a(current as int, next.upper_sqrt_price as int, liquidity, true);
                    if needed > u64::MAX {
                        Err(SurfError::TokenMaxExceeded)
                    } else if needed < base {
                        Err(SurfError::MathError)
                    } else {
                        Ok((base as u64, quote as u64, (needed - base) as u64))
                    }
                }
            } else {
                if current >= p.upper_sqrt_price {
                    Err(SurfError::MathError)
                } else {
                    let x64 = base_liquidity_x64(base, current as int, p.upper_sqrt_price as int);
                    if x64 >= q128() {
                        Err(SurfError::BaseTokenOverflow)
                    } else {
                        let liquidity = x64 / q64();
                        let needed = amount_delta_b(current as int, next.lower_sqrt_price as int, liquidity, true);
                        if needed > u64::MAX {
                            Err(SurfError::TokenMaxExceeded)
                        } else if needed < quote {
                            Err(SurfError::MathError)
                        } else {
                            Ok((base as u64, quote as u64, (needed - quote) as u64))
                        }
                    }
                }
            },
        }
    }
}

/// Sizes a range move of the market position `position` at `current_sqrt_price` towards
/// `next_bounds`: returns (base held, quote held, amount to swap), as `rebalance_swap_plan`
/// states. Fails with `MathError` on a zero price or where an amount would go below zero,
/// `TokenMaxExceeded` past `u64::MAX` and `BaseTokenOverflow` when the liquidity of the
/// base held does not fit.
pub fn rebalance_swap_amount(
    position: &WhirlpoolPosition,
    current_sqrt_price: u128,
    next_bounds: &RangeBounds,
    is_above: bool,
) -> (r: Result<(u64, u64, u64), SurfError>)
    ensures
        r == rebalance_swap_plan(*position, current_sqrt_price, *next_bounds, is_above),
{
    if position.middle_sqrt_price == 0 || position.upper_sqrt_price == 0 || current_sqrt_price == 0
        || next_bounds.upper_sqrt_price == 0 {
        return Err(SurfError::MathError);
    }
    proof {
        lemma_amount_delta_a_nonnegative(position.middle_sqrt_price as int, position.upper_sqrt_price as int, position.liquidity as int, false);
        lemma_amount_delta_b_nonnegative(position.lower_sqrt_price as int, position.middle_sqrt_price as int, position.liquidity as int, false);
    }
    let base = get_amount_delta_a_wrapped(
        position.middle_sqrt_price,
        position.upper_sqrt_price,
        position.liquidity,
        false,
    )?;
    let quote = get_amount_delta_b_wrapped(
        position.lower_sqrt_price,
        position.middle_sqrt_price,
        position.liquidity,
        false,
    )?;
    if is_above {
        if next_bounds.lower_sqrt_price >= current_sqrt_price {
            return Err(SurfError::MathError);
        }
        let liquidity = get_liquidity_from_quote_token(
            quote,
            next_bounds.lower_sqrt_price,
            current_sqrt_price,
            false,
        );
        proof {
            lemma_amount_delta_a_nonnegative(current_sqrt_price as int, next_bounds.upper_sqrt_price as int, liquidity as int, true);
        }
        let needed = get_amount_delta_a_wrapped(
            current_sqrt_price,
            next_bounds.upper_sqrt_price,
            liquidity,
            true,
        )?;
        if needed < base {
            return Err(SurfError::MathError);
        }
        Ok((base, quote, needed - base))
    } else {
        if current_sqrt_price >= position.upper_sqrt_price {
            return Err(SurfError::MathError);
        }
        proof {
            lemma_base_liquidity_nonnegative(base as int, current_sqrt_price as int, position.upper_sqrt_price as int);
        }
        let liquidity = get_liquidity_from_base_token(
            base,
            current_sqrt_price,
            position.upper_sqrt_price,
            false,
        )?;
        proof {
            lemma_amount_delta_b_nonnegative(current_sqrt_price as int, next_bounds.lower_sqrt_price as int, liquidity as int, true);
        }
        let needed = get_amount_delta_b_wrapped(
            current_sqrt_price,
            next_bounds.lower_sqrt_price,
            liquidity,
            true,
        )?;
        if needed < quote {
            return Err(SurfError::MathError);
        }
        Ok((base, quote, needed - quote))
    }
}

/// What the vault puts into the new range after the swap, as (liquidity, base, quote).
/// Above the range `swapped` is the quote spent: the quote left is priced into liquidity
/// across the whole new range and the base is what that liquidity needs from the price
/// after the swap up to the new upper bound. Below the range `swapped` is the base spent:
/// the base left is priced into liquidity from the price after the swap up to the new upper
/// bound and the quote is what it needs from the new lower bound up to that price.
pub open spec fn rebalance_next_plan(
    base: u64,
    quote: u64,
    swapped: u64,
    new_sqrt_price: u128,
    next: RangeBounds,
    is_above: bool,
) -> Result<(u128, u64, u64), SurfError> {
    if new_sqrt_price == 0 || next.upper_sqrt_price == 0 {
        Err(SurfError::MathError)
    } else if is_above {
        if swapped > quote || next.lower_sqrt_price >= next.upper_sqrt_price {
            Err(SurfError::MathError)
        } else {
            let left = quote - swapped;
            let liquidity = div_rounded(
                left * q64(),
                next.upper_sqrt_price - next.lower_sqrt_price,
                false,
            );
            let needed = amount_delta_a(new_sqrt_price as int, next.upper_sqrt_price as int, liquidity, true);
            if needed > u64::MAX {
                Err(SurfError::TokenMaxExceeded)
            } else {
                Ok((liquidity as u128, needed as u64, left as u64))
            }
        }
    } else {
        if swapped > base || new_sqrt_price >= next.upper_sqrt_price {
            Err(SurfError::MathError)
        } else {
            let left = base - swapped;
            let x64 = base_liquidity_x64(left, new_sqrt_price as int, next.upper_sqrt_price as int);
            if x64 >= q128() {
                Err(SurfError::BaseTokenOverflow)
            } else {
                let liquidity = x64 / q64();
                let needed = amount_delta_b(next.lower_sqrt_price as int, new_sqrt_price as int, liquidity, true);
                if needed > u64::MAX {
                    Err(SurfError::TokenMaxExceeded)
                } else {
                    Ok((liquidity as u128, left as u64, needed as u64))
                }
            }
        }
    }
}

/// The liquidity and token amounts of the new range after the swap, as
/// `rebalance_next_plan` states; the liquidity is what `adjust_whirlpool_position` takes.
/// Fails with `MathError` on a zero price, an empty range or more swapped than held,
/// `TokenMaxExceeded` past `u64::MAX` and `BaseTokenOverflow` when the liquidity of the
/// base left does not fit.
pub fn rebalance_next_amounts(
    base: u64,
    quote: u64,
    swapped: u64,
    new_sqrt_price: u128,
    next_bounds: &RangeBounds,
    is_above: bool,
) -> (r: Result<(u128, u64, u64), SurfError>)
    ensures
        r == rebalance_next_plan(base, quote, swapped, new_sqrt_price, *next_bounds, is_above),
{
    if new_sqrt_price == 0 || next_bounds.upper_sqrt_price == 0 {
        return Err(SurfError::MathError);
    }
    if is_above {
        if swapped > quote || next_bounds.lower_sqrt_price >= next_bounds.upper_sqrt_price {
            return Err(SurfError::MathError);
        }
        let left = quote - swapped;
        let liquidity = get_liquidity_from_quote_token(
            left,
            next_bounds.lower_sqrt_price,
            next_bounds.upper_sqrt_price,
            false,
        );
        proof {
            lemma_amount_delta_a_nonnegative(new_sqrt_price as int, next_bounds.upper_sqrt_price as int, liquidity as int, true);
        }
        let needed = get_amount_delta_a_wrapped(
            new_sqrt_price,
            next_bounds.upper_sqrt_price,
            liquidity,
            true,
        )?;
        Ok((liquidity, needed, left))
    } else {
        if swapped > base || new_sqrt_price >= next_bounds.upper_sqrt_price {
            return Err(SurfError::MathError);
        }
        let left = base - swapped;
        proof {
            lemma_base_liquidity_nonnegative(left as int, new_sqrt_price as int, next_bounds.upper_sqrt_price as int);
        }
        let liquidity = get_liquidity_from_base_token(
            left,
            new_sqrt_price,
            next_bounds.upper_sqrt_price,
            false,
        )?;
        proof {
            lemma_amount_delta_b_nonnegative(next_bounds.lower_sqrt_price as int, new_sqrt_price as int, liquidity as int, true);
        }
        let needed = get_amount_delta_b_wrapped(
            next_bounds.lower_sqrt_price,
            new_sqrt_price,
            liquidity,
            true,
        )?;
        Ok((liquidity, left, needed))
    }
}

} // verus!
