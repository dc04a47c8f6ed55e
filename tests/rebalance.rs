use surf::errors::SurfError;
use surf::hedge_position::HedgePosition;
use surf::key::AccountKey;
use surf::rebalance::{
    get_borrowed_amount_diff, rebalance_next_amounts, rebalance_swap_amount, update_program_accounts, validate_hedge_adjustment,
    validate_next_hedge_position,
};
use surf::swap::{get_default_other_amount_threshold, get_default_sqrt_price_limit};
use surf::tick_range::{
    calculate_range_bounds, calculate_whirlpool_and_inner_bounds, validate_bounds,
    validate_tick_ranges, RangeBounds,
};
use surf::vault_state::{VaultState, WhirlpoolAdjustmentState};
use surf::whirlpool_position::WhirlpoolPosition;

fn hedged_vault() -> VaultState {
    let mut vault = VaultState::empty();
    vault.set_initial_hedge_position_id();
    vault.initialize_hedge_position().unwrap();
    vault
}

#[test]
fn adjustment_moves_amounts_into_next_slot() {
    let mut vault = hedged_vault();
    let mut h = HedgePosition::empty();
    h.increase_hedge(1_000, 2_000).unwrap();
    let mut next: Option<HedgePosition> = None;
    update_program_accounts(-100, -150, 42, &mut h, &mut vault, &mut next).unwrap();
    assert_eq!(h.current_borrow_position_index, 1);
    assert_eq!(h.borrow_positions[0].borrowed_amount_diff, -100);
    assert_eq!(h.borrow_positions[0].borrowed_amount_notional_diff, -150);
    assert_eq!(h.borrow_positions[0].borrowed_amount, 1_000);
    assert_eq!(h.borrow_positions[1].borrowed_amount, 900);
    assert_eq!(h.borrow_positions[1].borrowed_amount_notional, 1_850);
    assert_eq!(vault.last_hedge_adjustment_tick, Some(42));
    assert_eq!(vault.current_hedge_position_id, Some(0));
}

#[test]
fn adjustment_on_last_slot_rolls_over() {
    let mut vault = hedged_vault();
    let mut h = HedgePosition::empty();
    h.current_borrow_position_index = 149;
    h.increase_hedge(500, 700).unwrap();
    let mut none: Option<HedgePosition> = None;
    assert_eq!(
        update_program_accounts(50, 70, 1, &mut h, &mut vault, &mut none),
        Err(SurfError::MissingNextHedgePositionAccount)
    );
    assert_eq!(h.get_current_position().borrowed_amount_diff, 0);
    vault.initialize_hedge_position().unwrap();
    let mut fresh = HedgePosition::empty();
    fresh.initialize(0, AccountKey::zero(), 1);
    let mut next = Some(fresh);
    update_program_accounts(50, 70, 1, &mut h, &mut vault, &mut next).unwrap();
    let next = next.unwrap();
    assert_eq!(next.get_current_position().borrowed_amount, 550);
    assert_eq!(next.get_current_position().borrowed_amount_notional, 770);
    assert_eq!(h.get_current_position().borrowed_amount_diff, 50);
    assert_eq!(vault.current_hedge_position_id, Some(1));
}

#[test]
fn adjustment_out_of_range_changes_nothing() {
    let mut vault = hedged_vault();
    let mut h = HedgePosition::empty();
    h.increase_hedge(10, 10).unwrap();
    let mut next: Option<HedgePosition> = None;
    assert_eq!(
        update_program_accounts(-11, 0, 5, &mut h, &mut vault, &mut next),
        Err(SurfError::BorrowOverflow)
    );
    assert_eq!(h.current_borrow_position_index, 0);
    assert_eq!(vault.last_hedge_adjustment_tick, None);
}

#[test]
fn next_hedge_position_needed_only_on_last_slot() {
    let mut h = HedgePosition::empty();
    assert_eq!(validate_next_hedge_position(&h, &AccountKey::zero()), Ok(()));
    h.current_borrow_position_index = 149;
    assert_eq!(
        validate_next_hedge_position(&h, &AccountKey::zero()),
        Err(SurfError::MissingNextHedgePositionAccount)
    );
    assert_eq!(validate_next_hedge_position(&h, &AccountKey { bytes: [1u8; 32] }), Ok(()));
}

#[test]
fn borrowed_amount_diff_by_direction() {
    let one = 1u128 << 64;
    let mut e = WhirlpoolPosition::empty();
    e.open(0, AccountKey::zero(), 0, AccountKey::zero(), one, 0, 0, 2 * one, one / 2, one, one, one);
    // The position holds 2^63 base tokens from price 1 up to price 4.
    let mut h = HedgePosition::empty();
    h.increase_hedge((1u64 << 63) + 40, 0).unwrap();
    assert_eq!(get_borrowed_amount_diff(one, &e, &h, true), Ok(40));
    assert_eq!(get_borrowed_amount_diff(one, &e, &h, false), Err(SurfError::MathError));
    let mut low = HedgePosition::empty();
    low.increase_hedge((1u64 << 63) - 60, 0).unwrap();
    assert_eq!(get_borrowed_amount_diff(one, &e, &low, false), Ok(60));
    assert_eq!(get_borrowed_amount_diff(one, &e, &low, true), Err(SurfError::MathError));
    assert_eq!(get_borrowed_amount_diff(0, &e, &low, true), Err(SurfError::MathError));
}

#[test]
fn hedge_adjustment_needs_price_out_of_range() {
    let mut vault = hedged_vault();
    assert_eq!(validate_hedge_adjustment(&vault, 0, true), Err(SurfError::VaultPositionNotHedged));
    vault.hedge_tick_range = 20;
    vault.update_hedge_adjustment_tick(100);
    assert_eq!(
        validate_hedge_adjustment(&vault, 120, true),
        Err(SurfError::HedgePositionNotOutOfHedgeTickRange)
    );
    assert_eq!(validate_hedge_adjustment(&vault, 121, true), Ok(()));
    assert_eq!(validate_hedge_adjustment(&vault, 79, false), Ok(()));
    vault.update_whirlpool_adjustment_state(WhirlpoolAdjustmentState::Below);
    assert_eq!(validate_hedge_adjustment(&vault, 0, true), Ok(()));
    assert_eq!(
        validate_hedge_adjustment(&vault, 0, false),
        Err(SurfError::InvalidWhirlpoolAdjustmentState)
    );
}

#[test]
fn tick_range_rules() {
    assert_eq!(validate_tick_ranges(399, 200, 20), Err(SurfError::FullTickRangeTooSmall));
    assert_eq!(validate_tick_ranges(400, 199, 20), Err(SurfError::VaultTickRangeTooSmall));
    assert_eq!(validate_tick_ranges(400, 201, 20), Err(SurfError::VaultTickRangeTooBig));
    assert_eq!(validate_tick_ranges(400, 200, 19), Err(SurfError::HedgeTickRangeTooSmall));
    assert_eq!(validate_tick_ranges(800, 200, 201), Err(SurfError::HedgeTickRangeTooBig));
    assert_eq!(validate_tick_ranges(400, 200, 20), Ok(()));
}

#[test]
fn range_bounds_around_tick() {
    assert_eq!(calculate_range_bounds(100, 41), (120, 80));
    assert_eq!(calculate_range_bounds(-100, 40), (-80, -120));
}

#[test]
fn position_bounds_and_sqrt_prices() {
    let (full, inner, middle) = calculate_whirlpool_and_inner_bounds(0, 64, 1000, 400).unwrap();
    assert_eq!((full.upper_tick_index, full.lower_tick_index), (448, -448));
    assert_eq!((inner.upper_tick_index, inner.lower_tick_index), (200, -200));
    assert_eq!(middle, 1u128 << 64);
    assert!(full.upper_sqrt_price > inner.upper_sqrt_price);
    assert!(inner.upper_sqrt_price > middle);
    assert!(middle > inner.lower_sqrt_price);
    assert!(inner.lower_sqrt_price > full.lower_sqrt_price);
    assert_eq!(validate_bounds(&full, &inner), Ok(()));
    assert_eq!(
        calculate_whirlpool_and_inner_bounds(443_600, 64, 1000, 400).map(|_| ()),
        Err(SurfError::UpperTickIndexOutOfBounds)
    );
    assert_eq!(
        calculate_whirlpool_and_inner_bounds(-443_600, 64, 1000, 400).map(|_| ()),
        Err(SurfError::LowerTickIndexOutOfBounds)
    );
}

#[test]
fn bounds_validation() {
    let b = |u: i32, l: i32| RangeBounds {
        upper_tick_index: u,
        lower_tick_index: l,
        upper_sqrt_price: 0,
        lower_sqrt_price: 0,
    };
    assert_eq!(validate_bounds(&b(443636, 0), &b(1, -1)), Err(SurfError::UpperTickIndexOutOfBounds));
    assert_eq!(validate_bounds(&b(10, -443636), &b(1, -1)), Err(SurfError::LowerTickIndexOutOfBounds));
    assert_eq!(validate_bounds(&b(10, -10), &b(10, -1)), Err(SurfError::InvalidTickRangeBounds));
    assert_eq!(validate_bounds(&b(10, -10), &b(1, -10)), Err(SurfError::InvalidTickRangeBounds));
    assert_eq!(validate_bounds(&b(10, -10), &b(1, -1)), Ok(()));
}

#[test]
fn swap_defaults() {
    assert_eq!(get_default_sqrt_price_limit(true), 4295048016);
    assert_eq!(get_default_sqrt_price_limit(false), 79226673515401279992447579055);
    assert_eq!(get_default_other_amount_threshold(true), 0);
    assert_eq!(get_default_other_amount_threshold(false), u64::MAX);
}

fn range(upper: u128, lower: u128) -> RangeBounds {
    RangeBounds { upper_tick_index: 0, lower_tick_index: 0, upper_sqrt_price: upper, lower_sqrt_price: lower }
}

fn position(lower: u128, middle: u128, upper: u128) -> WhirlpoolPosition {
    let mut e = WhirlpoolPosition::empty();
    e.open(0, AccountKey::zero(), 0, AccountKey::zero(), 1_000_000_000_000, 0, 0, upper, lower, middle, upper, lower);
    e
}

#[test]
fn rebalance_sizing_above() {
    let one = 1u128 << 64;
    let p = position(one / 2, one, 2 * one);
    let current = one * 3 / 2;
    let next = range(2 * one, 27485648669827231908);
    assert_eq!(
        rebalance_swap_amount(&p, current, &next, true),
        Ok((500_000_000_000, 500_000_000_000, 7_833_333_333_334))
    );
    // With the new range starting at the old middle price, the base held already covers it.
    assert_eq!(rebalance_swap_amount(&p, current, &range(2 * one, one), true), Err(SurfError::MathError));
    assert_eq!(rebalance_swap_amount(&p, 0, &next, true), Err(SurfError::MathError));
    assert_eq!(
        rebalance_next_amounts(0, 500_000_000_000, 1_000, current, &range(2 * one, one), true),
        Ok((499_999_999_000, 83_333_333_167, 499_999_999_000))
    );
    assert_eq!(
        rebalance_next_amounts(0, 500, 501, current, &range(2 * one, one), true),
        Err(SurfError::MathError)
    );
}

#[test]
fn rebalance_sizing_below() {
    let one = 1u128 << 64;
    let p = position(one / 2, one, 4 * one);
    let current = 16602069666338596454u128;
    let next = range(2 * one, 1844674407370955161);
    assert_eq!(
        rebalance_swap_amount(&p, current, &next, false),
        Ok((750_000_000_000, 500_000_000_000, 196_774_193_549))
    );
    assert_eq!(rebalance_swap_amount(&p, 5 * one, &next, false), Err(SurfError::MathError));
    assert_eq!(
        rebalance_next_amounts(750_000_000_000, 500_000_000_000, 1_000, current, &next, false),
        Ok((1_227_272_725_636, 749_999_999_000, 981_818_180_509))
    );
    assert_eq!(
        rebalance_next_amounts(10, 0, 1, 3 * one, &next, false),
        Err(SurfError::MathError)
    );
}
