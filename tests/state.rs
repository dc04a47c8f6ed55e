use surf::constraints::{have_matching_mints, is_admin, AdminConfig};
use surf::errors::SurfError;
use surf::hedge_position::{calculate_new_amount, HedgePosition};
use surf::interest::{
    get_interest, get_position_index, sync_vault_borrow_interest_growth,
    sync_vault_collateral_interest_growth, DriftMarket,
};
use surf::key::AccountKey;
use surf::user_position::UserPosition;
use surf::vault_state::{VaultState, WhirlpoolAdjustmentState};
use surf::whirlpool_position::WhirlpoolPosition;

#[test]
fn keys_compare_by_bytes() {
    let a = AccountKey { bytes: [1u8; 32] };
    let mut b = AccountKey { bytes: [1u8; 32] };
    assert!(a.same_as(&b));
    b.bytes[31] = 2;
    assert!(!a.same_as(&b));
}

#[test]
fn market_epoch_counter_and_current_id() {
    let mut vault = VaultState::empty();
    assert_eq!(vault.current_whirlpool_position_id, None);
    vault.open_whirlpool_position().unwrap();
    assert_eq!(vault.current_whirlpool_position_id, Some(0));
    vault.open_whirlpool_position().unwrap();
    assert_eq!(vault.current_whirlpool_position_id, Some(1));
    assert_eq!(vault.whirlpool_positions_count, 2);
    vault.whirlpool_positions_count = u64::MAX;
    assert_eq!(vault.open_whirlpool_position(), Err(SurfError::WhirlpoolPositionIdOverflow));
}

#[test]
fn hedge_epoch_ids() {
    let mut vault = VaultState::empty();
    assert_eq!(vault.update_hedge_position_id(), Err(SurfError::HedgePositionIdOverflow));
    vault.set_initial_hedge_position_id();
    vault.initialize_hedge_position().unwrap();
    vault.update_hedge_position_id().unwrap();
    assert_eq!(vault.current_hedge_position_id, Some(1));
    vault.hedge_positions_count = u64::MAX;
    assert_eq!(vault.initialize_hedge_position(), Err(SurfError::HedgePositionIdOverflow));
}

#[test]
fn vault_interest_growth_and_claims() {
    let mut vault = VaultState::empty();
    vault.claim_user_collateral_interest(2).unwrap();
    assert_eq!(vault.collateral_interest_growth_checkpoint, 2u128 << 64);
    vault.update_interest_growth(5).unwrap();
    assert_eq!(vault.collateral_interest_growth, (2u128 << 64) + 5);
    assert_eq!(vault.update_interest_growth(u128::MAX), Err(SurfError::CollateralInterestOverflow));
    vault.update_whirlpool_adjustment_state(WhirlpoolAdjustmentState::Above);
    assert_eq!(vault.whirlpool_adjustment_state, WhirlpoolAdjustmentState::Above);
    vault.update_hedge_adjustment_tick(-7);
    assert_eq!(vault.last_hedge_adjustment_tick, Some(-7));
}

#[test]
fn user_position_amounts() {
    let mut u = UserPosition::empty();
    u.open(3);
    assert_eq!(u.bump, 3);
    u.deposit_liquidity(10).unwrap();
    assert_eq!(u.deposit_liquidity(u128::MAX), Err(SurfError::LiquidityOverflow));
    assert_eq!(u.liquidity, 10);
    u.increase_hedge(5, 6, 7).unwrap();
    assert_eq!(u.increase_hedge(0, u64::MAX, 0), Err(SurfError::BorrowOverflow));
    assert_eq!(u.increase_hedge(u64::MAX, 0, 0), Err(SurfError::CollateralOverflow));
    assert_eq!(u.increase_hedge(0, 0, u64::MAX), Err(SurfError::BorrowNotionalOverflow));
    assert_eq!((u.collateral_amount, u.borrow_amount, u.borrow_amount_notional), (5, 6, 7));
    u.update_borrow_interest(4, 9).unwrap();
    u.update_collateral_interest(3, 8).unwrap();
    assert_eq!(u.decrease_hedge(6, 0, 0), Err(SurfError::CollateralOverflow));
    assert_eq!(u.decrease_hedge(0, 7, 0), Err(SurfError::BorrowOverflow));
    assert_eq!(u.decrease_hedge(0, 0, 8), Err(SurfError::BorrowNotionalOverflow));
    assert_eq!(u.borrow_interest_unclaimed, 4);
    u.decrease_hedge(1, 2, 3).unwrap();
    assert_eq!((u.collateral_amount, u.borrow_amount, u.borrow_amount_notional), (4, 4, 4));
    assert_eq!(u.borrow_interest_unclaimed, 0);
    assert_eq!(u.collateral_interest_unclaimed, 0);
    u.update_borrow_amounts(1, 2);
    assert_eq!((u.borrow_amount, u.borrow_amount_notional), (1, 2));
    u.update_borrow_interest(4, 9).unwrap();
    assert_eq!(u.update_borrow_interest(u64::MAX, 0), Err(SurfError::BorrowInterestOverflow));
    assert_eq!(u.borrow_interest_growth_checkpoint, 9);
    u.claim_borrow_interest();
    assert_eq!(u.borrow_interest_unclaimed, 0);
    u.update_collateral_interest(4, 9).unwrap();
    assert_eq!(
        u.update_collateral_interest(u64::MAX, 0),
        Err(SurfError::CollateralInterestOverflow)
    );
    u.claim_collateral_interest();
    assert_eq!(u.collateral_interest_unclaimed, 0);
}

#[test]
fn market_epoch_records() {
    let mut e = WhirlpoolPosition::empty();
    e.open(1, AccountKey { bytes: [3u8; 32] }, 4, AccountKey::zero(), 100, 1, 2, 30, 10, 20, 25, 15);
    assert_eq!(e.id, 4);
    assert_eq!(e.liquidity_diff, 0);
    e.deposit_liquidity(5).unwrap();
    assert_eq!(e.liquidity, 105);
    assert_eq!(e.deposit_liquidity(u128::MAX), Err(SurfError::LiquidityOverflow));
    e.update_fee_growths(7, 8);
    assert_eq!((e.base_token_fee_growth, e.quote_token_fee_growth), (7, 8));
    e.close(-5);
    assert_eq!(e.liquidity_diff, -5);
}

#[test]
fn hedge_slots_advance_until_exhausted() {
    let mut h = HedgePosition::empty();
    for i in 0..149u8 {
        assert_eq!(h.current_borrow_position_index, i);
        assert_eq!(h.update_current_position_id(), Some(()));
    }
    assert_eq!(h.current_borrow_position_index, 149);
    assert_eq!(h.update_current_position_id(), None);
    assert_eq!(h.current_borrow_position_index, 149);
}

#[test]
fn hedge_slot_amounts_and_diffs() {
    let mut h = HedgePosition::empty();
    h.increase_hedge(100, 200).unwrap();
    assert_eq!(h.increase_hedge(u64::MAX, 0), Err(SurfError::BorrowOverflow));
    assert_eq!(h.increase_hedge(0, u64::MAX), Err(SurfError::BorrowNotionalOverflow));
    h.decrease_hedge(10, 20).unwrap();
    assert_eq!(h.decrease_hedge(1000, 0), Err(SurfError::BorrowOverflow));
    assert_eq!(h.decrease_hedge(0, 1000), Err(SurfError::BorrowNotionalOverflow));
    let slot = h.get_current_position();
    assert_eq!((slot.borrowed_amount, slot.borrowed_amount_notional), (90, 180));
    assert_eq!(h.update_diffs(-30, 60), Ok((60, 240)));
    let slot = h.get_current_position();
    assert_eq!((slot.borrowed_amount_diff, slot.borrowed_amount_notional_diff), (-30, 60));
    assert_eq!(h.update_diffs(-91, 0), Err(SurfError::BorrowOverflow));
    h.update_interest_growth(3).unwrap();
    h.claim_user_borrow_interest(1).unwrap();
    h.update_interest_growth(3).unwrap();
    assert_eq!(h.get_current_position().borrow_interest_growth, (1u128 << 64) + 3);
    assert_eq!(h.update_interest_growth(u128::MAX), Err(SurfError::BorrowInterestOverflow));
    assert_eq!(calculate_new_amount(5, -6), None);
    assert_eq!(calculate_new_amount(5, -5), Some(0));
    assert_eq!(calculate_new_amount(u64::MAX, 1), None);
}

#[test]
fn interest_from_reported_balance() {
    assert_eq!(get_interest(100, 130, DriftMarket::Collateral), Ok(30));
    assert_eq!(get_interest(100, 90, DriftMarket::Borrow), Err(SurfError::MathError));
    assert_eq!(
        get_interest(0, u64::MAX as u128 + 1, DriftMarket::Borrow),
        Err(SurfError::BorrowInterestOverflow)
    );
    assert_eq!(
        get_interest(0, u64::MAX as u128 + 1, DriftMarket::Collateral),
        Err(SurfError::CollateralInterestOverflow)
    );
    assert_eq!(get_position_index(DriftMarket::Collateral), 0);
    assert_eq!(get_position_index(DriftMarket::Borrow), 1);
}

#[test]
fn vault_growths_from_reported_balances() {
    let mut vault = VaultState::empty();
    vault.collateral_amount = 1_000;
    sync_vault_collateral_interest_growth(&mut vault, 1_250).unwrap();
    assert_eq!(vault.collateral_interest_growth, 1u128 << 62);
    assert_eq!(sync_vault_collateral_interest_growth(&mut vault, 999), Err(SurfError::MathError));
    assert_eq!(vault.collateral_interest_growth, 1u128 << 62);
    let mut h = HedgePosition::empty();
    h.increase_hedge(4, 0).unwrap();
    sync_vault_borrow_interest_growth(&mut h, 6).unwrap();
    assert_eq!(h.get_current_position().borrow_interest_growth, 1u128 << 63);
    let mut empty = HedgePosition::empty();
    assert_eq!(sync_vault_borrow_interest_growth(&mut empty, 0), Err(SurfError::MathError));
}

#[test]
fn admin_and_mint_checks() {
    let admin = AccountKey { bytes: [4u8; 32] };
    let config = AdminConfig { admin_key: admin, bump: 0 };
    assert!(is_admin(&config, &admin));
    assert!(!is_admin(&config, &AccountKey::zero()));
    let a = AccountKey { bytes: [1u8; 32] };
    let b = AccountKey { bytes: [2u8; 32] };
    assert!(have_matching_mints(&a, &b, &a, &b));
    assert!(!have_matching_mints(&a, &b, &a, &a));
    assert!(!have_matching_mints(&a, &b, &b, &b));
}
