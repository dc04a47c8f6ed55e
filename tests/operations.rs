use surf::errors::SurfError;
use surf::hedge_position::HedgePosition;
use surf::key::AccountKey;
use surf::operations::{
    adjust_whirlpool_position, close_user_position, collect_user_fees_and_rewards,
    deposit_liquidity, open_hedge_position, open_whirlpool_position, validate_hedge_position,
    validate_user_position_sync, validate_whirlpool_adjustment,
};
use surf::sync::sync_user_whirlpool_position;
use surf::tick_range::RangeBounds;
use surf::user_position::UserPosition;
use surf::vault_state::{VaultState, WhirlpoolAdjustmentState};
use surf::whirlpool_position::WhirlpoolPosition;

fn key() -> AccountKey {
    AccountKey { bytes: [5u8; 32] }
}

fn bounds(upper: u128, lower: u128) -> RangeBounds {
    RangeBounds { upper_tick_index: 10, lower_tick_index: -10, upper_sqrt_price: upper, lower_sqrt_price: lower }
}

fn first_epoch(vault: &mut VaultState, liquidity: u128) -> WhirlpoolPosition {
    let mut e = WhirlpoolPosition::empty();
    e.open(0, key(), 0, AccountKey::zero(), liquidity, 0, 0, 300, 100, 200, 250, 150);
    vault.open_whirlpool_position().unwrap();
    e
}

#[test]
fn deposit_needs_synced_participant() {
    let mut vault = VaultState::empty();
    let mut e0 = first_epoch(&mut vault, 1_000);
    let mut user = UserPosition::empty();
    user.whirlpool_position_id = 1;
    assert_eq!(deposit_liquidity(&mut user, &mut e0, &vault, 10), Err(SurfError::UserPositionNotSynced));
    user.whirlpool_position_id = 0;
    deposit_liquidity(&mut user, &mut e0, &vault, 10).unwrap();
    assert_eq!(user.liquidity, 10);
    assert_eq!(e0.liquidity, 1_010);
}

#[test]
fn deposit_credits_fees_first() {
    let mut vault = VaultState::empty();
    let mut e0 = first_epoch(&mut vault, 1_000);
    let mut user = UserPosition::empty();
    deposit_liquidity(&mut user, &mut e0, &vault, 4).unwrap();
    e0.update_fee_growths(1u128 << 64, 2u128 << 64);
    deposit_liquidity(&mut user, &mut e0, &vault, 4).unwrap();
    assert_eq!(user.fee_unclaimed_base_token, 4);
    assert_eq!(user.fee_unclaimed_quote_token, 8);
    assert_eq!(user.liquidity, 8);
    assert_eq!(collect_user_fees_and_rewards(&mut user), (4, 8));
    assert_eq!((user.fee_unclaimed_base_token, user.fee_unclaimed_quote_token), (0, 0));
}

#[test]
fn deposit_into_old_epoch_is_rejected() {
    let mut vault = VaultState::empty();
    let mut e0 = first_epoch(&mut vault, 1_000);
    vault.open_whirlpool_position().unwrap();
    let mut user = UserPosition::empty();
    assert_eq!(deposit_liquidity(&mut user, &mut e0, &vault, 1), Err(SurfError::InvalidWhirlpoolPosition));
}

#[test]
fn range_exit_direction() {
    let mut vault = VaultState::empty();
    let e0 = first_epoch(&mut vault, 1);
    assert_eq!(validate_whirlpool_adjustment(251, &e0), Ok(true));
    assert_eq!(validate_whirlpool_adjustment(149, &e0), Ok(false));
    assert_eq!(validate_whirlpool_adjustment(200, &e0), Err(SurfError::SqrtPriceNotOutOfBounds));
    assert_eq!(validate_whirlpool_adjustment(250, &e0), Err(SurfError::SqrtPriceNotOutOfBounds));
}

#[test]
fn market_rebalance_closes_epoch_and_participants_follow() {
    let mut vault = VaultState::empty();
    let mut e0 = first_epoch(&mut vault, 10_000);
    let mut e1 = WhirlpoolPosition::empty();
    adjust_whirlpool_position(
        &mut vault, &mut e0, &mut e1, key(), 2, AccountKey::zero(), 9_000, 11, 12,
        &bounds(400, 200), &bounds(350, 250), 300, true,
    )
    .unwrap();
    assert_eq!(e0.liquidity_diff, -1_000);
    assert_eq!((e0.base_token_fee_growth, e0.quote_token_fee_growth), (11, 12));
    assert_eq!(e1.id, 1);
    assert_eq!(e1.liquidity, 9_000);
    assert_eq!(e1.inner_upper_sqrt_price, 350);
    assert_eq!(vault.current_whirlpool_position_id, Some(1));
    assert_eq!(vault.whirlpool_adjustment_state, WhirlpoolAdjustmentState::Above);
    let mut a = UserPosition::empty();
    a.liquidity = 2_500;
    let mut b = UserPosition::empty();
    b.liquidity = 7_500;
    sync_user_whirlpool_position(&mut a, &vault, &key(), &vec![e0, e1]).unwrap();
    sync_user_whirlpool_position(&mut b, &vault, &key(), &vec![e0, e1]).unwrap();
    assert_eq!((a.liquidity, b.liquidity), (2_250, 6_750));
    assert_eq!(a.liquidity + b.liquidity, e1.liquidity);
    assert_eq!((a.whirlpool_position_id, b.whirlpool_position_id), (1, 1));
}

#[test]
fn market_rebalance_only_from_current_epoch() {
    let mut vault = VaultState::empty();
    let mut e0 = first_epoch(&mut vault, 10_000);
    vault.open_whirlpool_position().unwrap();
    let mut e1 = WhirlpoolPosition::empty();
    let r = adjust_whirlpool_position(
        &mut vault, &mut e0, &mut e1, key(), 2, AccountKey::zero(), 9_000, 0, 0,
        &bounds(400, 200), &bounds(350, 250), 300, false,
    );
    assert_eq!(r, Err(SurfError::InvalidWhirlpoolPosition));
    assert_eq!(e0.liquidity_diff, 0);
}

#[test]
fn hedge_epochs_open_in_order() {
    let mut vault = VaultState::empty();
    let mut h0 = HedgePosition::empty();
    open_hedge_position(&mut vault, &mut h0, key(), 1).unwrap();
    assert_eq!(h0.id, 0);
    assert_eq!(vault.current_hedge_position_id, Some(0));
    let mut h1 = HedgePosition::empty();
    open_hedge_position(&mut vault, &mut h1, key(), 1).unwrap();
    assert_eq!(h1.id, 1);
    assert_eq!(vault.current_hedge_position_id, Some(0));
    assert_eq!(vault.hedge_positions_count, 2);
}

#[test]
fn sync_check_and_close() {
    let mut user = UserPosition::empty();
    let h = HedgePosition::empty();
    let e = WhirlpoolPosition::empty();
    assert_eq!(validate_user_position_sync(&user, Some(&h), Some(&e)), Ok(()));
    user.borrow_position_index = 1;
    assert_eq!(validate_user_position_sync(&user, Some(&h), None), Err(SurfError::UserPositionNotSynced));
    assert_eq!(validate_user_position_sync(&user, None, Some(&e)), Ok(()));
    assert_eq!(close_user_position(&user), Ok(()));
    user.collateral_amount = 1;
    assert_eq!(close_user_position(&user), Err(SurfError::UserPositionNotEmpty));
}

#[test]
fn first_market_epoch_opens_once() {
    let mut vault = VaultState::empty();
    let mut e0 = WhirlpoolPosition::empty();
    open_whirlpool_position(&mut vault, &mut e0, key(), 3, AccountKey::zero(), 7, 8, &bounds(400, 200), &bounds(350, 250), 300)
        .unwrap();
    assert_eq!(e0.id, 0);
    assert_eq!(e0.liquidity, 0);
    assert_eq!((e0.base_token_fee_growth, e0.quote_token_fee_growth), (7, 8));
    assert_eq!((e0.upper_sqrt_price, e0.inner_lower_sqrt_price, e0.middle_sqrt_price), (400, 250, 300));
    assert_eq!(vault.current_whirlpool_position_id, Some(0));
    let mut again = WhirlpoolPosition::empty();
    assert_eq!(
        open_whirlpool_position(&mut vault, &mut again, key(), 3, AccountKey::zero(), 7, 8, &bounds(400, 200), &bounds(350, 250), 300),
        Err(SurfError::VaultPositionAlreadyOpen)
    );
    assert_eq!(vault.whirlpool_positions_count, 1);
}

#[test]
fn hedge_position_key_check() {
    let mut vault = VaultState::empty();
    let derived = AccountKey { bytes: [8u8; 32] };
    assert_eq!(validate_hedge_position(&vault, &derived, &derived), Err(SurfError::InvalidHedgePosition));
    let mut h = HedgePosition::empty();
    open_hedge_position(&mut vault, &mut h, key(), 0).unwrap();
    assert_eq!(validate_hedge_position(&vault, &derived, &derived), Ok(()));
    assert_eq!(validate_hedge_position(&vault, &key(), &derived), Err(SurfError::InvalidHedgePosition));
}

#[test]
fn rebalance_epoch_counter_exhausted() {
    let mut vault = VaultState::empty();
    let mut e0 = first_epoch(&mut vault, 10);
    vault.whirlpool_positions_count = u64::MAX;
    vault.current_whirlpool_position_id = Some(0);
    let mut e1 = WhirlpoolPosition::empty();
    let r = adjust_whirlpool_position(
        &mut vault, &mut e0, &mut e1, key(), 2, AccountKey::zero(), 9, 0, 0,
        &bounds(400, 200), &bounds(350, 250), 300, true,
    );
    assert_eq!(r, Err(SurfError::WhirlpoolPositionIdOverflow));
}
