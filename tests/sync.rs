use surf::errors::SurfError;
use surf::hedge_position::{HedgePosition, BORROW_POSITIONS_CAPACITY};
use surf::hedge_sync::{sync_user_hedge_position, update_user_borrow_interest};
use surf::key::AccountKey;
use surf::sync::{sync_user_whirlpool_position, update_user_fees_and_rewards, update_user_liquidity};
use surf::user_position::UserPosition;
use surf::vault_state::VaultState;
use surf::whirlpool_position::WhirlpoolPosition;

fn vault_key() -> AccountKey {
    AccountKey { bytes: [7u8; 32] }
}

fn vault_with_market_epochs(count: u64) -> VaultState {
    let mut vault = VaultState::empty();
    for _ in 0..count {
        vault.open_whirlpool_position().unwrap();
    }
    vault
}

fn market_epoch(id: u64, liquidity: u128, diff: i128, growth: u128) -> WhirlpoolPosition {
    let mut e = WhirlpoolPosition::empty();
    e.open(0, vault_key(), id, AccountKey::zero(), liquidity, growth, growth, 0, 0, 0, 0, 0);
    e.close(diff);
    e
}

fn participant(liquidity: u128, cursor: u64) -> UserPosition {
    let mut u = UserPosition::empty();
    u.liquidity = liquidity;
    u.whirlpool_position_id = cursor;
    u
}

#[test]
fn sync_rejects_skipped_epoch_then_walks_in_order() {
    let vault = vault_with_market_epochs(6);
    assert_eq!(vault.current_whirlpool_position_id, Some(5));
    let e3 = market_epoch(3, 10_000, -1_000, 0);
    let e4 = market_epoch(4, 9_000, 0, 0);
    let e5 = market_epoch(5, 9_000, 0, 0);
    let mut user = participant(2_500, 3);
    let before = user;
    let r = sync_user_whirlpool_position(&mut user, &vault, &vault_key(), &vec![e5]);
    assert_eq!(r, Err(SurfError::InvalidSyncOrder));
    assert_eq!(user.whirlpool_position_id, before.whirlpool_position_id);
    assert_eq!(user.liquidity, before.liquidity);
    let r = sync_user_whirlpool_position(&mut user, &vault, &vault_key(), &vec![e3, e4]);
    assert_eq!(r, Ok(()));
    assert_eq!(user.whirlpool_position_id, 5);
    assert_eq!(user.liquidity, 2_250);
}

#[test]
fn bad_batch_changes_nothing() {
    let vault = vault_with_market_epochs(6);
    let e3 = market_epoch(3, 10_000, -1_000, 0);
    let e5 = market_epoch(5, 9_000, 0, 0);
    let mut user = participant(2_500, 3);
    let r = sync_user_whirlpool_position(&mut user, &vault, &vault_key(), &vec![e3, e5]);
    assert_eq!(r, Err(SurfError::InvalidSyncOrder));
    assert_eq!(user.whirlpool_position_id, 3);
    assert_eq!(user.liquidity, 2_500);
}

#[test]
fn epoch_of_other_vault_is_rejected() {
    let vault = vault_with_market_epochs(2);
    let mut e0 = market_epoch(0, 10_000, 0, 0);
    e0.vault_state = AccountKey { bytes: [9u8; 32] };
    let mut user = participant(1, 0);
    let r = sync_user_whirlpool_position(&mut user, &vault, &vault_key(), &vec![e0]);
    assert_eq!(r, Err(SurfError::InvalidWhirlpoolPosition));
}

#[test]
fn epoch_beyond_vault_is_rejected() {
    let vault = vault_with_market_epochs(2);
    let e2 = market_epoch(2, 10_000, 0, 0);
    let mut user = participant(1, 2);
    let r = sync_user_whirlpool_position(&mut user, &vault, &vault_key(), &vec![e2]);
    assert_eq!(r, Err(SurfError::InvalidWhirlpoolPosition));
}

#[test]
fn current_epoch_keeps_cursor_and_is_idempotent() {
    let vault = vault_with_market_epochs(1);
    let e0 = market_epoch(0, 10_000, 0, 5u128 << 64);
    let mut user = participant(3, 0);
    sync_user_whirlpool_position(&mut user, &vault, &vault_key(), &vec![e0]).unwrap();
    assert_eq!(user.whirlpool_position_id, 0);
    assert_eq!(user.fee_unclaimed_base_token, 15);
    assert_eq!(user.fee_unclaimed_quote_token, 15);
    let once = user;
    sync_user_whirlpool_position(&mut user, &vault, &vault_key(), &vec![e0]).unwrap();
    assert_eq!(user.fee_unclaimed_base_token, once.fee_unclaimed_base_token);
    assert_eq!(user.fee_unclaimed_quote_token, once.fee_unclaimed_quote_token);
    assert_eq!(user.fee_growth_checkpoint_base_token, once.fee_growth_checkpoint_base_token);
    assert_eq!(user.liquidity, once.liquidity);
    assert_eq!(user.whirlpool_position_id, 0);
}

#[test]
fn cursor_never_passes_current_epoch() {
    let vault = vault_with_market_epochs(3);
    let epochs = vec![
        market_epoch(0, 100, 0, 0),
        market_epoch(1, 100, 0, 0),
        market_epoch(2, 100, 0, 0),
    ];
    let mut user = participant(10, 0);
    sync_user_whirlpool_position(&mut user, &vault, &vault_key(), &epochs).unwrap();
    assert_eq!(user.whirlpool_position_id, 2);
}

#[test]
fn repeated_current_epoch_in_batch_is_rejected() {
    let vault = vault_with_market_epochs(3);
    let epochs = vec![
        market_epoch(0, 100, 0, 0),
        market_epoch(1, 100, 0, 0),
        market_epoch(2, 100, 0, 0),
        market_epoch(2, 100, 0, 0),
    ];
    let mut user = participant(10, 0);
    let r = sync_user_whirlpool_position(&mut user, &vault, &vault_key(), &epochs);
    assert_eq!(r, Err(SurfError::InvalidSyncOrder));
    assert_eq!(user.whirlpool_position_id, 0);
}

#[test]
fn repeated_current_hedge_epoch_in_batch_is_rejected() {
    let vault = vault_with_hedge_epochs(1);
    let h = hedge_epoch(0, 0);
    let mut user = UserPosition::empty();
    let r = sync_user_hedge_position(&mut user, &vault, &vault_key(), &vec![h.clone(), h]);
    assert_eq!(r, Err(SurfError::InvalidSyncOrder));
}

#[test]
fn fees_accumulate_with_wrapping_growth() {
    let mut user = participant(4, 0);
    user.fee_growth_checkpoint_base_token = u128::MAX;
    user.fee_growth_checkpoint_quote_token = 0;
    user.fee_unclaimed_base_token = 1;
    let e = market_epoch(0, 0, 0, (1u128 << 64) - 1);
    update_user_fees_and_rewards(&mut user, &e).unwrap();
    assert_eq!(user.fee_unclaimed_base_token, 1 + 4);
    assert_eq!(user.fee_unclaimed_quote_token, 3);
    assert_eq!(user.fee_growth_checkpoint_base_token, (1u128 << 64) - 1);
}

#[test]
fn fee_overflow_is_math_error() {
    let mut user = participant(u128::MAX, 0);
    let e = market_epoch(0, 0, 0, 2);
    assert_eq!(update_user_fees_and_rewards(&mut user, &e), Err(SurfError::MathError));
    assert_eq!(user.fee_growth_checkpoint_base_token, 0);
}

#[test]
fn empty_epoch_liquidity_is_rejected() {
    let mut user = participant(5, 0);
    let e = market_epoch(0, 0, 10, 0);
    assert_eq!(update_user_liquidity(&mut user, &e), Err(SurfError::LiquidityDiffTooHigh));
    assert_eq!(user.liquidity, 5);
}

fn hedge_epoch(id: u64, current_slot: u8) -> HedgePosition {
    let mut h = HedgePosition::empty();
    h.initialize(0, vault_key(), id);
    h.current_borrow_position_index = current_slot;
    h
}

fn vault_with_hedge_epochs(count: u64) -> VaultState {
    let mut vault = VaultState::empty();
    vault.set_initial_hedge_position_id();
    vault.initialize_hedge_position().unwrap();
    for _ in 1..count {
        vault.initialize_hedge_position().unwrap();
        vault.update_hedge_position_id().unwrap();
    }
    vault
}

#[test]
fn hedge_sync_applies_closed_slots_and_stops_at_current() {
    let vault = vault_with_hedge_epochs(1);
    let mut h = hedge_epoch(0, 2);
    h.borrow_positions[0].borrowed_amount = 1_000;
    h.borrow_positions[0].borrowed_amount_diff = -100;
    h.borrow_positions[0].borrowed_amount_notional = 2_000;
    h.borrow_positions[0].borrowed_amount_notional_diff = -200;
    h.borrow_positions[0].borrow_interest_growth = 1u128 << 63;
    h.borrow_positions[1].borrowed_amount = 900;
    h.borrow_positions[1].borrowed_amount_notional = 1_800;
    h.borrow_positions[2].borrowed_amount = 900;
    h.borrow_positions[2].borrowed_amount_notional = 1_800;
    h.borrow_positions[2].borrow_interest_growth = 1u128 << 64;
    let mut user = UserPosition::empty();
    user.borrow_amount = 100;
    user.borrow_amount_notional = 200;
    sync_user_hedge_position(&mut user, &vault, &vault_key(), &vec![h.clone()]).unwrap();
    assert_eq!(user.borrow_position_index, 2);
    assert_eq!(user.hedge_position_id, 0);
    assert_eq!(user.borrow_amount, 90);
    assert_eq!(user.borrow_amount_notional, 180);
    // 100 * 0.5 in the first slot, then 90 * 1 in the current one.
    assert_eq!(user.borrow_interest_unclaimed, 50 + 90);
    let once = user;
    sync_user_hedge_position(&mut user, &vault, &vault_key(), &vec![h]).unwrap();
    assert_eq!(user.borrow_interest_unclaimed, once.borrow_interest_unclaimed);
    assert_eq!(user.borrow_position_index, 2);
}

#[test]
fn hedge_sync_rolls_to_next_epoch() {
    let vault = vault_with_hedge_epochs(2);
    assert_eq!(vault.current_hedge_position_id, Some(1));
    let h0 = hedge_epoch(0, 149);
    let h1 = hedge_epoch(1, 0);
    let mut user = UserPosition::empty();
    sync_user_hedge_position(&mut user, &vault, &vault_key(), &vec![h0, h1]).unwrap();
    assert_eq!(user.hedge_position_id, 1);
    assert_eq!(user.borrow_position_index, 0);
}

#[test]
fn hedge_sync_out_of_order_is_rejected() {
    let vault = vault_with_hedge_epochs(2);
    let h1 = hedge_epoch(1, 0);
    let mut user = UserPosition::empty();
    let r = sync_user_hedge_position(&mut user, &vault, &vault_key(), &vec![h1]);
    assert_eq!(r, Err(SurfError::InvalidSyncOrder));
}

#[test]
fn hedge_sync_malformed_epoch_is_rejected() {
    let vault = vault_with_hedge_epochs(1);
    let mut h = hedge_epoch(0, 0);
    h.borrow_positions.pop();
    assert_eq!(h.borrow_positions.len(), BORROW_POSITIONS_CAPACITY - 1);
    let mut user = UserPosition::empty();
    let r = sync_user_hedge_position(&mut user, &vault, &vault_key(), &vec![h]);
    assert_eq!(r, Err(SurfError::InvalidHedgePosition));
}

#[test]
fn collateral_interest_is_credited_after_hedge_walk() {
    let mut vault = vault_with_hedge_epochs(1);
    vault.collateral_interest_growth = 3u128 << 62;
    let mut user = UserPosition::empty();
    user.collateral_amount = 8;
    sync_user_hedge_position(&mut user, &vault, &vault_key(), &vec![]).unwrap();
    assert_eq!(user.collateral_interest_unclaimed, 6);
    assert_eq!(user.collateral_interest_growth_checkpoint, 3u128 << 62);
}

#[test]
fn borrow_interest_growth_going_back_is_math_error() {
    let mut user = UserPosition::empty();
    user.borrow_interest_growth_checkpoint = 10;
    let h = hedge_epoch(0, 0);
    let slot = h.borrow_positions[0];
    assert_eq!(update_user_borrow_interest(&mut user, &slot), Err(SurfError::MathError));
}
