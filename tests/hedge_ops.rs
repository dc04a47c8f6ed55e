use surf::errors::SurfError;
use surf::hedge_ops::{
    collateral_to_deposit, collateral_to_release, decrease_vault_hedge_token_amounts,
    increase_vault_hedge_token_amounts, validate_hedge_decrease, validate_hedge_increase,
};
use surf::hedge_position::HedgePosition;
use surf::user_position::UserPosition;
use surf::vault_state::VaultState;

#[test]
fn vault_hedge_totals_move_together() {
    let mut vault = VaultState::empty();
    let mut h = HedgePosition::empty();
    increase_vault_hedge_token_amounts(&mut vault, &mut h, 300, 40, 80).unwrap();
    assert_eq!(vault.collateral_amount, 300);
    assert_eq!(h.get_current_position().borrowed_amount, 40);
    assert_eq!(h.get_current_position().borrowed_amount_notional, 80);
    assert_eq!(
        increase_vault_hedge_token_amounts(&mut vault, &mut h, 1, u64::MAX, 0),
        Err(SurfError::BorrowOverflow)
    );
    assert_eq!(vault.collateral_amount, 300);
    assert_eq!(
        increase_vault_hedge_token_amounts(&mut vault, &mut h, u64::MAX, 0, 0),
        Err(SurfError::CollateralOverflow)
    );
    decrease_vault_hedge_token_amounts(&mut vault, &mut h, 100, 40, 80).unwrap();
    assert_eq!(vault.collateral_amount, 200);
    assert_eq!(h.get_current_position().borrowed_amount, 0);
    assert_eq!(
        decrease_vault_hedge_token_amounts(&mut vault, &mut h, 0, 0, 1),
        Err(SurfError::BorrowNotionalOverflow)
    );
    assert_eq!(
        decrease_vault_hedge_token_amounts(&mut vault, &mut h, 201, 0, 0),
        Err(SurfError::CollateralOverflow)
    );
}

#[test]
fn collateral_top_up_and_release() {
    assert_eq!(collateral_to_deposit(100, 30), 70);
    assert_eq!(collateral_to_deposit(30, 100), 0);
    let mut u = UserPosition::empty();
    u.collateral_amount = 50;
    u.borrow_amount = 10;
    assert_eq!(collateral_to_release(&u, 10), 50);
    assert_eq!(collateral_to_release(&u, 4), 0);
}

#[test]
fn hedge_preconditions() {
    let mut u = UserPosition::empty();
    assert_eq!(validate_hedge_increase(&u, 10, 5), Err(SurfError::ZeroLiquidity));
    u.liquidity = 1;
    assert_eq!(validate_hedge_increase(&u, 0, 5), Err(SurfError::ZeroBaseTokenWhirlpoolAmount));
    assert_eq!(validate_hedge_increase(&u, 4, 5), Err(SurfError::BorrowAmountTooHigh));
    assert_eq!(validate_hedge_increase(&u, 5, 5), Ok(()));
    assert_eq!(validate_hedge_decrease(&u, 1), Err(SurfError::ZeroCollateral));
    u.collateral_amount = 1;
    assert_eq!(validate_hedge_decrease(&u, 1), Err(SurfError::ZeroBorrow));
    u.borrow_amount = 3;
    assert_eq!(validate_hedge_decrease(&u, 4), Err(SurfError::InvalidBorrowAmount));
    assert_eq!(validate_hedge_decrease(&u, 3), Ok(()));
}
