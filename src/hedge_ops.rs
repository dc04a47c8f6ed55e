use vstd::prelude::*;

use crate::errors::SurfError;
use crate::hedge_position::{BorrowPosition, HedgePosition};
use crate::user_position::UserPosition;
use crate::vault_state::VaultState;

verus! {

/// Adds a participant's new hedge to the vault: collateral to the vault's total, the
/// borrow to the current slot. Fails, changing nothing, with `CollateralOverflow`,
/// `BorrowOverflow` or `BorrowNotionalOverflow` when a total passes `u64::MAX`.
pub fn increase_vault_hedge_token_amounts(
    vault_state: &mut VaultState,
    hedge_position: &mut HedgePosition,
    collateral_amount: u64,
    borrow_amount: u64,
    borrow_amount_notional: u64,
) -> (r: Result<(), SurfError>)
    requires
        old(hedge_position).wf(),
    ensures
        final(hedge_position).wf(),
        old(vault_state).collateral_amount + collateral_amount > u64::MAX ==> r == Err::<
            (),
            SurfError,
        >(SurfError::CollateralOverflow),
        old(vault_state).collateral_amount + collateral_amount <= u64::MAX && old(hedge_position).current().borrowed_amount + borrow_amount > u64::MAX ==> r == Err::<(), SurfError>(
            SurfError::BorrowOverflow,
        ),
        old(vault_state).collateral_amount + collateral_amount <= u64::MAX && old(hedge_position).current().borrowed_amount + borrow_amount <= u64::MAX && old(hedge_position).current().borrowed_amount_notional + borrow_amount_notional > u64::MAX ==> r == Err::<
            (),
            SurfError,
        >(SurfError::BorrowNotionalOverflow),
        r is Err ==> *final(vault_state) == *old(vault_state) && *final(hedge_position) == *old(hedge_position),
        old(vault_state).collateral_amount + collateral_amount <= u64::MAX && old(hedge_position).current().borrowed_amount + borrow_amount <= u64::MAX && old(hedge_position).current().borrowed_amount_notional + borrow_amount_notional <= u64::MAX ==> r is Ok
            && *final(vault_state) == (VaultState {
            collateral_amount: (old(vault_state).collateral_amount + collateral_amount) as u64,
            ..*old(vault_state)
        }) && final(hedge_position).is_with_current(
            old(hedge_position),
            BorrowPosition {
                borrowed_amount: (old(hedge_position).current().borrowed_amount
                    + borrow_amount) as u64,
                borrowed_amount_notional: (old(hedge_position).current().borrowed_amount_notional
                    + borrow_amount_notional) as u64,
                ..old(hedge_position).current()
            },
        ),
{
    let collateral = match vault_state.collateral_amount.checked_add(collateral_amount) {
        None => {
            return Err(SurfError::CollateralOverflow);
        },
        Some(v) => v,
    };
    hedge_position.increase_hedge(borrow_amount, borrow_amount_notional)?;
    vault_state.collateral_amount = collateral;
    Ok(())
}

/// Removes a participant's repaid hedge from the vault: collateral from the vault's total,
/// the borrow from the current slot. Fails, changing nothing, with `CollateralOverflow`,
/// `BorrowOverflow` or `BorrowNotionalOverflow` when a total would go below zero.
pub fn decrease_vault_hedge_token_amounts(
    vault_state: &mut VaultState,
    hedge_position: &mut HedgePosition,
    collateral_amount: u64,
    borrow_amount: u64,
    borrow_amount_notional: u64,
) -> (r: Result<(), SurfError>)
    requires
        old(hedge_position).wf(),
    ensures
        final(hedge_position).wf(),
        old(vault_state).collateral_amount < collateral_amount ==> r == Err::<(), SurfError>(
            SurfError::CollateralOverflow,
        ),
        old(vault_state).collateral_amount >= collateral_amount && old(hedge_position).current().borrowed_amount < borrow_amount ==> r == Err::<(), SurfError>(
            SurfError::BorrowOverflow,
        ),
        old(vault_state).collateral_amount >= collateral_amount && old(hedge_position).current().borrowed_amount >= borrow_amount && old(hedge_position).current().borrowed_amount_notional < borrow_amount_notional ==> r == Err::<
            (),
            SurfError,
        >(SurfError::BorrowNotionalOverflow),
        r is Err ==> *final(vault_state) == *old(vault_state) && *final(hedge_position) == *old(hedge_position),
        old(vault_state).collateral_amount >= collateral_amount && old(hedge_position).current().borrowed_amount >= borrow_amount && old(hedge_position).current().borrowed_amount_notional >= borrow_amount_notional ==> r is Ok
            && *final(vault_state) == (VaultState {
            collateral_amount: (old(vault_state).collateral_amount - collateral_amount) as u64,
            ..*old(vault_state)
        }) && final(hedge_position).is_with_current(
            old(hedge_position),
            BorrowPosition {
                borrowed_amount: (old(hedge_position).current().borrowed_amount
                    - borrow_amount) as u64,
                borrowed_amount_notional: (old(hedge_position).current().borrowed_amount_notional
                    - borrow_amount_notional) as u64,
                ..old(hedge_position).current()
            },
        ),
{
    let collateral = match vault_state.collateral_amount.checked_sub(collateral_amount) {
        None => {
            return Err(SurfError::CollateralOverflow);
        },
        Some(v) => v,
    };
    hedge_position.decrease_hedge(borrow_amount, borrow_amount_notional)?;
    vault_state.collateral_amount = collateral;
    Ok(())
}

/// Collateral a participant must add before hedging: what its position requires beyond
/// what it already holds, or nothing.
pub fn collateral_to_deposit(required_collateral_amount: u64, current_collateral_amount: u64) -> (r:
    u64)
    ensures
        required_collateral_amount > current_collateral_amount ==> r == required_collateral_amount
            - current_collateral_amount,
        required_collateral_amount <= current_collateral_amount ==> r == 0,
{
    if required_collateral_amount > current_collateral_amount {
        required_collateral_amount - current_collateral_amount
    } else {
        0
    }
}

/// Whether a synced participant may borrow `borrow_amount` against its liquidity, whose
/// base token share is `base_token_whirlpool_amount`. Fails with `ZeroLiquidity`,
/// `ZeroBaseTokenWhirlpoolAmount` or `BorrowAmountTooHigh`, in that order.
pub fn validate_hedge_increase(
    user_position: &UserPosition,
    base_token_whirlpool_amount: u64,
    borrow_amount: u64,
) -> (r: Result<(), SurfError>)
    ensures
        user_position.liquidity == 0 ==> r == Err::<(), SurfError>(SurfError::ZeroLiquidity),
        user_position.liquidity > 0 && base_token_whirlpool_amount == 0 ==> r == Err::<
            (),
            SurfError,
        >(SurfError::ZeroBaseTokenWhirlpoolAmount),
        user_position.liquidity > 0 && base_token_whirlpool_amount > 0
            && base_token_whirlpool_amount < borrow_amount ==> r == Err::<(), SurfError>(
            SurfError::BorrowAmountTooHigh,
        ),
        user_position.liquidity > 0 && base_token_whirlpool_amount > 0 && borrow_amount
            <= base_token_whirlpool_amount ==> r is Ok,
{
    if user_position.liquidity == 0 {
        return Err(SurfError::ZeroLiquidity);
    }
    if base_token_whirlpool_amount == 0 {
        return Err(SurfError::ZeroBaseTokenWhirlpoolAmount);
    }
    if base_token_whirlpool_amount < borrow_amount {
        return Err(SurfError::BorrowAmountTooHigh);
    }
    Ok(())
}

/// Whether a participant may repay `borrow_amount`. Fails with `ZeroCollateral`,
/// `ZeroBorrow` or `InvalidBorrowAmount`, in that order.
pub fn validate_hedge_decrease(user_position: &UserPosition, borrow_amount: u64) -> (r: Result<
    (),
    SurfError,
>)
    ensures
        user_position.collateral_amount == 0 ==> r == Err::<(), SurfError>(
            SurfError::ZeroCollateral,
        ),
        user_position.collateral_amount > 0 && user_position.borrow_amount == 0 ==> r == Err::<
            (),
            SurfError,
        >(SurfError::ZeroBorrow),
        user_position.collateral_amount > 0 && user_position.borrow_amount > 0
            && user_position.borrow_amount < borrow_amount ==> r == Err::<(), SurfError>(
            SurfError::InvalidBorrowAmount,
        ),
        user_position.collateral_amount > 0 && 0 < user_position.borrow_amount && borrow_amount
            <= user_position.borrow_amount ==> r is Ok,
{
    if user_position.collateral_amount == 0 {
        return Err(SurfError::ZeroCollateral);
    }
    if user_position.borrow_amount == 0 {
        return Err(SurfError::ZeroBorrow);
    }
    if user_position.borrow_amount < borrow_amount {
        return Err(SurfError::InvalidBorrowAmount);
    }
    Ok(())
}

/// Collateral released when a participant repays `borrow_amount`: all of it once the
/// whole borrow is repaid, none on a partial repayment (the collateral then keeps backing
/// the rest of the borrow).
pub fn collateral_to_release(user_position: &UserPosition, borrow_amount: u64) -> (r: u64)
    ensures
        borrow_amount == user_position.borrow_amount ==> r == user_position.collateral_amount,
        borrow_amount != user_position.borrow_amount ==> r == 0,
{
    if user_position.borrow_amount == borrow_amount {
        user_position.collateral_amount
    } else {
        0
    }
}

} // verus!
