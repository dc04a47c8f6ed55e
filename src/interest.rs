use vstd::prelude::*;

use crate::errors::SurfError;
use crate::fixed_point::{calculate_interest_per_unit, interest_per_unit_of};
use crate::hedge_position::{BorrowPosition, HedgePosition};
use crate::vault_state::VaultState;

verus! {

/// Which balance of the lending service an amount belongs to.
#[derive(Clone, Copy, Debug, PartialEq, Eq, Structural)]
pub enum DriftMarket {
    Collateral,
    Borrow,
}

/// Slot of the lending service's account that holds each market's balance.
pub open spec fn market_position_index(market: DriftMarket) -> int {
    match market {
        DriftMarket::Collateral => 0,
        DriftMarket::Borrow => 1,
    }
}

/// The error that reports interest of `market` beyond `u64::MAX`.
pub open spec fn interest_overflow_error(market: DriftMarket) -> SurfError {
    match market {
        DriftMarket::Collateral => SurfError::CollateralInterestOverflow,
        DriftMarket::Borrow => SurfError::BorrowInterestOverflow,
    }
}

/// Index of the lending account's balance that belongs to `drift_market`.
pub fn get_position_index(drift_market: DriftMarket) -> (r: usize)
    ensures
        r == market_position_index(drift_market),
{
    match drift_market {
        DriftMarket::Borrow => 1,
        DriftMarket::Collateral => 0,
    }
}

/// Interest accrued on a balance: what the lending service reports with interest minus
/// what was deposited or borrowed. Fails with `MathError` when the reported amount is
/// below the principal, and with the market's interest overflow error past `u64::MAX`.
pub fn get_interest(
    token_amount_without_interest: u64,
    token_amount_with_interest: u128,
    drift_market: DriftMarket,
) -> (r: Result<u128, SurfError>)
    ensures
        token_amount_with_interest < token_amount_without_interest ==> r == Err::<u128, SurfError>(
            SurfError::MathError,
        ),
        token_amount_with_interest >= token_amount_without_interest && token_amount_with_interest
            - token_amount_without_interest > u64::MAX ==> r == Err::<u128, SurfError>(
            interest_overflow_error(drift_market),
        ),
        token_amount_with_interest >= token_amount_without_interest && token_amount_with_interest
            - token_amount_without_interest <= u64::MAX ==> r == Ok::<u128, SurfError>(
            (token_amount_with_interest - token_amount_without_interest) as u128,
        ),
{
    if token_amount_with_interest < token_amount_without_interest as u128 {
        return Err(SurfError::MathError);
    }
    let interest = token_amount_with_interest - token_amount_without_interest as u128;
    if interest > u64::MAX as u128 {
        return match drift_market {
            DriftMarket::Borrow => Err(SurfError::BorrowInterestOverflow),
            DriftMarket::Collateral => Err(SurfError::CollateralInterestOverflow),
        };
    }
    Ok(interest)
}

/// The fresh per-unit growth behind a balance of `principal` that the lending service
/// reports as `with_interest`, or the error that computing it meets.
pub open spec fn growth_from_balance(principal: int, with_interest: int, market: DriftMarket) -> Result<
    int,
    SurfError,
> {
    if with_interest < principal {
        Err(SurfError::MathError)
    } else if with_interest - principal > u64::MAX {
        Err(interest_overflow_error(market))
    } else if principal == 0 || principal < with_interest - principal {
        Err(SurfError::MathError)
    } else {
        Ok(interest_per_unit_of(principal, with_interest - principal))
    }
}

/// Refreshes the vault's collateral interest growth from the collateral balance the
/// lending service reports with interest: fresh per-unit growth plus the claimed
/// checkpoint. Fails, changing nothing, with the error of `growth_from_balance`, or with
/// `CollateralInterestOverflow` when the sum passes `u128::MAX`.
pub fn sync_vault_collateral_interest_growth(
    vault_state: &mut VaultState,
    collateral_with_interest: u128,
) -> (r: Result<(), SurfError>)
    ensures
        match growth_from_balance(
            old(vault_state).collateral_amount as int,
            collateral_with_interest as int,
            DriftMarket::Collateral,
        ) {
            Err(e) => r == Err::<(), SurfError>(e) && *final(vault_state) == *old(vault_state),
            Ok(g) => if g + old(vault_state).collateral_interest_growth_checkpoint > u128::MAX {
                r == Err::<(), SurfError>(SurfError::CollateralInterestOverflow) && *final(vault_state) == *old(vault_state)
            } else {
                r is Ok && *final(vault_state) == (VaultState {
                    collateral_interest_growth: (g
                        + old(vault_state).collateral_interest_growth_checkpoint) as u128,
                    ..*old(vault_state)
                })
            },
        },
{
    let interest = get_interest(vault_state.collateral_amount, collateral_with_interest, DriftMarket::Collateral)?;
    let growth = calculate_interest_per_unit(vault_state.collateral_amount, interest as u64)?;
    vault_state.update_interest_growth(growth)
}

/// Refreshes the current borrow slot's interest growth from the borrowed balance the
/// lending service reports with interest: fresh per-unit growth plus the slot's claimed
/// checkpoint. Fails, changing nothing, with the error of `growth_from_balance`, or with
/// `BorrowInterestOverflow` when the sum passes `u128::MAX`.
pub fn sync_vault_borrow_interest_growth(
    hedge_position: &mut HedgePosition,
    borrowed_with_interest: u128,
) -> (r: Result<(), SurfError>)
    requires
        old(hedge_position).wf(),
    ensures
        final(hedge_position).wf(),
        match growth_from_balance(
            old(hedge_position).current().borrowed_amount as int,
            borrowed_with_interest as int,
            DriftMarket::Borrow,
        ) {
            Err(e) => r == Err::<(), SurfError>(e) && *final(hedge_position) == *old(hedge_position),
            Ok(g) => if g + old(hedge_position).current().borrow_interest_growth_checkpoint
                > u128::MAX {
                r == Err::<(), SurfError>(SurfError::BorrowInterestOverflow) && *final(hedge_position) == *old(hedge_position)
            } else {
                r is Ok && final(hedge_position).is_with_current(
                    old(hedge_position),
                    BorrowPosition {
                        borrow_interest_growth: (g
                            + old(hedge_position).current().borrow_interest_growth_checkpoint) as u128,
                        ..old(hedge_position).current()
                    },
                )
            },
        },
{
    let current = hedge_position.get_current_position();
    let interest = get_interest(current.borrowed_amount, borrowed_with_interest, DriftMarket::Borrow)?;
    let growth = calculate_interest_per_unit(current.borrowed_amount, interest as u64)?;
    hedge_position.update_interest_growth(growth)
}

/// Refreshes both interest growths, all or nothing: on success each is what the single
/// refresh gives, and on failure neither record changes.
pub fn sync_vault_interest_growths(
    vault_state: &mut VaultState,
    hedge_position: &mut HedgePosition,
    collateral_with_interest: u128,
    borrowed_with_interest: u128,
) -> (r: Result<(), SurfError>)
    requires
        old(hedge_position).wf(),
    ensures
        final(hedge_position).wf(),
        r is Err ==> *final(vault_state) == *old(vault_state) && *final(hedge_position) == *old(hedge_position),
        r is Ok <==> growth_from_balance(
            old(vault_state).collateral_amount as int,
            collateral_with_interest as int,
            DriftMarket::Collateral,
        ) is Ok && growth_from_balance(
            old(hedge_position).current().borrowed_amount as int,
            borrowed_with_interest as int,
            DriftMarket::Borrow,
        ) is Ok && growth_from_balance(
            old(vault_state).collateral_amount as int,
            collateral_with_interest as int,
            DriftMarket::Collateral,
        )->Ok_0 + old(vault_state).collateral_interest_growth_checkpoint <= u128::MAX
            && growth_from_balance(
            old(hedge_position).current().borrowed_amount as int,
            borrowed_with_interest as int,
            DriftMarket::Borrow,
        )->Ok_0 + old(hedge_position).current().borrow_interest_growth_checkpoint <= u128::MAX,
        r is Ok ==> *final(vault_state) == (VaultState {
            collateral_interest_growth: (growth_from_balance(
                old(vault_state).collateral_amount as int,
                collateral_with_interest as int,
                DriftMarket::Collateral,
            )->Ok_0 + old(vault_state).collateral_interest_growth_checkpoint) as u128,
            ..*old(vault_state)
        }) && final(hedge_position).is_with_current(
            old(hedge_position),
            BorrowPosition {
                borrow_interest_growth: (growth_from_balance(
                    old(hedge_position).current().borrowed_amount as int,
                    borrowed_with_interest as int,
                    DriftMarket::Borrow,
                )->Ok_0 + old(hedge_position).current().borrow_interest_growth_checkpoint) as u128,
                ..old(hedge_position).current()
            },
        ),
        r is Ok ==> final(vault_state).collateral_interest_growth == growth_from_balance(
            old(vault_state).collateral_amount as int,
            collateral_with_interest as int,
            DriftMarket::Collateral,
        )->Ok_0 + old(vault_state).collateral_interest_growth_checkpoint && final(hedge_position).current().borrow_interest_growth == growth_from_balance(
            old(hedge_position).current().borrowed_amount as int,
            borrowed_with_interest as int,
            DriftMarket::Borrow,
        )->Ok_0 + old(hedge_position).current().borrow_interest_growth_checkpoint,
{
    let mut next_vault = *vault_state;
    sync_vault_collateral_interest_growth(&mut next_vault, collateral_with_interest)?;
    sync_vault_borrow_interest_growth(hedge_position, borrowed_with_interest)?;
    *vault_state = next_vault;
    Ok(())
}

} // verus!
