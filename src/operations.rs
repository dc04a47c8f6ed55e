use vstd::prelude::*;

use crate::errors::SurfError;
use crate::hedge_position::HedgePosition;
use crate::key::AccountKey;
use crate::sync::{applied, fees_synced, update_user_fees_and_rewards};
use crate::tick_range::RangeBounds;
use crate::user_position::UserPosition;
use crate::vault_state::{VaultState, WhirlpoolAdjustmentState};
use crate::whirlpool_position::WhirlpoolPosition;

verus! {

/// Whether the participant's cursors point at the given epochs. Fails with
/// `UserPositionNotSynced` when one does not.
pub fn validate_user_position_sync(
    user_position: &UserPosition,
    hedge_position: Option<&HedgePosition>,
    whirlpool_position: Option<&WhirlpoolPosition>,
) -> (r: Result<(), SurfError>)
    ensures
        r is Ok <==> (match hedge_position {
            Some(hp) => user_position.hedge_position_id == hp.id
                && user_position.borrow_position_index == hp.current_borrow_position_index,
            None => true,
        }) && (match whirlpool_position {
            Some(wp) => user_position.whirlpool_position_id == wp.id,
            None => true,
        }),
        r is Err ==> r == Err::<(), SurfError>(SurfError::UserPositionNotSynced),
{
    if let Some(hp) = hedge_position {
        if user_position.hedge_position_id != hp.id || user_position.borrow_position_index
            != hp.current_borrow_position_index {
            return Err(SurfError::UserPositionNotSynced);
        }
    }
    if let Some(wp) = whirlpool_position {
        if user_position.whirlpool_position_id != wp.id {
            return Err(SurfError::UserPositionNotSynced);
        }
    }
    Ok(())
}

/// The participant and the current market epoch after a deposit of `liquidity_input`:
/// fees up to the epoch's snapshot are credited first, then both gain the liquidity.
pub open spec fn deposited(
    u: UserPosition,
    e: WhirlpoolPosition,
    vault: VaultState,
    liquidity_input: u128,
) -> Result<(UserPosition, WhirlpoolPosition), SurfError> {
    if vault.current_whirlpool_position_id != Some(e.id) {
        Err(SurfError::InvalidWhirlpoolPosition)
    } else if u.whirlpool_position_id != e.id {
        Err(SurfError::UserPositionNotSynced)
    } else {
        match fees_synced(u, e) {
            Err(x) => Err(x),
            Ok(u1) => if u1.liquidity + liquidity_input > u128::MAX || e.liquidity
                + liquidity_input > u128::MAX {
                Err(SurfError::LiquidityOverflow)
            } else {
                Ok(
                    (
                        UserPosition { liquidity: (u1.liquidity + liquidity_input) as u128, ..u1 },
                        WhirlpoolPosition {
                            liquidity: (e.liquidity + liquidity_input) as u128,
                            ..e
                        },
                    ),
                )
            },
        }
    }
}

/// Records a deposit of liquidity into the vault's current market epoch. The participant
/// must be synced to that epoch (`UserPositionNotSynced` otherwise) and the epoch must be
/// the vault's current one (`InvalidWhirlpoolPosition` otherwise). Fees are credited before
/// the liquidity changes. All or nothing.
pub fn deposit_liquidity(
    user_position: &mut UserPosition,
    whirlpool_position: &mut WhirlpoolPosition,
    vault_state: &VaultState,
    liquidity_input: u128,
) -> (r: Result<(), SurfError>)
    ensures
        match deposited(*old(user_position), *old(whirlpool_position), *vault_state, liquidity_input) {
            Ok((u, e)) => r is Ok && *final(user_position) == u && *final(whirlpool_position) == e,
            Err(x) => r == Err::<(), SurfError>(x) && *final(user_position) == *old(user_position)
                && *final(whirlpool_position) == *old(whirlpool_position),
        },
{
    let is_current = match vault_state.current_whirlpool_position_id {
        Some(id) => id == whirlpool_position.id,
        None => false,
    };
    if !is_current {
        return Err(SurfError::InvalidWhirlpoolPosition);
    }
    if user_position.whirlpool_position_id != whirlpool_position.id {
        return Err(SurfError::UserPositionNotSynced);
    }
    let mut next_user = *user_position;
    let mut next_epoch = *whirlpool_position;
    update_user_fees_and_rewards(&mut next_user, whirlpool_position)?;
    if next_user.liquidity.checked_add(liquidity_input).is_none() {
        return Err(SurfError::LiquidityOverflow);
    }
    next_user.deposit_liquidity(liquidity_input)?;
    next_epoch.deposit_liquidity(liquidity_input)?;
    *user_position = next_user;
    *whirlpool_position = next_epoch;
    Ok(())
}

/// Hands out the participant's unclaimed fees, as (base, quote), and sets them to zero.
pub fn collect_user_fees_and_rewards(user_position: &mut UserPosition) -> (r: (u64, u64))
    ensures
        r == (old(user_position).fee_unclaimed_base_token, old(user_position).fee_unclaimed_quote_token),
        *final(user_position) == (UserPosition {
            fee_unclaimed_base_token: 0,
            fee_unclaimed_quote_token: 0,
            ..*old(user_position)
        }),
{
    let fees = (user_position.fee_unclaimed_base_token, user_position.fee_unclaimed_quote_token);
    user_position.fee_unclaimed_base_token = 0;
    user_position.fee_unclaimed_quote_token = 0;
    fees
}

/// A ledger may be closed only once it holds no liquidity, borrow or collateral. Fails
/// with `UserPositionNotEmpty` otherwise.
pub fn close_user_position(user_position: &UserPosition) -> (r: Result<(), SurfError>)
    ensures
        r is Ok <==> user_position.liquidity == 0 && user_position.borrow_amount == 0
            && user_position.collateral_amount == 0,
        r is Err ==> r == Err::<(), SurfError>(SurfError::UserPositionNotEmpty),
{
    if user_position.liquidity != 0 || user_position.borrow_amount != 0
        || user_position.collateral_amount != 0 {
        return Err(SurfError::UserPositionNotEmpty);
    }
    Ok(())
}

/// Opens the vault's next hedge epoch record with the next id; the first one becomes
/// current at once, later ones when a rollover reaches them. Fails with
/// `HedgePositionIdOverflow`, changing nothing, when the counter is exhausted.
pub fn open_hedge_position(
    vault_state: &mut VaultState,
    hedge_position: &mut HedgePosition,
    vault_key: AccountKey,
    bump: u8,
) -> (r: Result<(), SurfError>)
    ensures
        old(vault_state).hedge_positions_count == u64::MAX ==> r == Err::<(), SurfError>(
            SurfError::HedgePositionIdOverflow,
        ) && *final(vault_state) == *old(vault_state) && *final(hedge_position) == *old(hedge_position),
        old(vault_state).hedge_positions_count < u64::MAX ==> r is Ok && *final(hedge_position)
            == (HedgePosition {
            bump,
            vault_state: vault_key,
            id: old(vault_state).hedge_positions_count,
            ..*old(hedge_position)
        }) && *final(vault_state) == (VaultState {
            hedge_positions_count: (old(vault_state).hedge_positions_count + 1) as u64,
            current_hedge_position_id: if old(vault_state).hedge_positions_count == 0 {
                Some(0)
            } else {
                old(vault_state).current_hedge_position_id
            },
            ..*old(vault_state)
        }),
        old(vault_state).wf() ==> final(vault_state).wf(),
{
    if vault_state.hedge_positions_count == u64::MAX {
        return Err(SurfError::HedgePositionIdOverflow);
    }
    let id = vault_state.hedge_positions_count;
    hedge_position.initialize(bump, vault_key, id);
    if vault_state.hedge_positions_count == 0 {
        vault_state.set_initial_hedge_position_id();
    }
    let _ = vault_state.initialize_hedge_position();
    Ok(())
}

/// Whether the price has left the working range of the current market epoch, and which
/// way: `Ok(true)` above it, `Ok(false)` below it. Fails with `SqrtPriceNotOutOfBounds`
/// while it is inside.
pub fn validate_whirlpool_adjustment(current_sqrt_price: u128, whirlpool_position: &WhirlpoolPosition) -> (r:
    Result<bool, SurfError>)
    ensures
        current_sqrt_price > whirlpool_position.inner_upper_sqrt_price ==> r == Ok::<bool, SurfError>(true),
        current_sqrt_price <= whirlpool_position.inner_upper_sqrt_price && current_sqrt_price
            < whirlpool_position.inner_lower_sqrt_price ==> r == Ok::<bool, SurfError>(false),
        whirlpool_position.inner_lower_sqrt_price <= current_sqrt_price
            <= whirlpool_position.inner_upper_sqrt_price ==> r == Err::<bool, SurfError>(
            SurfError::SqrtPriceNotOutOfBounds,
        ),
{
    if current_sqrt_price > whirlpool_position.inner_upper_sqrt_price {
        Ok(true)
    } else if current_sqrt_price < whirlpool_position.inner_lower_sqrt_price {
        Ok(false)
    } else {
        Err(SurfError::SqrtPriceNotOutOfBounds)
    }
}

/// Moves the vault's market position to a new range: the current epoch is closed with
/// its final fee growth snapshot and the signed diff from its liquidity to
/// `next_liquidity`, and the next epoch opens with that liquidity, the same snapshot and
/// the new bounds, and becomes current. The direction of the move is recorded. Fails,
/// changing nothing, with `InvalidWhirlpoolPosition` when `whirlpool_position` is not the
/// current epoch, `LiquidityOverflow` when the diff does not fit in an `i128`, and
/// `WhirlpoolPositionIdOverflow` when the epoch counter is exhausted.
pub fn adjust_whirlpool_position(
    vault_state: &mut VaultState,
    whirlpool_position: &mut WhirlpoolPosition,
    next_whirlpool_position: &mut WhirlpoolPosition,
    vault_key: AccountKey,
    next_position_bump: u8,
    next_position_key: AccountKey,
    next_liquidity: u128,
    base_token_fee_growth: u128,
    quote_token_fee_growth: u128,
    whirlpool_bounds: &RangeBounds,
    inner_bounds: &RangeBounds,
    middle_sqrt_price: u128,
    is_above: bool,
) -> (r: Result<(), SurfError>)
    ensures
        r is Err ==> *final(vault_state) == *old(vault_state) && *final(whirlpool_position)
            == *old(whirlpool_position) && *final(next_whirlpool_position) == *old(next_whirlpool_position),
        old(vault_state).current_whirlpool_position_id != Some(old(whirlpool_position).id) ==> r
            == Err::<(), SurfError>(SurfError::InvalidWhirlpoolPosition),
        old(vault_state).current_whirlpool_position_id == Some(old(whirlpool_position).id) && (
        next_liquidity - old(whirlpool_position).liquidity > i128::MAX || next_liquidity - old(whirlpool_position).liquidity < i128::MIN) ==> r == Err::<(), SurfError>(SurfError::LiquidityOverflow),
        r is Ok ==> {
            &&& *final(whirlpool_position) == (WhirlpoolPosition {
                liquidity_diff: (next_liquidity - old(whirlpool_position).liquidity) as i128,
                base_token_fee_growth,
                quote_token_fee_growth,
                ..*old(whirlpool_position)
            })
            &&& *final(next_whirlpool_position) == (WhirlpoolPosition {
                bump: next_position_bump,
                vault_state: vault_key,
                id: old(vault_state).whirlpool_positions_count,
                whirlpool_position: next_position_key,
                liquidity: next_liquidity,
                liquidity_diff: 0,
                base_token_fee_growth,
                quote_token_fee_growth,
                upper_sqrt_price: whirlpool_bounds.upper_sqrt_price,
                lower_sqrt_price: whirlpool_bounds.lower_sqrt_price,
                middle_sqrt_price,
                inner_upper_sqrt_price: inner_bounds.upper_sqrt_price,
                inner_lower_sqrt_price: inner_bounds.lower_sqrt_price,
            })
            &&& *final(vault_state) == (VaultState {
                current_whirlpool_position_id: Some(old(vault_state).whirlpool_positions_count),
                whirlpool_positions_count: (old(vault_state).whirlpool_positions_count + 1) as u64,
                whirlpool_adjustment_state: if is_above {
                    WhirlpoolAdjustmentState::Above
                } else {
                    WhirlpoolAdjustmentState::Below
                },
                ..*old(vault_state)
            })
        },
        old(vault_state).current_whirlpool_position_id == Some(old(whirlpool_position).id) && i128::MIN
            <= next_liquidity - old(whirlpool_position).liquidity <= i128::MAX && old(
            vault_state,
        ).whirlpool_positions_count == u64::MAX ==> r == Err::<(), SurfError>(
            SurfError::WhirlpoolPositionIdOverflow,
        ),
        old(vault_state).current_whirlpool_position_id == Some(old(whirlpool_position).id) && i128::MIN
            <= next_liquidity - old(whirlpool_position).liquidity <= i128::MAX && old(vault_state).whirlpool_positions_count < u64::MAX ==> r is Ok,
        old(vault_state).wf() ==> final(vault_state).wf(),
{
    let is_current = match vault_state.current_whirlpool_position_id {
        Some(id) => id == whirlpool_position.id,
        None => false,
    };
    if !is_current {
        return Err(SurfError::InvalidWhirlpoolPosition);
    }
    let diff: i128 = if next_liquidity >= whirlpool_position.liquidity {
        let gain = next_liquidity - whirlpool_position.liquidity;
        if gain > i128::MAX as u128 {
            return Err(SurfError::LiquidityOverflow);
        }
        gain as i128
    } else {
        let loss = whirlpool_position.liquidity - next_liquidity;
        if loss > i128::MAX as u128 + 1 {
            return Err(SurfError::LiquidityOverflow);
        }
        if loss == i128::MAX as u128 + 1 {
            i128::MIN
        } else {
            -(loss as i128)
        }
    };
    if vault_state.whirlpool_positions_count == u64::MAX {
        return Err(SurfError::WhirlpoolPositionIdOverflow);
    }
    whirlpool_position.update_fee_growths(base_token_fee_growth, quote_token_fee_growth);
    whirlpool_position.close(diff);
    next_whirlpool_position.open(
        next_position_bump,
        vault_key,
        vault_state.whirlpool_positions_count,
        next_position_key,
        next_liquidity,
        base_token_fee_growth,
        quote_token_fee_growth,
        whirlpool_bounds.upper_sqrt_price,
        whirlpool_bounds.lower_sqrt_price,
        middle_sqrt_price,
        inner_bounds.upper_sqrt_price,
        inner_bounds.lower_sqrt_price,
    );
    let _ = vault_state.open_whirlpool_position();
    vault_state.update_whirlpool_adjustment_state(
        if is_above {
            WhirlpoolAdjustmentState::Above
        } else {
            WhirlpoolAdjustmentState::Below
        },
    );
    Ok(())
}

/// Opens the vault's first market epoch with no liquidity, the market's fee growth
/// snapshot and the given bounds, and makes it current. Fails, changing nothing, with
/// `VaultPositionAlreadyOpen` when the vault already has a current market epoch.
pub fn open_whirlpool_position(
    vault_state: &mut VaultState,
    whirlpool_position: &mut WhirlpoolPosition,
    vault_key: AccountKey,
    position_bump: u8,
    position_key: AccountKey,
    base_token_fee_growth: u128,
    quote_token_fee_growth: u128,
    whirlpool_bounds: &RangeBounds,
    inner_bounds: &RangeBounds,
    middle_sqrt_price: u128,
) -> (r: Result<(), SurfError>)
    ensures
        old(vault_state).current_whirlpool_position_id is Some ==> r == Err::<(), SurfError>(
            SurfError::VaultPositionAlreadyOpen,
        ),
        old(vault_state).current_whirlpool_position_id is None
            && old(vault_state).whirlpool_positions_count == u64::MAX ==> r == Err::<(), SurfError>(
            SurfError::WhirlpoolPositionIdOverflow,
        ),
        r is Err ==> *final(vault_state) == *old(vault_state) && *final(whirlpool_position)
            == *old(whirlpool_position),
        old(vault_state).current_whirlpool_position_id is None
            && old(vault_state).whirlpool_positions_count < u64::MAX ==> r is Ok
            && *final(whirlpool_position) == (WhirlpoolPosition {
            bump: position_bump,
            vault_state: vault_key,
            id: old(vault_state).whirlpool_positions_count,
            whirlpool_position: position_key,
            liquidity: 0,
            liquidity_diff: 0,
            base_token_fee_growth,
            quote_token_fee_growth,
            upper_sqrt_price: whirlpool_bounds.upper_sqrt_price,
            lower_sqrt_price: whirlpool_bounds.lower_sqrt_price,
            middle_sqrt_price,
            inner_upper_sqrt_price: inner_bounds.upper_sqrt_price,
            inner_lower_sqrt_price: inner_bounds.lower_sqrt_price,
        }) && *final(vault_state) == (VaultState {
            current_whirlpool_position_id: Some(old(vault_state).whirlpool_positions_count),
            whirlpool_positions_count: (old(vault_state).whirlpool_positions_count + 1) as u64,
            ..*old(vault_state)
        }),
{
    if vault_state.current_whirlpool_position_id.is_some() {
        return Err(SurfError::VaultPositionAlreadyOpen);
    }
    if vault_state.whirlpool_positions_count == u64::MAX {
        return Err(SurfError::WhirlpoolPositionIdOverflow);
    }
    whirlpool_position.open(
        position_bump,
        vault_key,
        vault_state.whirlpool_positions_count,
        position_key,
        0,
        base_token_fee_growth,
        quote_token_fee_growth,
        whirlpool_bounds.upper_sqrt_price,
        whirlpool_bounds.lower_sqrt_price,
        middle_sqrt_price,
        inner_bounds.upper_sqrt_price,
        inner_bounds.lower_sqrt_price,
    );
    let _ = vault_state.open_whirlpool_position();
    Ok(())
}

/// Whether `hedge_position_key` is the record of the vault's current hedge epoch, whose
/// address `derived_key` the caller derived from the vault and that epoch's id. Fails with
/// `InvalidHedgePosition` when the vault has no hedge epoch or the keys differ.
pub fn validate_hedge_position(
    vault_state: &VaultState,
    hedge_position_key: &AccountKey,
    derived_key: &AccountKey,
) -> (r: Result<(), SurfError>)
    ensures
        r is Ok <==> vault_state.hedge_positions_count > 0
            && vault_state.current_hedge_position_id is Some && hedge_position_key.bytes@
            == derived_key.bytes@,
        r is Err ==> r == Err::<(), SurfError>(SurfError::InvalidHedgePosition),
{
    if vault_state.hedge_positions_count == 0 || vault_state.current_hedge_position_id.is_none()
        || !hedge_position_key.same_as(derived_key) {
        return Err(SurfError::InvalidHedgePosition);
    }
    Ok(())
}

} // verus!
