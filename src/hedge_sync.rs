use vstd::prelude::*;

use crate::errors::SurfError;
use crate::fixed_point::{
    calculate_user_amount_diff, calculate_user_interest, rebalance_fits, rebalanced,
    user_interest_of,
};
use crate::hedge_position::{BorrowPosition, HedgePosition, BORROW_POSITIONS_CAPACITY};
use crate::key::AccountKey;
use crate::sync::applied;
use crate::user_position::UserPosition;
use crate::vault_state::VaultState;
use crate::wide::q128;

verus! {

/// Interest accrued on `amount` units while the growth rose from `checkpoint` to `growth`,
/// added to `unclaimed`; `None` when the growth went backwards or the product does not fit
/// in 128 bits. The caller checks that the sum fits.
pub open spec fn accrued(amount: int, growth: int, checkpoint: int, unclaimed: int) -> Option<int> {
    if growth < checkpoint || amount * (growth - checkpoint) >= q128() {
        None
    } else {
        Some(unclaimed + user_interest_of(amount, growth - checkpoint))
    }
}

/// The ledger after borrow interest up to `slot`'s growth is credited and the checkpoint
/// moves there.
pub open spec fn borrow_interest_synced(u: UserPosition, slot: BorrowPosition) -> Result<
    UserPosition,
    SurfError,
> {
    match accrued(
        u.borrow_amount as int,
        slot.borrow_interest_growth as int,
        u.borrow_interest_growth_checkpoint as int,
        u.borrow_interest_unclaimed as int,
    ) {
        None => Err(SurfError::MathError),
        Some(total) => if total > u64::MAX {
            Err(SurfError::BorrowInterestOverflow)
        } else {
            Ok(
                UserPosition {
                    borrow_interest_unclaimed: total as u64,
                    borrow_interest_growth_checkpoint: slot.borrow_interest_growth,
                    ..u
                },
            )
        },
    }
}

/// The ledger after collateral interest up to the vault's growth is credited and the
/// checkpoint moves there.
pub open spec fn collateral_interest_synced(u: UserPosition, vault: VaultState) -> Result<
    UserPosition,
    SurfError,
> {
    match accrued(
        u.collateral_amount as int,
        vault.collateral_interest_growth as int,
        u.collateral_interest_growth_checkpoint as int,
        u.collateral_interest_unclaimed as int,
    ) {
        None => Err(SurfError::MathError),
        Some(total) => if total > u64::MAX {
            Err(SurfError::CollateralInterestOverflow)
        } else {
            Ok(
                UserPosition {
                    collateral_interest_unclaimed: total as u64,
                    collateral_interest_growth_checkpoint: vault.collateral_interest_growth,
                    ..u
                },
            )
        },
    }
}

/// The ledger after a closed slot's borrow diffs are applied pro rata.
pub open spec fn borrow_amounts_synced(u: UserPosition, slot: BorrowPosition) -> Result<
    UserPosition,
    SurfError,
> {
    if !rebalance_fits(
        u.borrow_amount as int,
        slot.borrowed_amount as int,
        slot.borrowed_amount_diff as int,
        u64::MAX as int,
    ) || !rebalance_fits(
        u.borrow_amount_notional as int,
        slot.borrowed_amount_notional as int,
        slot.borrowed_amount_notional_diff as int,
        u64::MAX as int,
    ) {
        Err(SurfError::MathError)
    } else {
        Ok(
            UserPosition {
                borrow_amount: rebalanced(
                    u.borrow_amount as int,
                    slot.borrowed_amount as int,
                    slot.borrowed_amount_diff as int,
                ) as u64,
                borrow_amount_notional: rebalanced(
                    u.borrow_amount_notional as int,
                    slot.borrowed_amount_notional as int,
                    slot.borrowed_amount_notional_diff as int,
                ) as u64,
                ..u
            },
        )
    }
}

/// One slot of the hedge walk: interest is credited; a closed slot also has its diffs
/// applied, and the slot cursor moves past it with the interest checkpoint back at zero,
/// where the next slot's growth starts.
pub open spec fn slot_step(u: UserPosition, slot: BorrowPosition, is_current: bool) -> Result<
    UserPosition,
    SurfError,
> {
    match borrow_interest_synced(u, slot) {
        Err(x) => Err(x),
        Ok(u1) => if is_current {
            Ok(u1)
        } else {
            match borrow_amounts_synced(u1, slot) {
                Err(x) => Err(x),
                Ok(u2) => Ok(
                    UserPosition {
                        borrow_position_index: (u2.borrow_position_index + 1) as u8,
                        borrow_interest_growth_checkpoint: 0,
                        ..u2
                    },
                ),
            }
        },
    }
}

/// The ledger after walking the slots of `h` from its slot cursor through `h`'s current
/// slot, stopping at the current slot of the vault's current hedge epoch.
pub open spec fn slots_synced(u: UserPosition, h: HedgePosition, epoch_is_current: bool, fuel: nat) -> Result<
    UserPosition,
    SurfError,
>
    decreases fuel,
{
    if fuel == 0 || u.borrow_position_index > h.current_borrow_position_index {
        Ok(u)
    } else {
        let at_current = epoch_is_current && u.borrow_position_index
            == h.current_borrow_position_index;
        match slot_step(u, h.borrow_positions@[u.borrow_position_index as int], at_current) {
            Err(x) => Err(x),
            Ok(u1) => if at_current {
                Ok(u1)
            } else {
                slots_synced(u1, h, epoch_is_current, (fuel - 1) as nat)
            },
        }
    }
}

/// Whether hedge epoch `id` lies beyond the vault's current hedge epoch (or the vault has
/// none yet).
pub open spec fn past_current_hedge_epoch(vault: VaultState, id: u64) -> bool {
    match vault.current_hedge_position_id {
        None => true,
        Some(current) => id > current,
    }
}

/// One hedge epoch of the walk: `h` must be the epoch the cursor points at, have the id
/// `expected_id` that its place in the batch calls for, belong to the
/// vault, not lie beyond its current hedge epoch, and be well formed, with the slot cursor
/// inside its used slots. Unless it is the vault's current hedge epoch, the cursor moves to
/// the first slot of the next epoch.
pub open spec fn hedge_step(
    u: UserPosition,
    vault: VaultState,
    vault_key: AccountKey,
    h: HedgePosition,
    expected_id: int,
) -> Result<UserPosition, SurfError> {
    if h.id != u.hedge_position_id || h.id != expected_id {
        Err(SurfError::InvalidSyncOrder)
    } else if past_current_hedge_epoch(vault, h.id) || h.vault_state.bytes@ != vault_key.bytes@
        || !h.wf() || u.borrow_position_index > h.current_borrow_position_index {
        Err(SurfError::InvalidHedgePosition)
    } else {
        let is_current = vault.current_hedge_position_id == Some(h.id);
        match slots_synced(u, h, is_current, BORROW_POSITIONS_CAPACITY as nat) {
            Err(x) => Err(x),
            Ok(u1) => if is_current {
                Ok(u1)
            } else {
                Ok(
                    UserPosition {
                        hedge_position_id: (u1.hedge_position_id + 1) as u64,
                        borrow_position_index: 0,
                        ..u1
                    },
                )
            },
        }
    }
}

/// The ledger after walking the given hedge epochs in order. The batch must be contiguous:
/// its `j`-th epoch has the id of the starting epoch cursor plus `j`, so nothing may follow
/// the vault's current hedge epoch, where the cursor stops.
pub open spec fn hedge_epochs_synced(
    u: UserPosition,
    vault: VaultState,
    vault_key: AccountKey,
    epochs: Seq<HedgePosition>,
) -> Result<UserPosition, SurfError>
    decreases epochs.len(),
{
    if epochs.len() == 0 {
        Ok(u)
    } else {
        match hedge_epochs_synced(u, vault, vault_key, epochs.drop_last()) {
            Err(x) => Err(x),
            Ok(v) => hedge_step(
                v,
                vault,
                vault_key,
                epochs.last(),
                u.hedge_position_id + epochs.len() - 1,
            ),
        }
    }
}

/// The ledger after the hedge walk over `epochs` and the collateral interest sync.
pub open spec fn hedge_synced(
    u: UserPosition,
    vault: VaultState,
    vault_key: AccountKey,
    epochs: Seq<HedgePosition>,
) -> Result<UserPosition, SurfError> {
    match hedge_epochs_synced(u, vault, vault_key, epochs) {
        Err(x) => Err(x),
        Ok(v) => collateral_interest_synced(v, vault),
    }
}

proof fn lemma_hedge_error_persists(
    u: UserPosition,
    vault: VaultState,
    vault_key: AccountKey,
    epochs: Seq<HedgePosition>,
    i: int,
    x: SurfError,
)
    requires
        0 <= i <= epochs.len(),
        hedge_epochs_synced(u, vault, vault_key, epochs.take(i)) == Err::<UserPosition, SurfError>(x),
    ensures
        hedge_epochs_synced(u, vault, vault_key, epochs) == Err::<UserPosition, SurfError>(x),
    decreases epochs.len() - i,
{
    if i < epochs.len() {
        assert(epochs.take(i + 1).drop_last() =~= epochs.take(i));
        lemma_hedge_error_persists(u, vault, vault_key, epochs, i + 1, x);
    } else {
        assert(epochs.take(i) =~= epochs);
    }
}

/// Credits the borrow interest accrued up to the slot's growth and moves the checkpoint
/// there. Fails with `MathError` when the growth went backwards or the product overflows,
/// or `BorrowInterestOverflow` when the unclaimed total passes `u64::MAX`, changing nothing.
pub fn update_user_borrow_interest(
    user_position: &mut UserPosition,
    borrow_position: &BorrowPosition,
) -> (r: Result<(), SurfError>)
    ensures
        applied(r, *old(user_position), *final(user_position), borrow_interest_synced(*old(user_position), *borrow_position)),
{
    if borrow_position.borrow_interest_growth < user_position.borrow_interest_growth_checkpoint {
        return Err(SurfError::MathError);
    }
    let delta = borrow_position.borrow_interest_growth - user_position.borrow_interest_growth_checkpoint;
    let owed = calculate_user_interest(user_position.borrow_amount, delta)?;
    user_position.update_borrow_interest(owed, borrow_position.borrow_interest_growth)
}

/// Credits the collateral interest accrued up to the vault's growth and moves the
/// checkpoint there. Fails with `MathError` when the growth went backwards or the product
/// overflows, or `CollateralInterestOverflow` when the unclaimed total passes `u64::MAX`,
/// changing nothing.
pub fn update_user_collateral_interest(
    user_position: &mut UserPosition,
    vault_state: &VaultState,
) -> (r: Result<(), SurfError>)
    ensures
        applied(r, *old(user_position), *final(user_position), collateral_interest_synced(*old(user_position), *vault_state)),
{
    if vault_state.collateral_interest_growth < user_position.collateral_interest_growth_checkpoint {
        return Err(SurfError::MathError);
    }
    let delta = vault_state.collateral_interest_growth - user_position.collateral_interest_growth_checkpoint;
    let owed = calculate_user_interest(user_position.collateral_amount, delta)?;
    user_position.update_collateral_interest(owed, vault_state.collateral_interest_growth)
}

/// Credits both borrow interest (up to the slot's growth) and collateral interest (up to
/// the vault's growth), all or nothing.
pub fn update_user_interests(
    user_position: &mut UserPosition,
    vault_state: &VaultState,
    borrow_position: &BorrowPosition,
) -> (r: Result<(), SurfError>)
    ensures
        applied(
            r,
            *old(user_position),
            *final(user_position),
            match borrow_interest_synced(*old(user_position), *borrow_position) {
                Err(x) => Err(x),
                Ok(u) => collateral_interest_synced(u, *vault_state),
            },
        ),
{
    let mut next = *user_position;
    update_user_borrow_interest(&mut next, borrow_position)?;
    update_user_collateral_interest(&mut next, vault_state)?;
    *user_position = next;
    Ok(())
}

/// Applies a closed slot's borrow diffs to the participant pro rata. Fails with
/// `MathError`, changing nothing, when the slot was empty or an amount leaves its range.
pub fn update_user_borrow_amounts(
    user_position: &mut UserPosition,
    borrow_position: &BorrowPosition,
) -> (r: Result<(), SurfError>)
    ensures
        applied(r, *old(user_position), *final(user_position), borrow_amounts_synced(*old(user_position), *borrow_position)),
{
    let amount = calculate_user_amount_diff(
        borrow_position.borrowed_amount,
        borrow_position.borrowed_amount_diff,
        user_position.borrow_amount,
    )?;
    let notional = calculate_user_amount_diff(
        borrow_position.borrowed_amount_notional,
        borrow_position.borrowed_amount_notional_diff,
        user_position.borrow_amount_notional,
    )?;
    user_position.borrow_amount = amount;
    user_position.borrow_amount_notional = notional;
    Ok(())
}

fn sync_slot(user_position: &mut UserPosition, borrow_position: &BorrowPosition, is_current: bool) -> (r: Result<(), SurfError>)
    requires
        old(user_position).borrow_position_index < 255,
    ensures
        applied(r, *old(user_position), *final(user_position), slot_step(*old(user_position), *borrow_position, is_current)),
{
    let mut next = *user_position;
    update_user_borrow_interest(&mut next, borrow_position)?;
    if !is_current {
        update_user_borrow_amounts(&mut next, borrow_position)?;
        next.borrow_position_index = next.borrow_position_index + 1;
        next.borrow_interest_growth_checkpoint = 0;
    }
    *user_position = next;
    Ok(())
}

fn sync_hedge_epoch(
    user_position: &mut UserPosition,
    vault_state: &VaultState,
    vault_key: &AccountKey,
    hedge_position: &HedgePosition,
    expected_id: u128,
) -> (r: Result<(), SurfError>)
    ensures
        applied(
            r,
            *old(user_position),
            *final(user_position),
            hedge_step(
                *old(user_position),
                *vault_state,
                *vault_key,
                *hedge_position,
                expected_id as int,
            ),
        ),
{
    if hedge_position.id != user_position.hedge_position_id || hedge_position.id as u128
        != expected_id {
        return Err(SurfError::InvalidSyncOrder);
    }
    let past_current = match vault_state.current_hedge_position_id {
        None => true,
        Some(current) => hedge_position.id > current,
    };
    if past_current || !hedge_position.vault_state.same_as(vault_key) || hedge_position.borrow_positions.len() != BORROW_POSITIONS_CAPACITY
        || hedge_position.current_borrow_position_index > 149
        || user_position.borrow_position_index > hedge_position.current_borrow_position_index {
        return Err(SurfError::InvalidHedgePosition);
    }
    let is_current = match vault_state.current_hedge_position_id {
        Some(id) => id == hedge_position.id,
        None => false,
    };
    let ghost start = *user_position;
    let ghost h = *hedge_position;
    let mut next = *user_position;
    let mut fuel: usize = BORROW_POSITIONS_CAPACITY;
    while next.borrow_position_index <= hedge_position.current_borrow_position_index
        invariant
            h == *hedge_position,
            h.wf(),
            *user_position == start,
            start == *old(user_position),
            start.hedge_position_id == h.id,
            h.id == expected_id,
            !past_current_hedge_epoch(*vault_state, h.id),
            h.vault_state.bytes@ == vault_key.bytes@,
            start.borrow_position_index <= h.current_borrow_position_index,
            is_current == (vault_state.current_hedge_position_id == Some(h.id)),
            next.hedge_position_id == start.hedge_position_id,
            fuel + next.borrow_position_index >= BORROW_POSITIONS_CAPACITY,
            fuel <= BORROW_POSITIONS_CAPACITY,
            next.borrow_position_index <= h.current_borrow_position_index + 1,
            slots_synced(start, h, is_current, BORROW_POSITIONS_CAPACITY as nat) == slots_synced(
                next,
                h,
                is_current,
                fuel as nat,
            ),
        decreases fuel,
    {
        let idx = next.borrow_position_index;
        let at_current = is_current && idx == hedge_position.current_borrow_position_index;
        let ghost before = next;
        let step = sync_slot(&mut next, &hedge_position.borrow_positions[idx as usize], at_current);
        proof {
            assert(slots_synced(before, h, is_current, fuel as nat) == match slot_step(
                before,
                h.borrow_positions@[idx as int],
                at_current,
            ) {
                Err(x) => Err(x),
                Ok(u1) => if at_current {
                    Ok(u1)
                } else {
                    slots_synced(u1, h, is_current, (fuel - 1) as nat)
                },
            });
        }
        if let Err(x) = step {
            return Err(x);
        }
        if at_current {
            *user_position = next;
            return Ok(());
        }
        fuel = fuel - 1;
    }
    if !is_current {
        next.hedge_position_id = next.hedge_position_id + 1;
        next.borrow_position_index = 0;
    }
    *user_position = next;
    Ok(())
}

/// Walks the participant forward through the supplied hedge epochs, oldest first, starting
/// at its epoch and slot cursors, with epoch ids increasing by one: each slot's borrow
/// interest is credited, each closed slot also has its borrow diffs applied and moves the
/// slot cursor, and each closed epoch moves the epoch cursor to the next epoch's first
/// slot. Collateral interest is then credited up to the vault's growth. The batch is
/// applied as a whole or not at all: an epoch out of order, skipped or repeated (including
/// any after the vault's current one) fails with `InvalidSyncOrder`, one beyond the vault's
/// current hedge epoch, of another vault or malformed with `InvalidHedgePosition`, and a
/// math failure with its own error.
pub fn sync_user_hedge_position(
    user_position: &mut UserPosition,
    vault_state: &VaultState,
    vault_key: &AccountKey,
    hedge_positions: &Vec<HedgePosition>,
) -> (r: Result<(), SurfError>)
    ensures
        applied(
            r,
            *old(user_position),
            *final(user_position),
            hedge_synced(*old(user_position), *vault_state, *vault_key, hedge_positions@),
        ),
{
    let ghost start = *user_position;
    let start_cursor = user_position.hedge_position_id;
    let mut next = *user_position;
    let mut i: usize = 0;
    while i < hedge_positions.len()
        invariant
            i <= hedge_positions@.len(),
            *user_position == start,
            start_cursor == start.hedge_position_id,
            hedge_epochs_synced(start, *vault_state, *vault_key, hedge_positions@.take(i as int))
                == Ok::<UserPosition, SurfError>(next),
        decreases hedge_positions@.len() - i,
    {
        proof {
            assert(hedge_positions@.take(i + 1).drop_last() =~= hedge_positions@.take(i as int));
            assert(hedge_positions@.take(i + 1).last() == hedge_positions@[i as int]);
        }
        let expected_id = start_cursor as u128 + i as u128;
        let step = sync_hedge_epoch(&mut next, vault_state, vault_key, &hedge_positions[i], expected_id);
        if let Err(x) = step {
            proof {
                lemma_hedge_error_persists(start, *vault_state, *vault_key, hedge_positions@, i + 1, x);
            }
            return Err(x);
        }
        i = i + 1;
    }
    proof {
        assert(hedge_positions@.take(i as int) =~= hedge_positions@);
    }
    update_user_collateral_interest(&mut next, vault_state)?;
    *user_position = next;
    Ok(())
}

} // verus!
