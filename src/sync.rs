use vstd::prelude::*;

use crate::errors::SurfError;
use crate::fixed_point::{
    calculate_user_liquidity, checked_mul_shift_right, growth_delta, growth_delta_of, rebalance_fits,
    rebalanced, user_interest_of,
};
use crate::key::AccountKey;
use crate::user_position::UserPosition;
use crate::vault_state::VaultState;
use crate::whirlpool_position::WhirlpoolPosition;
use crate::wide::q128;

verus! {

/// `r`, `before` and `after` are what an operation on a ledger with the given spec
/// `outcome` returns and leaves: the new ledger on success, the old one on failure.
pub open spec fn applied(
    r: Result<(), SurfError>,
    before: UserPosition,
    after: UserPosition,
    outcome: Result<UserPosition, SurfError>,
) -> bool {
    match outcome {
        Ok(u) => r is Ok && after == u,
        Err(e) => r == Err::<(), SurfError>(e) && after == before,
    }
}

/// Fee owed to `liquidity` units for the growth from `checkpoint` to `growth`.
pub open spec fn fee_owed(growth: u128, checkpoint: u128, liquidity: u128) -> int {
    user_interest_of(liquidity as int, growth_delta(growth as int, checkpoint as int))
}

/// Whether that fee can be computed within 128 bits.
pub open spec fn fee_fits(growth: u128, checkpoint: u128, liquidity: u128) -> bool {
    growth_delta(growth as int, checkpoint as int) * liquidity < q128()
}

/// The ledger after the fees earned up to epoch `e`'s growth snapshot are credited and the
/// fee checkpoints move to that snapshot. A ledger without liquidity only moves checkpoints.
pub open spec fn fees_synced(u: UserPosition, e: WhirlpoolPosition) -> Result<UserPosition, SurfError> {
    let moved = UserPosition {
        fee_growth_checkpoint_base_token: e.base_token_fee_growth,
        fee_growth_checkpoint_quote_token: e.quote_token_fee_growth,
        ..u
    };
    if u.liquidity == 0 {
        Ok(moved)
    } else if !fee_fits(e.base_token_fee_growth, u.fee_growth_checkpoint_base_token, u.liquidity)
        || !fee_fits(e.quote_token_fee_growth, u.fee_growth_checkpoint_quote_token, u.liquidity) {
        Err(SurfError::MathError)
    } else {
        let base = u.fee_unclaimed_base_token + fee_owed(
            e.base_token_fee_growth,
            u.fee_growth_checkpoint_base_token,
            u.liquidity,
        );
        let quote = u.fee_unclaimed_quote_token + fee_owed(
            e.quote_token_fee_growth,
            u.fee_growth_checkpoint_quote_token,
            u.liquidity,
        );
        if base > u64::MAX || quote > u64::MAX {
            Err(SurfError::MathError)
        } else {
            Ok(
                UserPosition {
                    fee_unclaimed_base_token: base as u64,
                    fee_unclaimed_quote_token: quote as u64,
                    ..moved
                },
            )
        }
    }
}

/// The ledger after epoch `e`'s closing liquidity diff is applied pro rata.
pub open spec fn liquidity_synced(u: UserPosition, e: WhirlpoolPosition) -> Result<
    UserPosition,
    SurfError,
> {
    if rebalance_fits(u.liquidity as int, e.liquidity as int, e.liquidity_diff as int, u128::MAX as int) {
        Ok(
            UserPosition {
                liquidity: rebalanced(
                    u.liquidity as int,
                    e.liquidity as int,
                    e.liquidity_diff as int,
                ) as u128,
                ..u
            },
        )
    } else {
        Err(SurfError::LiquidityDiffTooHigh)
    }
}

/// One step of the market walk: epoch `e` must be the one the cursor points at, must have
/// the id `expected_id` that its place in the batch calls for, and must belong to the vault. Its fees are credited; unless it is the vault's current epoch, its
/// liquidity diff is applied as well and the cursor moves past it.
pub open spec fn market_step(
    u: UserPosition,
    vault: VaultState,
    vault_key: AccountKey,
    e: WhirlpoolPosition,
    expected_id: int,
) -> Result<UserPosition, SurfError> {
    if e.id != u.whirlpool_position_id || e.id != expected_id {
        Err(SurfError::InvalidSyncOrder)
    } else if e.id >= vault.whirlpool_positions_count || e.vault_state.bytes@ != vault_key.bytes@ {
        Err(SurfError::InvalidWhirlpoolPosition)
    } else {
        match fees_synced(u, e) {
            Err(x) => Err(x),
            Ok(u1) => {
                if vault.current_whirlpool_position_id == Some(e.id) {
                    Ok(u1)
                } else {
                    match liquidity_synced(u1, e) {
                        Err(x) => Err(x),
                        Ok(u2) => Ok(
                            UserPosition {
                                whirlpool_position_id: (u2.whirlpool_position_id + 1) as u64,
                                ..u2
                            },
                        ),
                    }
                }
            },
        }
    }
}

/// The ledger after walking the given market epochs in order; the first failing step
/// decides the error. The batch must be contiguous: its `j`-th epoch has the id of the
/// starting cursor plus `j`, so nothing may follow the vault's current epoch, where the
/// cursor stops.
pub open spec fn market_synced(
    u: UserPosition,
    vault: VaultState,
    vault_key: AccountKey,
    epochs: Seq<WhirlpoolPosition>,
) -> Result<UserPosition, SurfError>
    decreases epochs.len(),
{
    if epochs.len() == 0 {
        Ok(u)
    } else {
        match market_synced(u, vault, vault_key, epochs.drop_last()) {
            Err(x) => Err(x),
            Ok(v) => market_step(
                v,
                vault,
                vault_key,
                epochs.last(),
                u.whirlpool_position_id + epochs.len() - 1,
            ),
        }
    }
}

proof fn lemma_market_error_persists(
    u: UserPosition,
    vault: VaultState,
    vault_key: AccountKey,
    epochs: Seq<WhirlpoolPosition>,
    i: int,
    x: SurfError,
)
    requires
        0 <= i <= epochs.len(),
        market_synced(u, vault, vault_key, epochs.take(i)) == Err::<UserPosition, SurfError>(x),
    ensures
        market_synced(u, vault, vault_key, epochs) == Err::<UserPosition, SurfError>(x),
    decreases epochs.len() - i,
{
    if i < epochs.len() {
        assert(epochs.take(i + 1).drop_last() =~= epochs.take(i));
        lemma_market_error_persists(u, vault, vault_key, epochs, i + 1, x);
    } else {
        assert(epochs.take(i) =~= epochs);
    }
}

/// Credits the fees earned up to the epoch's growth snapshot and moves the fee checkpoints
/// there. The growth difference wraps at 2^128; the owed amount is rounded down. Fails with
/// `MathError`, changing nothing, when an amount does not fit.
pub fn update_user_fees_and_rewards(
    user_position: &mut UserPosition,
    whirlpool_position: &WhirlpoolPosition,
) -> (r: Result<(), SurfError>)
    ensures
        applied(r, *old(user_position), *final(user_position), fees_synced(*old(user_position), *whirlpool_position)),
{
    let current_base_growth = whirlpool_position.base_token_fee_growth;
    let current_quote_growth = whirlpool_position.quote_token_fee_growth;
    if user_position.liquidity > 0 {
        let delta_base = growth_delta_of(current_base_growth, user_position.fee_growth_checkpoint_base_token);
        let delta_quote = growth_delta_of(current_quote_growth, user_position.fee_growth_checkpoint_quote_token);
        let owed_base = match checked_mul_shift_right(delta_base, user_position.liquidity) {
            None => {
                return Err(SurfError::MathError);
            },
            Some(v) => v,
        };
        let owed_quote = match checked_mul_shift_right(delta_quote, user_position.liquidity) {
            None => {
                return Err(SurfError::MathError);
            },
            Some(v) => v,
        };
        let base = match user_position.fee_unclaimed_base_token.checked_add(owed_base) {
            None => {
                return Err(SurfError::MathError);
            },
            Some(v) => v,
        };
        let quote = match user_position.fee_unclaimed_quote_token.checked_add(owed_quote) {
            None => {
                return Err(SurfError::MathError);
            },
            Some(v) => v,
        };
        user_position.fee_unclaimed_base_token = base;
        user_position.fee_unclaimed_quote_token = quote;
    }
    user_position.fee_growth_checkpoint_base_token = current_base_growth;
    user_position.fee_growth_checkpoint_quote_token = current_quote_growth;
    Ok(())
}

/// Applies the epoch's closing liquidity diff to the participant pro rata:
/// `liquidity * (epoch liquidity + diff) / epoch liquidity`, rounded down. Fails with
/// `LiquidityDiffTooHigh`, changing nothing, when the epoch was empty or an amount leaves
/// the `u128` range.
pub fn update_user_liquidity(
    user_position: &mut UserPosition,
    whirlpool_position: &WhirlpoolPosition,
) -> (r: Result<(), SurfError>)
    ensures
        applied(r, *old(user_position), *final(user_position), liquidity_synced(*old(user_position), *whirlpool_position)),
{
    let liquidity = calculate_user_liquidity(
        whirlpool_position.liquidity,
        whirlpool_position.liquidity_diff,
        user_position.liquidity,
    )?;
    user_position.liquidity = liquidity;
    Ok(())
}

fn sync_market_epoch(
    user_position: &mut UserPosition,
    vault_state: &VaultState,
    vault_key: &AccountKey,
    whirlpool_position: &WhirlpoolPosition,
    expected_id: u128,
) -> (r: Result<(), SurfError>)
    ensures
        applied(
            r,
            *old(user_position),
            *final(user_position),
            market_step(
                *old(user_position),
                *vault_state,
                *vault_key,
                *whirlpool_position,
                expected_id as int,
            ),
        ),
{
    if whirlpool_position.id != user_position.whirlpool_position_id || whirlpool_position.id as u128
        != expected_id {
        return Err(SurfError::InvalidSyncOrder);
    }
    if whirlpool_position.id >= vault_state.whirlpool_positions_count
        || !whirlpool_position.vault_state.same_as(vault_key) {
        return Err(SurfError::InvalidWhirlpoolPosition);
    }
    let mut next = *user_position;
    update_user_fees_and_rewards(&mut next, whirlpool_position)?;
    let is_current = match vault_state.current_whirlpool_position_id {
        Some(id) => id == whirlpool_position.id,
        None => false,
    };
    if !is_current {
        update_user_liquidity(&mut next, whirlpool_position)?;
        next.whirlpool_position_id = next.whirlpool_position_id + 1;
    }
    *user_position = next;
    Ok(())
}

/// Walks the participant forward through the supplied market epochs, oldest first,
/// starting at its cursor, with ids increasing by one: each epoch's fees are credited,
/// and each epoch other than the vault's current one also has its liquidity diff applied
/// and moves the cursor past it.
/// The batch is applied as a whole or not at all: an epoch out of order, skipped or
/// repeated (including any epoch after the vault's current one) fails with
/// `InvalidSyncOrder`, one beyond the vault's epochs or of another vault with
/// `InvalidWhirlpoolPosition`, and a math failure with its own error.
pub fn sync_user_whirlpool_position(
    user_position: &mut UserPosition,
    vault_state: &VaultState,
    vault_key: &AccountKey,
    whirlpool_positions: &Vec<WhirlpoolPosition>,
) -> (r: Result<(), SurfError>)
    ensures
        applied(
            r,
            *old(user_position),
            *final(user_position),
            market_synced(*old(user_position), *vault_state, *vault_key, whirlpool_positions@),
        ),
{
    let ghost start = *user_position;
    let start_cursor = user_position.whirlpool_position_id;
    let mut next = *user_position;
    let mut i: usize = 0;
    while i < whirlpool_positions.len()
        invariant
            i <= whirlpool_positions@.len(),
            *user_position == start,
            start_cursor == start.whirlpool_position_id,
            market_synced(start, *vault_state, *vault_key, whirlpool_positions@.take(i as int))
                == Ok::<UserPosition, SurfError>(next),
        decreases whirlpool_positions@.len() - i,
    {
        proof {
            assert(whirlpool_positions@.take(i + 1).drop_last() =~= whirlpool_positions@.take(i as int));
            assert(whirlpool_positions@.take(i + 1).last() == whirlpool_positions@[i as int]);
        }
        let expected_id = start_cursor as u128 + i as u128;
        let step = sync_market_epoch(
            &mut next,
            vault_state,
            vault_key,
            &whirlpool_positions[i],
            expected_id,
        );
        if let Err(x) = step {
            proof {
                lemma_market_error_persists(start, *vault_state, *vault_key, whirlpool_positions@, i + 1, x);
            }
            return Err(x);
        }
        i = i + 1;
    }
    proof {
        assert(whirlpool_positions@.take(i as int) =~= whirlpool_positions@);
    }
    *user_position = next;
    Ok(())
}

} // verus!
