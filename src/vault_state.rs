use vstd::prelude::*;

use crate::errors::SurfError;
use crate::key::AccountKey;
use crate::wide::q64;

verus! {

/// Which way the working range of the market position was last moved.
#[derive(Clone, Copy, Debug, PartialEq, Eq, Structural)]
pub enum WhirlpoolAdjustmentState {
    NoAdjustment,
    Above,
    Below,
}

/// The vault-wide state: configured ranges, the epoch counters with the current epoch ids,
/// and the collateral interest accumulator. Interest growth is Q64.64 per unit of
/// collateral and always equals fresh growth plus the claimed checkpoint.
#[derive(Clone, Copy, Debug)]
pub struct VaultState {
    pub bump: u8,
    pub whirlpool: AccountKey,
    pub base_token_mint: AccountKey,
    pub quote_token_mint: AccountKey,
    pub base_token_account: AccountKey,
    pub quote_token_account: AccountKey,
    pub full_tick_range: u32,
    pub vault_tick_range: u32,
    pub hedge_tick_range: u32,
    pub whirlpool_positions_count: u64,
    pub current_whirlpool_position_id: Option<u64>,
    pub whirlpool_adjustment_state: WhirlpoolAdjustmentState,
    pub drift_stats: AccountKey,
    pub drift_subaccount: AccountKey,
    pub collateral_amount: u64,
    pub collateral_interest_growth: u128,
    pub collateral_interest_growth_checkpoint: u128,
    pub hedge_positions_count: u64,
    pub current_hedge_position_id: Option<u64>,
    pub last_hedge_adjustment_tick: Option<i32>,
}

impl VaultState {
    /// The current market epoch is the newest one; the current hedge epoch is one that
    /// was opened (the next one is opened ahead of the rollover that makes it current).
    /// Neither exists before the first epoch of its kind.
    pub open spec fn wf(&self) -> bool {
        &&& self.whirlpool_positions_count == 0 ==> self.current_whirlpool_position_id is None
        &&& self.whirlpool_positions_count > 0 ==> self.current_whirlpool_position_id == Some(
            (self.whirlpool_positions_count - 1) as u64,
        )
        &&& self.hedge_positions_count == 0 ==> self.current_hedge_position_id is None
        &&& self.hedge_positions_count > 0 ==> self.current_hedge_position_id is Some
            && self.current_hedge_position_id->Some_0 < self.hedge_positions_count
    }

    /// A vault with no epochs and nothing deposited.
    pub fn empty() -> (r: VaultState)
        ensures
            r.wf(),
            r.whirlpool_positions_count == 0,
            r.hedge_positions_count == 0,
            r.collateral_amount == 0,
            r.collateral_interest_growth == 0,
            r.collateral_interest_growth_checkpoint == 0,
            r.whirlpool_adjustment_state == WhirlpoolAdjustmentState::NoAdjustment,
            r.last_hedge_adjustment_tick is None,
    {
        VaultState {
            bump: 0,
            whirlpool: AccountKey::zero(),
            base_token_mint: AccountKey::zero(),
            quote_token_mint: AccountKey::zero(),
            base_token_account: AccountKey::zero(),
            quote_token_account: AccountKey::zero(),
            full_tick_range: 0,
            vault_tick_range: 0,
            hedge_tick_range: 0,
            whirlpool_positions_count: 0,
            current_whirlpool_position_id: None,
            whirlpool_adjustment_state: WhirlpoolAdjustmentState::NoAdjustment,
            drift_stats: AccountKey::zero(),
            drift_subaccount: AccountKey::zero(),
            collateral_amount: 0,
            collateral_interest_growth: 0,
            collateral_interest_growth_checkpoint: 0,
            hedge_positions_count: 0,
            current_hedge_position_id: None,
            last_hedge_adjustment_tick: None,
        }
    }

    /// Records the vault's accounts and its configured tick ranges.
    pub fn initialize(
        &mut self,
        bump: u8,
        whirlpool: AccountKey,
        base_token_mint: AccountKey,
        quote_token_mint: AccountKey,
        base_token_account: AccountKey,
        quote_token_account: AccountKey,
        drift_stats: AccountKey,
        drift_subaccount: AccountKey,
        full_tick_range: u32,
        vault_tick_range: u32,
        hedge_tick_range: u32,
    )
        ensures
            *final(self) == (VaultState {
                bump,
                whirlpool,
                base_token_mint,
                quote_token_mint,
                base_token_account,
                quote_token_account,
                drift_stats,
                drift_subaccount,
                full_tick_range,
                vault_tick_range,
                hedge_tick_range,
                ..*old(self)
            }),
    {
        self.bump = bump;
        self.whirlpool = whirlpool;
        self.base_token_mint = base_token_mint;
        self.quote_token_mint = quote_token_mint;
        self.base_token_account = base_token_account;
        self.quote_token_account = quote_token_account;
        self.drift_stats = drift_stats;
        self.drift_subaccount = drift_subaccount;
        self.full_tick_range = full_tick_range;
        self.vault_tick_range = vault_tick_range;
        self.hedge_tick_range = hedge_tick_range;
    }

    /// Opens the next market epoch and makes it current. Fails with
    /// `WhirlpoolPositionIdOverflow`, changing nothing, when the counter is exhausted.
    pub fn open_whirlpool_position(&mut self) -> (r: Result<(), SurfError>)
        ensures
            old(self).whirlpool_positions_count == u64::MAX ==> r == Err::<(), SurfError>(
                SurfError::WhirlpoolPositionIdOverflow,
            ) && *final(self) == *old(self),
            old(self).whirlpool_positions_count < u64::MAX ==> r is Ok && *final(self) == (
            VaultState {
                current_whirlpool_position_id: Some(old(self).whirlpool_positions_count),
                whirlpool_positions_count: (old(self).whirlpool_positions_count + 1) as u64,
                ..*old(self)
            }),
            old(self).wf() ==> final(self).wf(),
    {
        if self.whirlpool_positions_count == u64::MAX {
            return Err(SurfError::WhirlpoolPositionIdOverflow);
        }
        self.current_whirlpool_position_id = Some(self.whirlpool_positions_count);
        self.whirlpool_positions_count = self.whirlpool_positions_count + 1;
        Ok(())
    }

    /// Records which way the working range was last moved.
    pub fn update_whirlpool_adjustment_state(&mut self, updated_state: WhirlpoolAdjustmentState)
        ensures
            *final(self) == (VaultState { whirlpool_adjustment_state: updated_state, ..*old(self) }),
    {
        self.whirlpool_adjustment_state = updated_state;
    }

    /// Counts one more hedge epoch. Fails with `HedgePositionIdOverflow`, changing nothing,
    /// when the counter is exhausted.
    pub fn initialize_hedge_position(&mut self) -> (r: Result<(), SurfError>)
        ensures
            old(self).hedge_positions_count == u64::MAX ==> r == Err::<(), SurfError>(
                SurfError::HedgePositionIdOverflow,
            ) && *final(self) == *old(self),
            old(self).hedge_positions_count < u64::MAX ==> r is Ok && *final(self) == (
            VaultState {
                hedge_positions_count: (old(self).hedge_positions_count + 1) as u64,
                ..*old(self)
            }),
    {
        if self.hedge_positions_count == u64::MAX {
            return Err(SurfError::HedgePositionIdOverflow);
        }
        self.hedge_positions_count = self.hedge_positions_count + 1;
        Ok(())
    }

    /// Makes hedge epoch 0 current.
    pub fn set_initial_hedge_position_id(&mut self)
        ensures
            *final(self) == (VaultState { current_hedge_position_id: Some(0), ..*old(self) }),
    {
        self.current_hedge_position_id = Some(0);
    }

    /// Makes the next hedge epoch current. Fails with `HedgePositionIdOverflow`, changing
    /// nothing, when there is no current hedge epoch or the id is exhausted.
    pub fn update_hedge_position_id(&mut self) -> (r: Result<(), SurfError>)
        ensures
            match old(self).current_hedge_position_id {
                Some(id) => {
                    if id < u64::MAX {
                        r is Ok && *final(self) == (VaultState {
                            current_hedge_position_id: Some((id + 1) as u64),
                            ..*old(self)
                        })
                    } else {
                        r == Err::<(), SurfError>(SurfError::HedgePositionIdOverflow) && *final(self) == *old(self)
                    }
                },
                None => r == Err::<(), SurfError>(SurfError::HedgePositionIdOverflow) && *final(self) == *old(self),
            },
    {
        match self.current_hedge_position_id {
            None => Err(SurfError::HedgePositionIdOverflow),
            Some(id) => {
                if id == u64::MAX {
                    return Err(SurfError::HedgePositionIdOverflow);
                }
                self.current_hedge_position_id = Some(id + 1);
                Ok(())
            },
        }
    }

    /// Records the tick at which the hedge was last adjusted.
    pub fn update_hedge_adjustment_tick(&mut self, tick: i32)
        ensures
            *final(self) == (VaultState { last_hedge_adjustment_tick: Some(tick), ..*old(self) }),
    {
        self.last_hedge_adjustment_tick = Some(tick);
    }

    /// Sets the collateral interest growth to fresh growth plus the claimed checkpoint.
    /// Fails with `CollateralInterestOverflow`, changing nothing, past `u128::MAX`.
    pub fn update_interest_growth(&mut self, collateral_interest_growth: u128) -> (r: Result<
        (),
        SurfError,
    >)
        ensures
            collateral_interest_growth + old(self).collateral_interest_growth_checkpoint
                > u128::MAX ==> r == Err::<(), SurfError>(SurfError::CollateralInterestOverflow)
                && *final(self) == *old(self),
            collateral_interest_growth + old(self).collateral_interest_growth_checkpoint
                <= u128::MAX ==> r is Ok && *final(self) == (VaultState {
                collateral_interest_growth: (collateral_interest_growth
                    + old(self).collateral_interest_growth_checkpoint) as u128,
                ..*old(self)
            }),
    {
        match collateral_interest_growth.checked_add(self.collateral_interest_growth_checkpoint) {
            None => Err(SurfError::CollateralInterestOverflow),
            Some(growth) => {
                self.collateral_interest_growth = growth;
                Ok(())
            },
        }
    }

    /// Records collateral interest a participant withdrew: the amount, in Q64.64, moves into
    /// the checkpoint. Fails with `CollateralInterestOverflow`, changing nothing, past `u128::MAX`.
    pub fn claim_user_collateral_interest(&mut self, claimed_interest: u64) -> (r: Result<
        (),
        SurfError,
    >)
        ensures
            old(self).collateral_interest_growth_checkpoint + claimed_interest * q64() > u128::MAX
                ==> r == Err::<(), SurfError>(SurfError::CollateralInterestOverflow) && *final(self) == *old(self),
            old(self).collateral_interest_growth_checkpoint + claimed_interest * q64()
                <= u128::MAX ==> r is Ok && *final(self) == (VaultState {
                collateral_interest_growth_checkpoint: (old(self).collateral_interest_growth_checkpoint + claimed_interest * q64()) as u128,
                ..*old(self)
            }),
    {
        let claimed_shifted = (claimed_interest as u128) * 0x1_0000_0000_0000_0000u128;
        match self.collateral_interest_growth_checkpoint.checked_add(claimed_shifted) {
            None => Err(SurfError::CollateralInterestOverflow),
            Some(checkpoint) => {
                self.collateral_interest_growth_checkpoint = checkpoint;
                Ok(())
            },
        }
    }
}

} // verus!
