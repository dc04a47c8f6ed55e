use vstd::prelude::*;

use crate::errors::SurfError;

verus! {

/// One participant's ledger: its share of the pooled position, its fee and interest
/// checkpoints and what it has not yet claimed, and its sync cursors into the epoch history
/// (`whirlpool_position_id` for market epochs, `hedge_position_id` and
/// `borrow_position_index` for hedge epochs and their borrow slots).
#[derive(Clone, Copy, Debug)]
pub struct UserPosition {
    pub bump: u8,
    pub liquidity: u128,
    pub fee_growth_checkpoint_base_token: u128,
    pub fee_growth_checkpoint_quote_token: u128,
    pub fee_unclaimed_base_token: u64,
    pub fee_unclaimed_quote_token: u64,
    pub collateral_amount: u64,
    pub borrow_amount: u64,
    pub borrow_amount_notional: u64,
    pub collateral_interest_growth_checkpoint: u128,
    pub borrow_interest_growth_checkpoint: u128,
    pub collateral_interest_unclaimed: u64,
    pub borrow_interest_unclaimed: u64,
    pub whirlpool_position_id: u64,
    pub hedge_position_id: u64,
    pub borrow_position_index: u8,
}

impl UserPosition {
    /// A ledger with no balances, all checkpoints at zero and all cursors at the first epoch.
    pub fn empty() -> (r: UserPosition)
        ensures
            r == (UserPosition {
                bump: 0,
                liquidity: 0,
                fee_growth_checkpoint_base_token: 0,
                fee_growth_checkpoint_quote_token: 0,
                fee_unclaimed_base_token: 0,
                fee_unclaimed_quote_token: 0,
                collateral_amount: 0,
                borrow_amount: 0,
                borrow_amount_notional: 0,
                collateral_interest_growth_checkpoint: 0,
                borrow_interest_growth_checkpoint: 0,
                collateral_interest_unclaimed: 0,
                borrow_interest_unclaimed: 0,
                whirlpool_position_id: 0,
                hedge_position_id: 0,
                borrow_position_index: 0,
            }),
    {
        UserPosition {
            bump: 0,
            liquidity: 0,
            fee_growth_checkpoint_base_token: 0,
            fee_growth_checkpoint_quote_token: 0,
            fee_unclaimed_base_token: 0,
            fee_unclaimed_quote_token: 0,
            collateral_amount: 0,
            borrow_amount: 0,
            borrow_amount_notional: 0,
            collateral_interest_growth_checkpoint: 0,
            borrow_interest_growth_checkpoint: 0,
            collateral_interest_unclaimed: 0,
            borrow_interest_unclaimed: 0,
            whirlpool_position_id: 0,
            hedge_position_id: 0,
            borrow_position_index: 0,
        }
    }

    /// Records the ledger's bump seed.
    pub fn open(&mut self, bump: u8)
        ensures
            *final(self) == (UserPosition { bump, ..*old(self) }),
    {
        self.bump = bump;
    }

    /// Adds deposited liquidity. Fails with `LiquidityOverflow`, changing nothing, past `u128::MAX`.
    pub fn deposit_liquidity(&mut self, liquidity_input: u128) -> (r: Result<(), SurfError>)
        ensures
            old(self).liquidity + liquidity_input > u128::MAX ==> r == Err::<(), SurfError>(
                SurfError::LiquidityOverflow,
            ) && *final(self) == *old(self),
            old(self).liquidity + liquidity_input <= u128::MAX ==> r is Ok && *final(self) == (
            UserPosition { liquidity: (old(self).liquidity + liquidity_input) as u128, ..*old(self) }),
    {
        match self.liquidity.checked_add(liquidity_input) {
            None => Err(SurfError::LiquidityOverflow),
            Some(v) => {
                self.liquidity = v;
                Ok(())
            },
        }
    }

    /// Adds collateral and borrow to the participant's hedge. Fails with the overflow error of
    /// the first amount that would pass `u64::MAX`, changing nothing.
    pub fn increase_hedge(
        &mut self,
        collateral_amount: u64,
        borrow_amount: u64,
        borrow_amount_notional: u64,
    ) -> (r: Result<(), SurfError>)
        ensures
            old(self).collateral_amount + collateral_amount > u64::MAX ==> r == Err::<
                (),
                SurfError,
            >(SurfError::CollateralOverflow),
            old(self).collateral_amount + collateral_amount <= u64::MAX && old(self).borrow_amount
                + borrow_amount > u64::MAX ==> r == Err::<(), SurfError>(SurfError::BorrowOverflow),
            old(self).collateral_amount + collateral_amount <= u64::MAX && old(self).borrow_amount
                + borrow_amount <= u64::MAX && old(self).borrow_amount_notional
                + borrow_amount_notional > u64::MAX ==> r == Err::<(), SurfError>(
                SurfError::BorrowNotionalOverflow,
            ),
            r is Err ==> *final(self) == *old(self),
            old(self).collateral_amount + collateral_amount <= u64::MAX && old(self).borrow_amount
                + borrow_amount <= u64::MAX && old(self).borrow_amount_notional
                + borrow_amount_notional <= u64::MAX ==> r is Ok && *final(self) == (UserPosition {
                collateral_amount: (old(self).collateral_amount + collateral_amount) as u64,
                borrow_amount: (old(self).borrow_amount + borrow_amount) as u64,
                borrow_amount_notional: (old(self).borrow_amount_notional
                    + borrow_amount_notional) as u64,
                ..*old(self)
            }),
    {
        let collateral = match self.collateral_amount.checked_add(collateral_amount) {
            None => {
                return Err(SurfError::CollateralOverflow);
            },
            Some(v) => v,
        };
        let borrow = match self.borrow_amount.checked_add(borrow_amount) {
            None => {
                return Err(SurfError::BorrowOverflow);
            },
            Some(v) => v,
        };
        let notional = match self.borrow_amount_notional.checked_add(borrow_amount_notional) {
            None => {
                return Err(SurfError::BorrowNotionalOverflow);
            },
            Some(v) => v,
        };
        self.collateral_amount = collateral;
        self.borrow_amount = borrow;
        self.borrow_amount_notional = notional;
        Ok(())
    }

    /// Removes collateral and borrow from the participant's hedge and forfeits unclaimed
    /// interest. Fails with the error of the first amount that would go below zero,
    /// changing nothing.
    pub fn decrease_hedge(
        &mut self,
        collateral_amount: u64,
        borrow_amount: u64,
        borrow_amount_notional: u64,
    ) -> (r: Result<(), SurfError>)
        ensures
            old(self).collateral_amount < collateral_amount ==> r == Err::<(), SurfError>(
                SurfError::CollateralOverflow,
            ),
            old(self).collateral_amount >= collateral_amount && old(self).borrow_amount
                < borrow_amount ==> r == Err::<(), SurfError>(SurfError::BorrowOverflow),
            old(self).collateral_amount >= collateral_amount && old(self).borrow_amount
                >= borrow_amount && old(self).borrow_amount_notional < borrow_amount_notional
                ==> r == Err::<(), SurfError>(SurfError::BorrowNotionalOverflow),
            r is Err ==> *final(self) == *old(self),
            old(self).collateral_amount >= collateral_amount && old(self).borrow_amount
                >= borrow_amount && old(self).borrow_amount_notional >= borrow_amount_notional
                ==> r is Ok && *final(self) == (UserPosition {
                collateral_amount: (old(self).collateral_amount - collateral_amount) as u64,
                borrow_amount: (old(self).borrow_amount - borrow_amount) as u64,
                borrow_amount_notional: (old(self).borrow_amount_notional
                    - borrow_amount_notional) as u64,
                collateral_interest_unclaimed: 0,
                borrow_interest_unclaimed: 0,
                ..*old(self)
            }),
    {
        let collateral = match self.collateral_amount.checked_sub(collateral_amount) {
            None => {
                return Err(SurfError::CollateralOverflow);
            },
            Some(v) => v,
        };
        let borrow = match self.borrow_amount.checked_sub(borrow_amount) {
            None => {
                return Err(SurfError::BorrowOverflow);
            },
            Some(v) => v,
        };
        let notional = match self.borrow_amount_notional.checked_sub(borrow_amount_notional) {
            None => {
                return Err(SurfError::BorrowNotionalOverflow);
            },
            Some(v) => v,
        };
        self.collateral_amount = collateral;
        self.borrow_amount = borrow;
        self.borrow_amount_notional = notional;
        self.collateral_interest_unclaimed = 0;
        self.borrow_interest_unclaimed = 0;
        Ok(())
    }

    /// Overwrites the participant's borrow amounts.
    pub fn update_borrow_amounts(&mut self, borrow_amount: u64, borrow_amount_notional: u64)
        ensures
            *final(self) == (UserPosition { borrow_amount, borrow_amount_notional, ..*old(self) }),
    {
        self.borrow_amount = borrow_amount;
        self.borrow_amount_notional = borrow_amount_notional;
    }

    /// Adds accrued borrow interest and moves the checkpoint. Fails with
    /// `BorrowInterestOverflow`, changing nothing, past `u64::MAX`.
    pub fn update_borrow_interest(
        &mut self,
        interest_unclaimed_diff: u64,
        interest_growth_checkpoint: u128,
    ) -> (r: Result<(), SurfError>)
        ensures
            old(self).borrow_interest_unclaimed + interest_unclaimed_diff > u64::MAX ==> r == Err::<
                (),
                SurfError,
            >(SurfError::BorrowInterestOverflow) && *final(self) == *old(self),
            old(self).borrow_interest_unclaimed + interest_unclaimed_diff <= u64::MAX ==> r is Ok
                && *final(self) == (UserPosition {
                borrow_interest_unclaimed: (old(self).borrow_interest_unclaimed
                    + interest_unclaimed_diff) as u64,
                borrow_interest_growth_checkpoint: interest_growth_checkpoint,
                ..*old(self)
            }),
    {
        match self.borrow_interest_unclaimed.checked_add(interest_unclaimed_diff) {
            None => Err(SurfError::BorrowInterestOverflow),
            Some(v) => {
                self.borrow_interest_unclaimed = v;
                self.borrow_interest_growth_checkpoint = interest_growth_checkpoint;
                Ok(())
            },
        }
    }

    /// Adds accrued collateral interest and moves the checkpoint. Fails with
    /// `CollateralInterestOverflow`, changing nothing, past `u64::MAX`.
    pub fn update_collateral_interest(
        &mut self,
        interest_unclaimed_diff: u64,
        interest_growth_checkpoint: u128,
    ) -> (r: Result<(), SurfError>)
        ensures
            old(self).collateral_interest_unclaimed + interest_unclaimed_diff > u64::MAX ==> r
                == Err::<(), SurfError>(SurfError::CollateralInterestOverflow) && *final(self)
                == *old(self),
            old(self).collateral_interest_unclaimed + interest_unclaimed_diff <= u64::MAX ==> r is Ok
                && *final(self) == (UserPosition {
                collateral_interest_unclaimed: (old(self).collateral_interest_unclaimed
                    + interest_unclaimed_diff) as u64,
                collateral_interest_growth_checkpoint: interest_growth_checkpoint,
                ..*old(self)
            }),
    {
        match self.collateral_interest_unclaimed.checked_add(interest_unclaimed_diff) {
            None => Err(SurfError::CollateralInterestOverflow),
            Some(v) => {
                self.collateral_interest_unclaimed = v;
                self.collateral_interest_growth_checkpoint = interest_growth_checkpoint;
                Ok(())
            },
        }
    }

    /// Marks all borrow interest as paid.
    pub fn claim_borrow_interest(&mut self)
        ensures
            *final(self) == (UserPosition { borrow_interest_unclaimed: 0, ..*old(self) }),
    {
        self.borrow_interest_unclaimed = 0;
    }

    /// Marks all collateral interest as withdrawn.
    pub fn claim_collateral_interest(&mut self)
        ensures
            *final(self) == (UserPosition { collateral_interest_unclaimed: 0, ..*old(self) }),
    {
        self.collateral_interest_unclaimed = 0;
    }
}

} // verus!
