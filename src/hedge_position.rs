use vstd::prelude::*;

use crate::errors::SurfError;
use crate::key::AccountKey;
use crate::wide::q64;

verus! {

/// Number of borrow slots in one hedge epoch.
pub const BORROW_POSITIONS_CAPACITY: usize = 150;

/// Index of the last borrow slot of a hedge epoch.
pub const LAST_BORROW_POSITION_INDEX: u8 = 149;

/// One borrow slot: the vault's loan between two hedge adjustments. Interest growth is
/// Q64.64 per unit borrowed, and always equals fresh growth plus the claimed checkpoint.
#[derive(Clone, Copy, Debug)]
pub struct BorrowPosition {
    pub borrowed_amount: u64,
    pub borrowed_amount_diff: i64,
    pub borrowed_amount_notional: u64,
    pub borrowed_amount_notional_diff: i64,
    pub borrow_interest_growth: u128,
    pub borrow_interest_growth_checkpoint: u128,
}

/// A slot with nothing borrowed.
pub open spec fn empty_slot() -> BorrowPosition {
    BorrowPosition {
        borrowed_amount: 0,
        borrowed_amount_diff: 0,
        borrowed_amount_notional: 0,
        borrowed_amount_notional_diff: 0,
        borrow_interest_growth: 0,
        borrow_interest_growth_checkpoint: 0,
    }
}

impl BorrowPosition {
    /// A slot with nothing borrowed.
    pub fn empty() -> (r: BorrowPosition)
        ensures
            r == empty_slot(),
    {
        BorrowPosition {
            borrowed_amount: 0,
            borrowed_amount_diff: 0,
            borrowed_amount_notional: 0,
            borrowed_amount_notional_diff: 0,
            borrow_interest_growth: 0,
            borrow_interest_growth_checkpoint: 0,
        }
    }
}

/// `old_amount` moved by `diff`.
pub open spec fn moved_amount(old_amount: int, diff: int) -> int {
    old_amount + diff
}

/// One hedge epoch: a fixed number of borrow slots, of which one is current. When the
/// last slot is used up, the next adjustment rolls over into a new hedge epoch.
#[derive(Clone, Debug)]
pub struct HedgePosition {
    pub bump: u8,
    pub vault_state: AccountKey,
    pub id: u64,
    pub current_borrow_position_index: u8,
    pub borrow_positions: Vec<BorrowPosition>,
}

impl HedgePosition {
    /// The slot array has its full size and the current index lies inside it.
    pub open spec fn wf(&self) -> bool {
        &&& self.borrow_positions@.len() == BORROW_POSITIONS_CAPACITY
        &&& self.current_borrow_position_index <= LAST_BORROW_POSITION_INDEX
    }

    /// The current slot.
    pub open spec fn current(&self) -> BorrowPosition {
        self.borrow_positions@[self.current_borrow_position_index as int]
    }

    /// `self` equals `before` except that its current slot is `slot`.
    pub open spec fn is_with_current(&self, before: &HedgePosition, slot: BorrowPosition) -> bool {
        &&& self.bump == before.bump
        &&& self.vault_state == before.vault_state
        &&& self.id == before.id
        &&& self.current_borrow_position_index == before.current_borrow_position_index
        &&& self.borrow_positions@ == before.borrow_positions@.update(
            before.current_borrow_position_index as int,
            slot,
        )
    }

    /// A hedge epoch with every slot empty and slot 0 current.
    pub fn empty() -> (r: HedgePosition)
        ensures
            r.wf(),
            r.id == 0,
            r.current_borrow_position_index == 0,
            forall|i: int| 0 <= i < BORROW_POSITIONS_CAPACITY ==> r.borrow_positions@[i] == empty_slot(),
    {
        let mut slots: Vec<BorrowPosition> = Vec::new();
        let mut i: usize = 0;
        while i < BORROW_POSITIONS_CAPACITY
            invariant
                i <= BORROW_POSITIONS_CAPACITY,
                slots@.len() == i,
                forall|j: int| 0 <= j < i ==> slots@[j] == empty_slot(),
            decreases BORROW_POSITIONS_CAPACITY - i,
        {
            slots.push(BorrowPosition::empty());
            i = i + 1;
        }
        HedgePosition {
            bump: 0,
            vault_state: AccountKey::zero(),
            id: 0,
            current_borrow_position_index: 0,
            borrow_positions: slots,
        }
    }

    /// Binds the record to its vault and gives it its id.
    pub fn initialize(&mut self, bump: u8, vault_state: AccountKey, id: u64)
        ensures
            *final(self) == (HedgePosition { bump, vault_state, id, ..*old(self) }),
    {
        self.bump = bump;
        self.vault_state = vault_state;
        self.id = id;
    }

    /// The current slot.
    pub fn get_current_position(&self) -> (r: BorrowPosition)
        requires
            self.wf(),
        ensures
            r == self.current(),
    {
        self.borrow_positions[self.current_borrow_position_index as usize]
    }

    /// Replaces the current slot.
    fn set_current_position(&mut self, slot: BorrowPosition)
        requires
            old(self).wf(),
        ensures
            final(self).wf(),
            final(self).is_with_current(old(self), slot),
    {
        let ci = self.current_borrow_position_index as usize;
        self.borrow_positions.set(ci, slot);
    }

    /// Adds a new borrow to the current slot. Fails with `BorrowOverflow` or
    /// `BorrowNotionalOverflow` past `u64::MAX`, leaving the record as it was.
    pub fn increase_hedge(&mut self, borrowed_amount: u64, borrowed_amount_notional: u64) -> (r:
        Result<(), SurfError>)
        requires
            old(self).wf(),
        ensures
            final(self).wf(),
            old(self).current().borrowed_amount + borrowed_amount > u64::MAX ==> r == Err::<
                (),
                SurfError,
            >(SurfError::BorrowOverflow),
            old(self).current().borrowed_amount + borrowed_amount <= u64::MAX
                && old(self).current().borrowed_amount_notional + borrowed_amount_notional
                > u64::MAX ==> r == Err::<(), SurfError>(SurfError::BorrowNotionalOverflow),
            r is Err ==> *final(self) == *old(self),
            r is Ok ==> final(self).is_with_current(
                old(self),
                BorrowPosition {
                    borrowed_amount: (old(self).current().borrowed_amount + borrowed_amount) as u64,
                    borrowed_amount_notional: (old(self).current().borrowed_amount_notional
                        + borrowed_amount_notional) as u64,
                    ..old(self).current()
                },
            ),
            old(self).current().borrowed_amount + borrowed_amount <= u64::MAX
                && old(self).current().borrowed_amount_notional + borrowed_amount_notional
                <= u64::MAX ==> r is Ok,
    {
        let slot = self.get_current_position();
        let amount = match slot.borrowed_amount.checked_add(borrowed_amount) {
            None => {
                return Err(SurfError::BorrowOverflow);
            },
            Some(v) => v,
        };
        let notional = match slot.borrowed_amount_notional.checked_add(borrowed_amount_notional) {
            None => {
                return Err(SurfError::BorrowNotionalOverflow);
            },
            Some(v) => v,
        };
        self.set_current_position(
            BorrowPosition { borrowed_amount: amount, borrowed_amount_notional: notional, ..slot },
        );
        Ok(())
    }

    /// Removes a repaid borrow from the current slot. Fails with `BorrowOverflow` or
    /// `BorrowNotionalOverflow` below zero, leaving the record as it was.
    pub fn decrease_hedge(&mut self, borrowed_amount: u64, borrowed_amount_notional: u64) -> (r:
        Result<(), SurfError>)
        requires
            old(self).wf(),
        ensures
            final(self).wf(),
            old(self).current().borrowed_amount < borrowed_amount ==> r == Err::<(), SurfError>(
                SurfError::BorrowOverflow,
            ),
            old(self).current().borrowed_amount >= borrowed_amount
                && old(self).current().borrowed_amount_notional < borrowed_amount_notional ==> r
                == Err::<(), SurfError>(SurfError::BorrowNotionalOverflow),
            r is Err ==> *final(self) == *old(self),
            r is Ok ==> final(self).is_with_current(
                old(self),
                BorrowPosition {
                    borrowed_amount: (old(self).current().borrowed_amount - borrowed_amount) as u64,
                    borrowed_amount_notional: (old(self).current().borrowed_amount_notional
                        - borrowed_amount_notional) as u64,
                    ..old(self).current()
                },
            ),
            old(self).current().borrowed_amount >= borrowed_amount
                && old(self).current().borrowed_amount_notional >= borrowed_amount_notional ==> r is Ok,
    {
        let slot = self.get_current_position();
        let amount = match slot.borrowed_amount.checked_sub(borrowed_amount) {
            None => {
                return Err(SurfError::BorrowOverflow);
            },
            Some(v) => v,
        };
        let notional = match slot.borrowed_amount_notional.checked_sub(borrowed_amount_notional) {
            None => {
                return Err(SurfError::BorrowNotionalOverflow);
            },
            Some(v) => v,
        };
        self.set_current_position(
            BorrowPosition { borrowed_amount: amount, borrowed_amount_notional: notional, ..slot },
        );
        Ok(())
    }

    /// Makes the next slot current. Returns `None`, changing nothing, when the last slot is
    /// already current: the next adjustment must open a new hedge epoch.
    pub fn update_current_position_id(&mut self) -> (r: Option<()>)
        requires
            old(self).wf(),
        ensures
            final(self).wf(),
            old(self).current_borrow_position_index == LAST_BORROW_POSITION_INDEX ==> r is None
                && *final(self) == *old(self),
            old(self).current_borrow_position_index < LAST_BORROW_POSITION_INDEX ==> r is Some
                && *final(self) == (HedgePosition {
                current_borrow_position_index: (old(self).current_borrow_position_index + 1) as u8,
                ..*old(self)
            }),
    {
        if self.current_borrow_position_index == LAST_BORROW_POSITION_INDEX {
            return None;
        }
        self.current_borrow_position_index = self.current_borrow_position_index + 1;
        Some(())
    }

    /// Sets the current slot's interest growth to fresh growth plus its claimed checkpoint.
    /// Fails with `BorrowInterestOverflow` past `u128::MAX`, leaving the record as it was.
    pub fn update_interest_growth(&mut self, borrow_interest_growth: u128) -> (r: Result<
        (),
        SurfError,
    >)
        requires
            old(self).wf(),
        ensures
            final(self).wf(),
            borrow_interest_growth + old(self).current().borrow_interest_growth_checkpoint
                > u128::MAX ==> r == Err::<(), SurfError>(SurfError::BorrowInterestOverflow)
                && *final(self) == *old(self),
            borrow_interest_growth + old(self).current().borrow_interest_growth_checkpoint
                <= u128::MAX ==> r is Ok && final(self).is_with_current(
                old(self),
                BorrowPosition {
                    borrow_interest_growth: (borrow_interest_growth
                        + old(self).current().borrow_interest_growth_checkpoint) as u128,
                    ..old(self).current()
                },
            ),
    {
        let slot = self.get_current_position();
        match borrow_interest_growth.checked_add(slot.borrow_interest_growth_checkpoint) {
            None => Err(SurfError::BorrowInterestOverflow),
            Some(growth) => {
                self.set_current_position(BorrowPosition { borrow_interest_growth: growth, ..slot });
                Ok(())
            },
        }
    }

    /// Records interest a participant paid off: the claimed amount, in Q64.64, moves into
    /// the current slot's checkpoint. Fails with `BorrowInterestOverflow` past `u128::MAX`.
    pub fn claim_user_borrow_interest(&mut self, claimed_interest: u64) -> (r: Result<
        (),
        SurfError,
    >)
        requires
            old(self).wf(),
        ensures
            final(self).wf(),
            old(self).current().borrow_interest_growth_checkpoint + claimed_interest * q64()
                > u128::MAX ==> r == Err::<(), SurfError>(SurfError::BorrowInterestOverflow)
                && *final(self) == *old(self),
            old(self).current().borrow_interest_growth_checkpoint + claimed_interest * q64()
                <= u128::MAX ==> r is Ok && final(self).is_with_current(
                old(self),
                BorrowPosition {
                    borrow_interest_growth_checkpoint: (old(self).current().borrow_interest_growth_checkpoint + claimed_interest * q64()) as u128,
                    ..old(self).current()
                },
            ),
    {
        let slot = self.get_current_position();
        let claimed_shifted = (claimed_interest as u128) * 0x1_0000_0000_0000_0000u128;
        match slot.borrow_interest_growth_checkpoint.checked_add(claimed_shifted) {
            None => Err(SurfError::BorrowInterestOverflow),
            Some(checkpoint) => {
                self.set_current_position(
                    BorrowPosition { borrow_interest_growth_checkpoint: checkpoint, ..slot },
                );
                Ok(())
            },
        }
    }

    /// Records a hedge adjustment on the current slot: both diffs are added to the slot's
    /// running diffs, and the amounts that the next slot starts from are returned. Fails with
    /// `BorrowOverflow` or `BorrowNotionalOverflow` when a diff or a new amount leaves its
    /// range, leaving the record as it was.
    pub fn update_diffs(&mut self, borrowed_diff: i64, borrowed_diff_notional: i64) -> (r: Result<
        (u64, u64),
        SurfError,
    >)
        requires
            old(self).wf(),
        ensures
            final(self).wf(),
            r is Err ==> *final(self) == *old(self),
            r is Ok <==> update_diffs_fits(old(self).current(), borrowed_diff as int, borrowed_diff_notional as int),
            r is Err ==> r == Err::<(u64, u64), SurfError>(
                if !(i64::MIN <= old(self).current().borrowed_amount_diff + borrowed_diff <= i64::MAX) {
                    SurfError::BorrowOverflow
                } else if !(i64::MIN <= old(self).current().borrowed_amount_notional_diff
                    + borrowed_diff_notional <= i64::MAX) {
                    SurfError::BorrowNotionalOverflow
                } else if !(0 <= moved_amount(old(self).current().borrowed_amount as int, borrowed_diff as int) <= u64::MAX) {
                    SurfError::BorrowOverflow
                } else {
                    SurfError::BorrowNotionalOverflow
                },
            ),
            r is Ok ==> r->Ok_0 == (
                moved_amount(old(self).current().borrowed_amount as int, borrowed_diff as int) as u64,
                moved_amount(old(self).current().borrowed_amount_notional as int, borrowed_diff_notional as int) as u64,
            ) && final(self).is_with_current(
                old(self),
                BorrowPosition {
                    borrowed_amount_diff: (old(self).current().borrowed_amount_diff
                        + borrowed_diff) as i64,
                    borrowed_amount_notional_diff: (old(self).current().borrowed_amount_notional_diff
                        + borrowed_diff_notional) as i64,
                    ..old(self).current()
                },
            ),
    {
        let slot = self.get_current_position();
        let amount_diff = match slot.borrowed_amount_diff.checked_add(borrowed_diff) {
            None => {
                return Err(SurfError::BorrowOverflow);
            },
            Some(v) => v,
        };
        let notional_diff = match slot.borrowed_amount_notional_diff.checked_add(
            borrowed_diff_notional,
        ) {
            None => {
                return Err(SurfError::BorrowNotionalOverflow);
            },
            Some(v) => v,
        };
        let new_amount = match calculate_new_amount(slot.borrowed_amount, borrowed_diff) {
            None => {
                return Err(SurfError::BorrowOverflow);
            },
            Some(v) => v,
        };
        let new_notional = match calculate_new_amount(
            slot.borrowed_amount_notional,
            borrowed_diff_notional,
        ) {
            None => {
                return Err(SurfError::BorrowNotionalOverflow);
            },
            Some(v) => v,
        };
        self.set_current_position(
            BorrowPosition {
                borrowed_amount_diff: amount_diff,
                borrowed_amount_notional_diff: notional_diff,
                ..slot
            },
        );
        Ok((new_amount, new_notional))
    }
}

/// Whether `update_diffs` can record the given diffs on `slot`.
pub open spec fn update_diffs_fits(slot: BorrowPosition, diff: int, diff_notional: int) -> bool {
    &&& i64::MIN <= slot.borrowed_amount_diff + diff <= i64::MAX
    &&& i64::MIN <= slot.borrowed_amount_notional_diff + diff_notional <= i64::MAX
    &&& 0 <= moved_amount(slot.borrowed_amount as int, diff) <= u64::MAX
    &&& 0 <= moved_amount(slot.borrowed_amount_notional as int, diff_notional) <= u64::MAX
}

/// `old_amount` moved by `diff`, or `None` when that leaves the `u64` range.
pub fn calculate_new_amount(old_amount: u64, diff: i64) -> (r: Option<u64>)
    ensures
        0 <= moved_amount(old_amount as int, diff as int) <= u64::MAX ==> r == Some(
            moved_amount(old_amount as int, diff as int) as u64,
        ),
        !(0 <= moved_amount(old_amount as int, diff as int) <= u64::MAX) ==> r is None,
{
    let moved: i128 = old_amount as i128 + diff as i128;
    if moved < 0 || moved > u64::MAX as i128 {
        None
    } else {
        Some(moved as u64)
    }
}

} // verus!
