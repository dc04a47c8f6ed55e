use vstd::prelude::*;

use crate::errors::SurfError;
use crate::key::AccountKey;

verus! {

/// One market epoch: the vault's concentrated-liquidity position between two rebalances.
/// Growth counters are Q64.64 per unit of liquidity and wrap at 2^128.
#[derive(Clone, Copy, Debug)]
pub struct WhirlpoolPosition {
    pub bump: u8,
    pub vault_state: AccountKey,
    pub id: u64,
    pub whirlpool_position: AccountKey,
    /// Liquidity the vault held in this epoch, before the closing diff.
    pub liquidity: u128,
    /// Signed change of liquidity recorded when this epoch closed.
    pub liquidity_diff: i128,
    pub base_token_fee_growth: u128,
    pub quote_token_fee_growth: u128,
    pub upper_sqrt_price: u128,
    pub lower_sqrt_price: u128,
    pub middle_sqrt_price: u128,
    pub inner_upper_sqrt_price: u128,
    pub inner_lower_sqrt_price: u128,
}

impl WhirlpoolPosition {
    /// An empty record, as a freshly allocated account holds it.
    pub fn empty() -> (r: WhirlpoolPosition)
        ensures
            r.id == 0,
            r.liquidity == 0,
            r.liquidity_diff == 0,
            r.base_token_fee_growth == 0,
            r.quote_token_fee_growth == 0,
    {
        WhirlpoolPosition {
            bump: 0,
            vault_state: AccountKey::zero(),
            id: 0,
            whirlpool_position: AccountKey::zero(),
            liquidity: 0,
            liquidity_diff: 0,
            base_token_fee_growth: 0,
            quote_token_fee_growth: 0,
            upper_sqrt_price: 0,
            lower_sqrt_price: 0,
            middle_sqrt_price: 0,
            inner_upper_sqrt_price: 0,
            inner_lower_sqrt_price: 0,
        }
    }

    /// Opens epoch `id` with its baseline liquidity, fee growth snapshot and price bounds.
    pub fn open(
        &mut self,
        bump: u8,
        vault_state: AccountKey,
        id: u64,
        whirlpool_position: AccountKey,
        liquidity: u128,
        base_token_fee_growth: u128,
        quote_token_fee_growth: u128,
        upper_sqrt_price: u128,
        lower_sqrt_price: u128,
        middle_sqrt_price: u128,
        inner_upper_sqrt_price: u128,
        inner_lower_sqrt_price: u128,
    )
        ensures
            *final(self) == (WhirlpoolPosition {
                bump,
                vault_state,
                id,
                whirlpool_position,
                liquidity,
                liquidity_diff: 0,
                base_token_fee_growth,
                quote_token_fee_growth,
                upper_sqrt_price,
                lower_sqrt_price,
                middle_sqrt_price,
                inner_upper_sqrt_price,
                inner_lower_sqrt_price,
            }),
    {
        *self = WhirlpoolPosition {
            bump,
            vault_state,
            id,
            whirlpool_position,
            liquidity,
            liquidity_diff: 0,
            base_token_fee_growth,
            quote_token_fee_growth,
            upper_sqrt_price,
            lower_sqrt_price,
            middle_sqrt_price,
            inner_upper_sqrt_price,
            inner_lower_sqrt_price,
        };
    }

    /// Adds liquidity to the epoch's baseline. Fails with `LiquidityOverflow` past `u128::MAX`.
    pub fn deposit_liquidity(&mut self, liquidity_input: u128) -> (r: Result<(), SurfError>)
        ensures
            old(self).liquidity + liquidity_input <= u128::MAX ==> r is Ok && *final(self) == (
            WhirlpoolPosition { liquidity: (old(self).liquidity + liquidity_input) as u128, ..*old(self) }),
            old(self).liquidity + liquidity_input > u128::MAX ==> r == Err::<(), SurfError>(
                SurfError::LiquidityOverflow,
            ) && *final(self) == *old(self),
    {
        match self.liquidity.checked_add(liquidity_input) {
            None => Err(SurfError::LiquidityOverflow),
            Some(v) => {
                self.liquidity = v;
                Ok(())
            },
        }
    }

    /// Records the fee growth totals of the market at this moment.
    pub fn update_fee_growths(&mut self, base_token_fee_growth: u128, quote_token_fee_growth: u128)
        ensures
            *final(self) == (WhirlpoolPosition {
                base_token_fee_growth,
                quote_token_fee_growth,
                ..*old(self)
            }),
    {
        self.base_token_fee_growth = base_token_fee_growth;
        self.quote_token_fee_growth = quote_token_fee_growth;
    }

    /// Closes the epoch by recording the signed liquidity change that rolls into the next one.
    pub fn close(&mut self, liquidity_diff: i128)
        ensures
            *final(self) == (WhirlpoolPosition { liquidity_diff, ..*old(self) }),
    {
        self.liquidity_diff = liquidity_diff;
    }
}

} // verus!
