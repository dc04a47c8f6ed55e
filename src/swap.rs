use vstd::prelude::*;

use crate::orca::{max_sqrt_price, min_sqrt_price};

verus! {

/// The sqrt price limit of a swap that may move the price as far as the pool allows:
/// the lowest price when selling the base token, the highest otherwise.
pub fn get_default_sqrt_price_limit(a_to_b: bool) -> (r: u128)
    ensures
        a_to_b ==> r == 4295048016u128,
        !a_to_b ==> r == 79226673515401279992447579055u128,
{
    if a_to_b {
        min_sqrt_price()
    } else {
        max_sqrt_price()
    }
}

/// The bound on the other side of a swap that accepts any outcome: no minimum output
/// when the input is given, no maximum input when the output is given.
pub fn get_default_other_amount_threshold(amount_specified_is_input: bool) -> (r: u64)
    ensures
        amount_specified_is_input ==> r == 0,
        !amount_specified_is_input ==> r == u64::MAX,
{
    if amount_specified_is_input {
        0
    } else {
        u64::MAX
    }
}

} // verus!
