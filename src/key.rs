use vstd::prelude::*;

verus! {

/// The 32-byte address of an account.
#[derive(Clone, Copy, Debug)]
pub struct AccountKey {
    pub bytes: [u8; 32],
}

impl AccountKey {
    /// The all-zero address, which no real account has.
    pub fn zero() -> (r: AccountKey)
        ensures
            r.bytes@ == Seq::new(32, |i: int| 0u8),
    {
        let r = AccountKey { bytes: [0u8; 32] };
        proof {
            assert(r.bytes@ =~= Seq::new(32, |i: int| 0u8));
        }
        r
    }

    /// Whether two addresses are the same.
    pub fn same_as(&self, other: &AccountKey) -> (r: bool)
        ensures
            r == (self.bytes@ == other.bytes@),
    {
        let mut i: usize = 0;
        while i < 32
            invariant
                0 <= i <= 32,
                self.bytes@.len() == 32,
                other.bytes@.len() == 32,
                forall|j: int| 0 <= j < i ==> self.bytes@[j] == other.bytes@[j],
            decreases 32 - i,
        {
            if self.bytes[i] != other.bytes[i] {
                return false;
            }
            i = i + 1;
        }
        proof {
            assert(self.bytes@ =~= other.bytes@);
        }
        true
    }
}

} // verus!
