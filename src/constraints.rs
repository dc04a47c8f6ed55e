use vstd::prelude::*;

use crate::key::AccountKey;

verus! {

/// The program's administrator record.
#[derive(Clone, Copy, Debug)]
pub struct AdminConfig {
    pub admin_key: AccountKey,
    pub bump: u8,
}

/// Whether `admin` is the administrator that `admin_config` names.
pub fn is_admin(admin_config: &AdminConfig, admin: &AccountKey) -> (r: bool)
    ensures
        r == (admin_config.admin_key.bytes@ == admin.bytes@),
{
    admin_config.admin_key.same_as(admin)
}

/// Whether two pools trade the same pair: the same base token mint and the same quote
/// token mint.
pub fn have_matching_mints(
    token_mint_a: &AccountKey,
    token_mint_b: &AccountKey,
    other_token_mint_a: &AccountKey,
    other_token_mint_b: &AccountKey,
) -> (r: bool)
    ensures
        r == (token_mint_a.bytes@ == other_token_mint_a.bytes@ && token_mint_b.bytes@
            == other_token_mint_b.bytes@),
{
    token_mint_a.same_as(other_token_mint_a) && token_mint_b.same_as(other_token_mint_b)
}

} // verus!
