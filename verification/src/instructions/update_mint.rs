use crate::errors::ScoogiBattleError;
use crate::pubkey::Pubkey;
use crate::state::{Admin, Mint};
use vstd::prelude::*;

verus! {

/// The accounts of the admin's request to change the stake currency.
#[derive(Clone, Copy, Debug, PartialEq, Eq)]
pub struct UpdateMint {
    /// The caller.
    pub admin: Pubkey,
    pub admin_account: Admin,
    /// The mint that is to be the stake currency.
    pub mint: Mint,
}

/// Makes the given mint the stake currency. The stake is not rescaled to the
/// new mint's precision. Only the admin may do so; anyone else is rejected as
/// unauthorized and nothing changes.
pub fn update_mint_ix(ctx: &mut UpdateMint) -> (r: Result<(), ScoogiBattleError>)
    ensures
        old(ctx).admin != old(ctx).admin_account.admin ==> r == Err::<(), ScoogiBattleError>(
            ScoogiBattleError::Unauthorized,
        ) && *final(ctx) == *old(ctx),
        old(ctx).admin == old(ctx).admin_account.admin ==> r == Ok::<(), ScoogiBattleError>(())
            && *final(ctx) == (UpdateMint {
            admin_account: Admin { mint: old(ctx).mint.key, ..old(ctx).admin_account },
            ..*old(ctx)
        }),
{
    if ctx.admin != ctx.admin_account.admin {
        return Err(ScoogiBattleError::Unauthorized);
    }
    ctx.admin_account = Admin { mint: ctx.mint.key, ..ctx.admin_account };
    Ok(())
}

} // verus!
