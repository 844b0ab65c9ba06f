use crate::errors::ScoogiBattleError;
use crate::pubkey::Pubkey;
use crate::state::Admin;
use vstd::prelude::*;

verus! {

/// The accounts of the admin's request to change the fee.
#[derive(Clone, Copy, Debug, PartialEq, Eq)]
pub struct UpdateBurnFeeBps {
    /// The caller.
    pub admin: Pubkey,
    pub admin_account: Admin,
}

/// Sets the fee to `burn_fee_bps` basis points. Only the admin may do so;
/// anyone else is rejected as unauthorized and nothing changes.
pub fn update_burn_fee_bps_ix(ctx: &mut UpdateBurnFeeBps, burn_fee_bps: u64) -> (r: Result<
    (),
    ScoogiBattleError,
>)
    ensures
        old(ctx).admin != old(ctx).admin_account.admin ==> r == Err::<(), ScoogiBattleError>(
            ScoogiBattleError::Unauthorized,
        ) && *final(ctx) == *old(ctx),
        old(ctx).admin == old(ctx).admin_account.admin ==> r == Ok::<(), ScoogiBattleError>(())
            && *final(ctx) == (UpdateBurnFeeBps {
            admin_account: Admin { burn_fee_bps, ..old(ctx).admin_account },
            ..*old(ctx)
        }),
{
    if ctx.admin != ctx.admin_account.admin {
        return Err(ScoogiBattleError::Unauthorized);
    }
    ctx.admin_account = Admin { burn_fee_bps, ..ctx.admin_account };
    Ok(())
}

} // verus!
