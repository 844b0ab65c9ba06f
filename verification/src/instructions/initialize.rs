use crate::errors::ScoogiBattleError;
use crate::pubkey::Pubkey;
use crate::state::{scale_price, scaled_price, Admin, Mint};
use vstd::prelude::*;

verus! {

/// The accounts of the request that sets the configuration up.
#[derive(Clone, Copy, Debug, PartialEq, Eq)]
pub struct Initialize {
    /// The caller, who becomes the admin.
    pub admin: Pubkey,
    /// Where the configuration is to stand; `None` while nothing is there.
    pub admin_account: Option<Admin>,
    pub mint: Mint,
}

/// Why the request is rejected, if it is: a configuration is already there,
/// or the scaled price does not fit in 64 bits.
pub open spec fn initialize_rejection(ctx: Initialize, battle_price: u64) -> Option<
    ScoogiBattleError,
> {
    if ctx.admin_account is Some || scaled_price(battle_price, ctx.mint.decimals) > u64::MAX {
        Some(ScoogiBattleError::InternalError)
    } else {
        None
    }
}

/// The accounts after a set-up that is not rejected.
pub open spec fn initialized(ctx: Initialize, burn_fee_bps: u64, battle_price: u64) -> Initialize {
    Initialize {
        admin_account: Some(
            Admin {
                admin: ctx.admin,
                mint: ctx.mint.key,
                burn_fee_bps,
                battle_price: scaled_price(battle_price, ctx.mint.decimals) as u64,
            },
        ),
        ..ctx
    }
}

/// Sets the configuration up, once: the caller becomes the admin, the given
/// mint the stake currency, and the stake is `battle_price` whole tokens of
/// it. A rejected request leaves the accounts as they were.
pub fn initialize_ix(ctx: &mut Initialize, burn_fee_bps: u64, battle_price: u64) -> (r: Result<
    (),
    ScoogiBattleError,
>)
    ensures
        match initialize_rejection(*old(ctx), battle_price) {
            Some(e) => r == Err::<(), ScoogiBattleError>(e) && *final(ctx) == *old(ctx),
            None => r == Ok::<(), ScoogiBattleError>(()) && *final(ctx) == initialized(
                *old(ctx),
                burn_fee_bps,
                battle_price,
            ),
        },
{
    if ctx.admin_account.is_some() {
        return Err(ScoogiBattleError::InternalError);
    }
    let price = match scale_price(battle_price, ctx.mint.decimals) {
        Some(price) => price,
        None => return Err(ScoogiBattleError::InternalError),
    };
    ctx.admin_account = Some(
        Admin { admin: ctx.admin, mint: ctx.mint.key, burn_fee_bps, battle_price: price },
    );
    Ok(())
}

} // verus!
