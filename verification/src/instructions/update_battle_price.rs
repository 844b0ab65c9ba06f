use crate::errors::ScoogiBattleError;
use crate::pubkey::Pubkey;
use crate::state::{scale_price, scaled_price, Admin, Mint};
use vstd::prelude::*;

verus! {

/// The accounts of the admin's request to change the stake.
#[derive(Clone, Copy, Debug, PartialEq, Eq)]
pub struct UpdateBattlePrice {
    /// The caller.
    pub admin: Pubkey,
    pub admin_account: Admin,
    pub mint: Mint,
}

/// Why the request is rejected, if it is. The checks are made in this order.
pub open spec fn update_battle_price_rejection(ctx: UpdateBattlePrice, battle_price: u64) -> Option<
    ScoogiBattleError,
> {
    if ctx.admin != ctx.admin_account.admin {
        Some(ScoogiBattleError::Unauthorized)
    } else if ctx.mint.key != ctx.admin_account.mint || scaled_price(
        battle_price,
        ctx.mint.decimals,
    ) > u64::MAX {
        Some(ScoogiBattleError::InternalError)
    } else {
        None
    }
}

/// The accounts after a change of the stake that is not rejected.
pub open spec fn with_battle_price(ctx: UpdateBattlePrice, battle_price: u64) -> UpdateBattlePrice {
    UpdateBattlePrice {
        admin_account: Admin {
            battle_price: scaled_price(battle_price, ctx.mint.decimals) as u64,
            ..ctx.admin_account
        },
        ..ctx
    }
}

/// Sets the stake to `battle_price` whole tokens of the configured mint. Only
/// the admin may do so. A rejected request leaves the accounts as they were.
pub fn update_battle_price_ix(ctx: &mut UpdateBattlePrice, battle_price: u64) -> (r: Result<
    (),
    ScoogiBattleError,
>)
    ensures
        match update_battle_price_rejection(*old(ctx), battle_price) {
            Some(e) => r == Err::<(), ScoogiBattleError>(e) && *final(ctx) == *old(ctx),
            None => r == Ok::<(), ScoogiBattleError>(()) && *final(ctx) == with_battle_price(
                *old(ctx),
                battle_price,
            ),
        },
{
    if ctx.admin != ctx.admin_account.admin {
        return Err(ScoogiBattleError::Unauthorized);
    }
    if ctx.mint.key != ctx.admin_account.mint {
        return Err(ScoogiBattleError::InternalError);
    }
    let price = match scale_price(battle_price, ctx.mint.decimals) {
        Some(price) => price,
        None => return Err(ScoogiBattleError::InternalError),
    };
    ctx.admin_account = Admin { battle_price: price, ..ctx.admin_account };
    Ok(())
}

} // verus!
