use crate::errors::ScoogiBattleError;
use crate::pubkey::Pubkey;
use crate::state::{Admin, Battle, Escrow, FundingAccount, Mint};
use crate::transfer::{
    closing, closing_order, payment, payment_order, signer_for, signer_of, CloseAccount,
    EscrowSigner, TransferChecked,
};
use vstd::prelude::*;

verus! {

/// The accounts of the admin's request to split a battle's escrow.
#[derive(Clone, Copy, Debug, PartialEq, Eq)]
pub struct AdminWithdraw {
    pub program_id: Pubkey,
    /// The caller.
    pub admin: Pubkey,
    pub admin_account: Admin,
    /// The battle record, while there is one.
    pub battle_account: Option<Battle>,
    pub battle_token_account: Escrow,
    /// Player one's token account, which one half is paid into.
    pub player_one_token_account: FundingAccount,
    /// Player two's token account, which the other half is paid into.
    pub player_two_token_account: FundingAccount,
    pub mint: Mint,
}

/// What the admin's override orders: one half to each player, and the closing
/// of the escrow, all signed by the escrow.
#[derive(Clone, Copy, Debug, PartialEq, Eq)]
pub struct Split {
    pub to_player_one: TransferChecked,
    pub to_player_two: TransferChecked,
    pub close: CloseAccount,
    pub signer: EscrowSigner,
}

/// Whether the escrow can be split: the mint is the configured one, the
/// escrow holds its tokens, and the two token accounts to pay into are those
/// of the battle's players, as the record names them. The player two of a
/// battle that nobody joined is the all-zero key.
pub open spec fn can_split(ctx: AdminWithdraw) -> bool {
    &&& ctx.mint.key == ctx.admin_account.mint
    &&& ctx.battle_token_account.holds(ctx.mint.key)
    &&& ctx.player_one_token_account.is_of(ctx.battle_account->0.player_one, ctx.mint.key)
    &&& ctx.player_two_token_account.is_of(ctx.battle_account->0.player_two, ctx.mint.key)
}

/// Why the request is rejected, if it is. The checks are made in this order.
/// There must be a battle, but which status it has is not asked.
pub open spec fn admin_withdraw_rejection(ctx: AdminWithdraw, battle_id: u64) -> Option<
    ScoogiBattleError,
> {
    match ctx.battle_account {
        None => Some(ScoogiBattleError::InvalidBattleStatus),
        Some(battle) => {
            if battle.battle_id != battle_id {
                Some(ScoogiBattleError::InvalidBattleId)
            } else if ctx.admin != ctx.admin_account.admin {
                Some(ScoogiBattleError::Unauthorized)
            } else if !can_split(ctx) {
                Some(ScoogiBattleError::InternalError)
            } else {
                None
            }
        },
    }
}

/// The orders of an override that is not rejected. Each half is the balance
/// divided by two, rounded down: of an odd balance one unit is paid to nobody.
pub open spec fn split_of(ctx: AdminWithdraw) -> Split {
    let escrow = ctx.battle_token_account;
    let half = (escrow.balance() / 2) as u64;
    Split {
        to_player_one: payment(escrow, ctx.mint, ctx.player_one_token_account, half),
        to_player_two: payment(escrow, ctx.mint, ctx.player_two_token_account, half),
        close: closing(escrow, ctx.admin_account.admin),
        signer: signer_of(ctx.battle_account->0, escrow),
    }
}

/// The accounts after an override that is not rejected: the battle record is
/// gone, and so is the escrow's token account.
pub open spec fn withdrawn_by_admin(ctx: AdminWithdraw) -> AdminWithdraw {
    AdminWithdraw {
        battle_account: None,
        battle_token_account: Escrow { account: None, ..ctx.battle_token_account },
        ..ctx
    }
}

/// Splits a battle's escrow between the two players, whatever the battle's
/// status, and ends the battle: its record and its escrow are gone
/// afterwards. No winner is recorded and no fee is taken. Only the admin may
/// do so. A rejected request leaves the accounts as they were.
pub fn admin_withdraw_ix(ctx: &mut AdminWithdraw, battle_id: u64) -> (r: Result<
    Split,
    ScoogiBattleError,
>)
    ensures
        match admin_withdraw_rejection(*old(ctx), battle_id) {
            Some(e) => r == Err::<Split, ScoogiBattleError>(e) && *final(ctx) == *old(ctx),
            None => r == Ok::<Split, ScoogiBattleError>(split_of(*old(ctx)))
                && *final(ctx) == withdrawn_by_admin(*old(ctx)),
        },
        // An override pays each player half of what the escrow held, rounded
        // down, and destroys the battle with its escrow, whatever its status.
        r matches Ok(split) ==> split.to_player_one.amount == old(ctx).battle_token_account.balance() / 2 && split.to_player_two.amount == old(ctx).battle_token_account.balance() / 2 && final(ctx).battle_account is None && final(ctx).battle_token_account.account is None,
{
    let battle = match ctx.battle_account {
        Some(battle) => battle,
        None => return Err(ScoogiBattleError::InvalidBattleStatus),
    };
    if battle.battle_id != battle_id {
        return Err(ScoogiBattleError::InvalidBattleId);
    }
    if ctx.admin != ctx.admin_account.admin {
        return Err(ScoogiBattleError::Unauthorized);
    }
    if ctx.mint.key != ctx.admin_account.mint {
        return Err(ScoogiBattleError::InternalError);
    }
    let escrow = ctx.battle_token_account;
    let balance = match escrow.stakes(&ctx.mint.key) {
        Some(balance) => balance,
        None => return Err(ScoogiBattleError::InternalError),
    };
    if !ctx.player_one_token_account.belongs_to(&battle.player_one, &ctx.mint.key)
        || !ctx.player_two_token_account.belongs_to(&battle.player_two, &ctx.mint.key) {
        return Err(ScoogiBattleError::InternalError);
    }
    let amount = balance / 2;
    ctx.battle_account = None;
    ctx.battle_token_account = Escrow { account: None, ..escrow };
    Ok(
        Split {
            to_player_one: payment_order(&escrow, &ctx.mint, &ctx.player_one_token_account, amount),
            to_player_two: payment_order(&escrow, &ctx.mint, &ctx.player_two_token_account, amount),
            close: closing_order(&escrow, ctx.admin_account.admin),
            signer: signer_for(&battle, &escrow),
        },
    )
}

} // verus!
