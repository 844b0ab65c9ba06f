use crate::errors::ScoogiBattleError;
use crate::pubkey::Pubkey;
use crate::state::{Admin, Battle, BattleStatus, Escrow, FundingAccount, Mint};
use crate::transfer::{
    closing, closing_order, payment, payment_order, signer_for, signer_of, CloseAccount,
    EscrowSigner, TransferChecked,
};
use vstd::prelude::*;

verus! {

/// The accounts of player one's request to take the stake back.
#[derive(Clone, Copy, Debug, PartialEq, Eq)]
pub struct WithdrawFromBattle {
    pub program_id: Pubkey,
    /// The caller.
    pub player_one: Pubkey,
    pub admin_account: Admin,
    /// The battle record, while there is one.
    pub battle_account: Option<Battle>,
    pub battle_token_account: Escrow,
    /// The caller's token account, which the stake is returned into.
    pub player_one_token_account: FundingAccount,
    pub mint: Mint,
}

/// What a refund orders: the whole escrow back to player one, and the closing
/// of the escrow, both signed by the escrow. Nobody else is paid.
#[derive(Clone, Copy, Debug, PartialEq, Eq)]
pub struct Refund {
    pub to_player_one: TransferChecked,
    pub close: CloseAccount,
    pub signer: EscrowSigner,
}

/// Whether the stake can be returned: the mint is the configured one, the
/// escrow holds its tokens, and the token account to pay into is the
/// caller's.
pub open spec fn can_refund(ctx: WithdrawFromBattle) -> bool {
    &&& ctx.mint.key == ctx.admin_account.mint
    &&& ctx.battle_token_account.holds(ctx.mint.key)
    &&& ctx.player_one_token_account.is_of(ctx.player_one, ctx.mint.key)
}

/// Why the request is rejected, if it is. The checks are made in this order.
pub open spec fn withdraw_from_battle_rejection(ctx: WithdrawFromBattle, battle_id: u64) -> Option<
    ScoogiBattleError,
> {
    match ctx.battle_account {
        None => Some(ScoogiBattleError::InvalidBattleStatus),
        Some(battle) => {
            if !(battle.battle_status is Pending) {
                Some(ScoogiBattleError::InvalidBattleStatus)
            } else if battle.battle_id != battle_id {
                Some(ScoogiBattleError::InvalidBattleId)
            } else if ctx.player_one != battle.player_one {
                Some(ScoogiBattleError::InvalidWithdrawal)
            } else if !can_refund(ctx) {
                Some(ScoogiBattleError::InternalError)
            } else {
                None
            }
        },
    }
}

/// The orders of a refund that is not rejected.
pub open spec fn refund_of(ctx: WithdrawFromBattle) -> Refund {
    let escrow = ctx.battle_token_account;
    Refund {
        to_player_one: payment(
            escrow,
            ctx.mint,
            ctx.player_one_token_account,
            escrow.balance() as u64,
        ),
        close: closing(escrow, ctx.admin_account.admin),
        signer: signer_of(ctx.battle_account->0, escrow),
    }
}

/// The accounts after a refund that is not rejected: the battle record is
/// gone, and so is the escrow's token account.
pub open spec fn withdrawn(ctx: WithdrawFromBattle) -> WithdrawFromBattle {
    WithdrawFromBattle {
        battle_account: None,
        battle_token_account: Escrow { account: None, ..ctx.battle_token_account },
        ..ctx
    }
}

/// Returns the stake of a battle that nobody joined to player one, who alone
/// may ask for it, and ends the battle: its record and its escrow are gone
/// afterwards. A rejected request leaves the accounts as they were.
pub fn withdraw_from_battle_ix(ctx: &mut WithdrawFromBattle, battle_id: u64) -> (r: Result<
    Refund,
    ScoogiBattleError,
>)
    ensures
        match withdraw_from_battle_rejection(*old(ctx), battle_id) {
            Some(e) => r == Err::<Refund, ScoogiBattleError>(e) && *final(ctx) == *old(ctx),
            None => r == Ok::<Refund, ScoogiBattleError>(refund_of(*old(ctx)))
                && *final(ctx) == withdrawn(*old(ctx)),
        },
        // Once the battle is joined there is no refund, and the escrow keeps
        // both stakes.
        !(old(ctx).battle_account matches Some(battle) && battle.battle_status is Pending) ==> r
            == Err::<Refund, ScoogiBattleError>(ScoogiBattleError::InvalidBattleStatus)
            && *final(ctx) == *old(ctx),
        // A refund returns all that the escrow held and destroys the battle
        // with its escrow.
        r matches Ok(refund) ==> refund.to_player_one.amount == old(ctx).battle_token_account.balance() && final(ctx).battle_account is None && final(ctx).battle_token_account.account is None,
{
    let battle = match ctx.battle_account {
        Some(battle) => battle,
        None => return Err(ScoogiBattleError::InvalidBattleStatus),
    };
    match battle.battle_status {
        BattleStatus::Pending => {},
        BattleStatus::InProgress | BattleStatus::Completed => {
            return Err(ScoogiBattleError::InvalidBattleStatus);
        },
    }
    if battle.battle_id != battle_id {
        return Err(ScoogiBattleError::InvalidBattleId);
    }
    if ctx.player_one != battle.player_one {
        return Err(ScoogiBattleError::InvalidWithdrawal);
    }
    if ctx.mint.key != ctx.admin_account.mint {
        return Err(ScoogiBattleError::InternalError);
    }
    let escrow = ctx.battle_token_account;
    let balance = match escrow.stakes(&ctx.mint.key) {
        Some(balance) => balance,
        None => return Err(ScoogiBattleError::InternalError),
    };
    if !ctx.player_one_token_account.belongs_to(&ctx.player_one, &ctx.mint.key) {
        return Err(ScoogiBattleError::InternalError);
    }
    ctx.battle_account = None;
    ctx.battle_token_account = Escrow { account: None, ..escrow };
    Ok(
        Refund {
            to_player_one: payment_order(&escrow, &ctx.mint, &ctx.player_one_token_account, balance),
            close: closing_order(&escrow, ctx.admin_account.admin),
            signer: signer_for(&battle, &escrow),
        },
    )
}

} // verus!
