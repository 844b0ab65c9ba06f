use crate::errors::ScoogiBattleError;
use crate::pubkey::Pubkey;
use crate::state::{Admin, Battle, BattleStatus, Escrow, FundingAccount, Mint, TokenAccount};
use crate::transfer::{deposit, deposit_order, TransferChecked};
use vstd::prelude::*;

verus! {

/// The accounts of a request to join a battle as its second player.
#[derive(Clone, Copy, Debug, PartialEq, Eq)]
pub struct JoinQuickBattle {
    pub program_id: Pubkey,
    /// The caller.
    pub player_two: Pubkey,
    pub admin_account: Admin,
    /// The battle record, while there is one.
    pub battle_account: Option<Battle>,
    /// The caller's token account, which the stake is paid from.
    pub player_two_token_account: FundingAccount,
    pub battle_token_account: Escrow,
    pub mint: Mint,
}

/// Whether the second stake can be taken: the mint is the configured one,
/// the escrow holds its tokens, the token account to pay from is the
/// caller's, and the escrow's balance with the stake fits in 64 bits.
pub open spec fn can_stake(ctx: JoinQuickBattle) -> bool {
    &&& ctx.mint.key == ctx.admin_account.mint
    &&& ctx.battle_token_account.holds(ctx.mint.key)
    &&& ctx.player_two_token_account.is_of(ctx.player_two, ctx.mint.key)
    &&& ctx.battle_token_account.balance() + ctx.admin_account.battle_price <= u64::MAX
}

/// Why the request is rejected, if it is. The checks are made in this order.
pub open spec fn join_battle_rejection(ctx: JoinQuickBattle, battle_id: u64) -> Option<
    ScoogiBattleError,
> {
    match ctx.battle_account {
        None => Some(ScoogiBattleError::InvalidBattleStatus),
        Some(battle) => {
            if !(battle.battle_status is Pending) {
                Some(ScoogiBattleError::InvalidBattleStatus)
            } else if battle.battle_id != battle_id {
                Some(ScoogiBattleError::InvalidBattleId)
            } else if !can_stake(ctx) {
                Some(ScoogiBattleError::InternalError)
            } else {
                None
            }
        },
    }
}

/// The order of a join that is not rejected: player two's stake.
pub open spec fn join_stake(ctx: JoinQuickBattle) -> TransferChecked {
    deposit(
        ctx.battle_token_account,
        ctx.mint,
        ctx.player_two_token_account,
        ctx.admin_account.battle_price,
    )
}

/// The accounts after a join that is not rejected: the caller is player two,
/// the battle is in progress, and the escrow holds one stake more.
pub open spec fn joined(ctx: JoinQuickBattle) -> JoinQuickBattle {
    let escrow = ctx.battle_token_account;
    JoinQuickBattle {
        battle_account: Some(
            Battle {
                player_two: ctx.player_two,
                battle_status: BattleStatus::InProgress,
                ..ctx.battle_account->0
            },
        ),
        battle_token_account: Escrow {
            account: Some(
                TokenAccount {
                    amount: (escrow.balance() + ctx.admin_account.battle_price) as u64,
                    ..escrow.account->0
                },
            ),
            ..escrow
        },
        ..ctx
    }
}

/// Joins a pending battle: the caller becomes player two and stakes the
/// battle price. A rejected request leaves the accounts as they were.
pub fn join_battle_ix(ctx: &mut JoinQuickBattle, battle_id: u64) -> (r: Result<
    TransferChecked,
    ScoogiBattleError,
>)
    ensures
        match join_battle_rejection(*old(ctx), battle_id) {
            Some(e) => r == Err::<TransferChecked, ScoogiBattleError>(e)
                && *final(ctx) == *old(ctx),
            None => r == Ok::<TransferChecked, ScoogiBattleError>(join_stake(*old(ctx)))
                && *final(ctx) == joined(*old(ctx)),
        },
        // Only a pending battle can be joined.
        !(old(ctx).battle_account matches Some(battle) && battle.battle_status is Pending) ==> r
            == Err::<TransferChecked, ScoogiBattleError>(ScoogiBattleError::InvalidBattleStatus)
            && *final(ctx) == *old(ctx),
{
    let battle = match ctx.battle_account {
        Some(battle) => battle,
        None => return Err(ScoogiBattleError::InvalidBattleStatus),
    };
    match battle.battle_status {
        BattleStatus::Pending => {},
        BattleStatus::InProgress | BattleStatus::Completed => {
            return Err(ScoogiBattleError::InvalidBattleStatus);
        },
    }
    if battle.battle_id != battle_id {
        return Err(ScoogiBattleError::InvalidBattleId);
    }
    if ctx.mint.key != ctx.admin_account.mint {
        return Err(ScoogiBattleError::InternalError);
    }
    let escrow = ctx.battle_token_account;
    let balance = match escrow.stakes(&ctx.mint.key) {
        Some(balance) => balance,
        None => return Err(ScoogiBattleError::InternalError),
    };
    if !ctx.player_two_token_account.belongs_to(&ctx.player_two, &ctx.mint.key) {
        return Err(ScoogiBattleError::InternalError);
    }
    let price = ctx.admin_account.battle_price;
    let amount = match balance.checked_add(price) {
        Some(amount) => amount,
        None => return Err(ScoogiBattleError::InternalError),
    };
    let order = deposit_order(&escrow, &ctx.mint, &ctx.player_two_token_account, price);
    ctx.battle_account = Some(
        Battle { player_two: ctx.player_two, battle_status: BattleStatus::InProgress, ..battle },
    );
    ctx.battle_token_account = Escrow {
        account: Some(TokenAccount { amount, mint: ctx.mint.key, owner: escrow.key }),
        ..escrow
    };
    Ok(order)
}

} // verus!
