use crate::errors::ScoogiBattleError;
use crate::pubkey::Pubkey;
use crate::state::{Admin, Battle, BattleStatus, Escrow, FundingAccount, Mint, TokenAccount};
use crate::transfer::{deposit, deposit_order, TransferChecked};
use vstd::prelude::*;

verus! {

/// The accounts of a request to open a battle.
#[derive(Clone, Copy, Debug, PartialEq, Eq)]
pub struct CreateBattle {
    pub program_id: Pubkey,
    /// The caller.
    pub player_one: Pubkey,
    pub admin_account: Admin,
    /// Where the battle record is to stand; `None` while nothing is there.
    pub battle_account: Option<Battle>,
    /// The caller's token account, which the stake is paid from.
    pub player_one_token_account: FundingAccount,
    /// Where the escrow is to stand.
    pub battle_token_account: Escrow,
    pub mint: Mint,
}

/// Whether a battle can be opened: neither a battle nor an escrow is there
/// yet, the mint is the configured one, and the token account to pay from is
/// the caller's.
pub open spec fn can_open(ctx: CreateBattle) -> bool {
    &&& ctx.battle_account is None
    &&& ctx.battle_token_account.account is None
    &&& ctx.mint.key == ctx.admin_account.mint
    &&& ctx.player_one_token_account.is_of(ctx.player_one, ctx.mint.key)
}

/// Why the request is rejected, if it is.
pub open spec fn create_battle_rejection(ctx: CreateBattle) -> Option<ScoogiBattleError> {
    if !can_open(ctx) {
        Some(ScoogiBattleError::InternalError)
    } else {
        None
    }
}

/// The order of a creation that is not rejected: player one's stake.
pub open spec fn create_stake(ctx: CreateBattle) -> TransferChecked {
    deposit(
        ctx.battle_token_account,
        ctx.mint,
        ctx.player_one_token_account,
        ctx.admin_account.battle_price,
    )
}

/// The accounts after a creation that is not rejected: a pending battle of
/// the caller with no second player and no winner, and an escrow that holds
/// one stake and is its own authority.
pub open spec fn created(ctx: CreateBattle, battle_id: u64) -> CreateBattle {
    CreateBattle {
        battle_account: Some(
            Battle {
                battle_id,
                player_one: ctx.player_one,
                player_two: Pubkey::spec_default(),
                winner: Pubkey::spec_default(),
                battle_status: BattleStatus::Pending,
            },
        ),
        battle_token_account: Escrow {
            account: Some(
                TokenAccount {
                    mint: ctx.mint.key,
                    owner: ctx.battle_token_account.key,
                    amount: ctx.admin_account.battle_price,
                },
            ),
            ..ctx.battle_token_account
        },
        ..ctx
    }
}

/// Opens a battle: the caller becomes player one and stakes the battle price
/// into a new escrow. A rejected request leaves the accounts as they were.
pub fn create_battle_ix(ctx: &mut CreateBattle, battle_id: u64) -> (r: Result<
    TransferChecked,
    ScoogiBattleError,
>)
    ensures
        match create_battle_rejection(*old(ctx)) {
            Some(e) => r == Err::<TransferChecked, ScoogiBattleError>(e)
                && *final(ctx) == *old(ctx),
            None => r == Ok::<TransferChecked, ScoogiBattleError>(create_stake(*old(ctx)))
                && *final(ctx) == created(*old(ctx), battle_id),
        },
{
    if ctx.battle_account.is_some() || ctx.battle_token_account.account.is_some() {
        return Err(ScoogiBattleError::InternalError);
    }
    if ctx.mint.key != ctx.admin_account.mint
        || !ctx.player_one_token_account.belongs_to(&ctx.player_one, &ctx.mint.key) {
        return Err(ScoogiBattleError::InternalError);
    }
    let escrow = ctx.battle_token_account;
    let price = ctx.admin_account.battle_price;
    let order = deposit_order(&escrow, &ctx.mint, &ctx.player_one_token_account, price);
    ctx.battle_account = Some(
        Battle {
            battle_id,
            player_one: ctx.player_one,
            player_two: Pubkey::default(),
            winner: Pubkey::default(),
            battle_status: BattleStatus::Pending,
        },
    );
    ctx.battle_token_account = Escrow {
        account: Some(TokenAccount { mint: ctx.mint.key, owner: escrow.key, amount: price }),
        ..escrow
    };
    Ok(order)
}

} // verus!
