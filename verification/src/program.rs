//! Whole requests. A whole request is what its handler does, together with
//! what stands around the handler: for a battle, that the escrow stands at
//! the address which the ledger derives for that battle, and, after a
//! settlement, that the completed battle record is removed.

use crate::address::{is_escrow_address, is_escrow_of};
use crate::errors::ScoogiBattleError;
use crate::instructions::admin_withdraw::{admin_withdraw_rejection, split_of, withdrawn_by_admin};
use crate::instructions::create_battle::{create_battle_rejection, create_stake, created};
use crate::instructions::initialize::{initialize_rejection, initialized};
use crate::instructions::join_battle::{join_battle_rejection, join_stake, joined};
use crate::instructions::record_battle_result::{
    declared_winner, is_in_progress, record_battle_result_rejection, settled, settlement_of,
};
use crate::instructions::update_battle_price::{update_battle_price_rejection, with_battle_price};
use crate::instructions::withdraw_from_battle::{
    refund_of, withdraw_from_battle_rejection, withdrawn,
};
use crate::instructions::{
    admin_withdraw_ix, create_battle_ix, initialize_ix, join_battle_ix, record_battle_result_ix,
    update_battle_price_ix, update_burn_fee_bps_ix, update_mint_ix, withdraw_from_battle_ix,
    AdminWithdraw, CreateBattle, Initialize, JoinQuickBattle, RecordBattleResult, Refund,
    Settlement, Split, UpdateBattlePrice, UpdateBurnFeeBps, UpdateMint, WithdrawFromBattle,
};
use crate::pubkey::Pubkey;
use crate::state::{Admin, Battle, Escrow};
use crate::transfer::TransferChecked;
use vstd::pervasive::unreached;
use vstd::prelude::*;

verus! {

/// Whether `escrow` stands where the ledger derives the escrow of `battle`
/// under `program_id`, with the bump seed of that address.
pub open spec fn escrow_bound(program_id: Pubkey, battle: Battle, escrow: Escrow) -> bool {
    is_escrow_address(program_id, battle.player_one, battle.battle_id, escrow.key, escrow.bump)
}

/// The accounts after a whole settlement: settled, and the completed battle
/// record removed.
pub open spec fn settled_and_removed(ctx: RecordBattleResult) -> RecordBattleResult {
    RecordBattleResult { battle_account: None, ..settled(ctx) }
}

/// Sets the configuration up. Nothing stands around the handler: see
/// [`initialize_ix`].
pub fn initialize(ctx: &mut Initialize, burn_fee_bps: u64, battle_price: u64) -> (r: Result<
    (),
    ScoogiBattleError,
>)
    ensures
        match initialize_rejection(*old(ctx), battle_price) {
            Some(e) => r == Err::<(), ScoogiBattleError>(e) && *final(ctx) == *old(ctx),
            None => r == Ok::<(), ScoogiBattleError>(())
                && *final(ctx) == initialized(*old(ctx), burn_fee_bps, battle_price),
        },
{
    initialize_ix(ctx, burn_fee_bps, battle_price)
}

/// Changes the fee. Nothing stands around the handler: see
/// [`update_burn_fee_bps_ix`].
pub fn update_burn_fee_bps(ctx: &mut UpdateBurnFeeBps, burn_fee_bps: u64) -> (r: Result<
    (),
    ScoogiBattleError,
>)
    ensures
        old(ctx).admin != old(ctx).admin_account.admin ==> r == Err::<(), ScoogiBattleError>(
            ScoogiBattleError::Unauthorized,
        ) && *final(ctx) == *old(ctx),
        old(ctx).admin == old(ctx).admin_account.admin ==> r == Ok::<(), ScoogiBattleError>(())
            && *final(ctx) == (UpdateBurnFeeBps {
            admin_account: Admin { burn_fee_bps, ..old(ctx).admin_account },
            ..*old(ctx)
        }),
{
    update_burn_fee_bps_ix(ctx, burn_fee_bps)
}

/// Changes the stake. Nothing stands around the handler: see
/// [`update_battle_price_ix`].
pub fn update_battle_price(ctx: &mut UpdateBattlePrice, battle_price: u64) -> (r: Result<
    (),
    ScoogiBattleError,
>)
    ensures
        match update_battle_price_rejection(*old(ctx), battle_price) {
            Some(e) => r == Err::<(), ScoogiBattleError>(e) && *final(ctx) == *old(ctx),
            None => r == Ok::<(), ScoogiBattleError>(())
                && *final(ctx) == with_battle_price(*old(ctx), battle_price),
        },
{
    update_battle_price_ix(ctx, battle_price)
}

/// Changes the stake currency. Nothing stands around the handler: see
/// [`update_mint_ix`].
pub fn update_mint(ctx: &mut UpdateMint) -> (r: Result<(), ScoogiBattleError>)
    ensures
        old(ctx).admin != old(ctx).admin_account.admin ==> r == Err::<(), ScoogiBattleError>(
            ScoogiBattleError::Unauthorized,
        ) && *final(ctx) == *old(ctx),
        old(ctx).admin == old(ctx).admin_account.admin ==> r == Ok::<(), ScoogiBattleError>(())
            && *final(ctx) == (UpdateMint {
            admin_account: Admin { mint: old(ctx).mint.key, ..old(ctx).admin_account },
            ..*old(ctx)
        }),
{
    update_mint_ix(ctx)
}

/// The admin's override as a whole request: what [`admin_withdraw_ix`] does,
/// provided the escrow stands at the address derived for the battle. An
/// escrow that stands elsewhere is an internal error, and any rejection
/// leaves the accounts as they were.
pub fn admin_withdrawal(ctx: &mut AdminWithdraw, battle_id: u64) -> (r: Result<
    Split,
    ScoogiBattleError,
>)
    ensures
        match admin_withdraw_rejection(*old(ctx), battle_id) {
            Some(e) => r == Err::<Split, ScoogiBattleError>(e) && *final(ctx) == *old(ctx),
            None => if escrow_bound(
                old(ctx).program_id,
                old(ctx).battle_account->0,
                old(ctx).battle_token_account,
            ) {
                r == Ok::<Split, ScoogiBattleError>(split_of(*old(ctx)))
                    && *final(ctx) == withdrawn_by_admin(*old(ctx))
            } else {
                r == Err::<Split, ScoogiBattleError>(ScoogiBattleError::InternalError)
                    && *final(ctx) == *old(ctx)
            },
        },
{
    let before = *ctx;
    let split = match admin_withdraw_ix(ctx, battle_id) {
        Ok(split) => split,
        Err(e) => return Err(e),
    };
    let escrow = before.battle_token_account;
    if !is_escrow_of(&before.program_id, &split.signer.player_one, battle_id, &escrow) {
        *ctx = before;
        return Err(ScoogiBattleError::InternalError);
    }
    Ok(split)
}

/// Opening a battle as a whole request: what [`create_battle_ix`] does,
/// provided the escrow is to stand at the address derived for the new battle.
/// An escrow that is to stand elsewhere is an internal error, and any
/// rejection leaves the accounts as they were.
pub fn create_battle(ctx: &mut CreateBattle, battle_id: u64) -> (r: Result<
    TransferChecked,
    ScoogiBattleError,
>)
    ensures
        match create_battle_rejection(*old(ctx)) {
            Some(e) => r == Err::<TransferChecked, ScoogiBattleError>(e)
                && *final(ctx) == *old(ctx),
            None => if is_escrow_address(
                old(ctx).program_id,
                old(ctx).player_one,
                battle_id,
                old(ctx).battle_token_account.key,
                old(ctx).battle_token_account.bump,
            ) {
                r == Ok::<TransferChecked, ScoogiBattleError>(create_stake(*old(ctx)))
                    && *final(ctx) == created(*old(ctx), battle_id)
            } else {
                r == Err::<TransferChecked, ScoogiBattleError>(ScoogiBattleError::InternalError)
                    && *final(ctx) == *old(ctx)
            },
        },
{
    let before = *ctx;
    let stake = match create_battle_ix(ctx, battle_id) {
        Ok(stake) => stake,
        Err(e) => return Err(e),
    };
    let escrow = before.battle_token_account;
    if !is_escrow_of(&before.program_id, &before.player_one, battle_id, &escrow) {
        *ctx = before;
        return Err(ScoogiBattleError::InternalError);
    }
    Ok(stake)
}

/// Joining a battle as a whole request: what [`join_battle_ix`] does,
/// provided the escrow stands at the address derived for the battle. An
/// escrow that stands elsewhere is an internal error, and any rejection
/// leaves the accounts as they were.
pub fn join_battle(ctx: &mut JoinQuickBattle, battle_id: u64) -> (r: Result<
    TransferChecked,
    ScoogiBattleError,
>)
    ensures
        match join_battle_rejection(*old(ctx), battle_id) {
            Some(e) => r == Err::<TransferChecked, ScoogiBattleError>(e)
                && *final(ctx) == *old(ctx),
            None => if escrow_bound(
                old(ctx).program_id,
                old(ctx).battle_account->0,
                old(ctx).battle_token_account,
            ) {
                r == Ok::<TransferChecked, ScoogiBattleError>(join_stake(*old(ctx)))
                    && *final(ctx) == joined(*old(ctx))
            } else {
                r == Err::<TransferChecked, ScoogiBattleError>(ScoogiBattleError::InternalError)
                    && *final(ctx) == *old(ctx)
            },
        },
        // Only a pending battle can be joined.
        !(old(ctx).battle_account matches Some(battle) && battle.battle_status is Pending) ==> r
            == Err::<TransferChecked, ScoogiBattleError>(ScoogiBattleError::InvalidBattleStatus)
            && *final(ctx) == *old(ctx),
{
    let before = *ctx;
    let stake = match join_battle_ix(ctx, battle_id) {
        Ok(stake) => stake,
        Err(e) => return Err(e),
    };
    let player_one = match before.battle_account {
        Some(battle) => battle.player_one,
        None => unreached(),
    };
    let escrow = before.battle_token_account;
    if !is_escrow_of(&before.program_id, &player_one, battle_id, &escrow) {
        *ctx = before;
        return Err(ScoogiBattleError::InternalError);
    }
    Ok(stake)
}

/// Settling a battle as a whole request: what [`record_battle_result_ix`]
/// does, provided the escrow stands at the address derived for the battle;
/// then the completed battle record is removed. An escrow that stands elsewhere is an
/// internal error, and any rejection leaves the accounts as they were.
pub fn record_battle_result(ctx: &mut RecordBattleResult, battle_result: u8, battle_id: u64) -> (r:
    Result<Settlement, ScoogiBattleError>)
    ensures
        match record_battle_result_rejection(*old(ctx), battle_result, battle_id) {
            Some(e) => r == Err::<Settlement, ScoogiBattleError>(e) && *final(ctx) == *old(ctx),
            None => if escrow_bound(
                old(ctx).program_id,
                old(ctx).battle_account->0,
                old(ctx).battle_token_account,
            ) {
                r == Ok::<Settlement, ScoogiBattleError>(settlement_of(*old(ctx)))
                    && *final(ctx) == settled_and_removed(*old(ctx))
            } else {
                r == Err::<Settlement, ScoogiBattleError>(ScoogiBattleError::InternalError)
                    && *final(ctx) == *old(ctx)
            },
        },
        // A result code other than 0 and 1 is rejected, and the battle stays
        // in progress.
        is_in_progress(old(ctx).battle_account, battle_id) && battle_result > 1 ==> r == Err::<
            Settlement,
            ScoogiBattleError,
        >(ScoogiBattleError::InvalidBattleResult) && *final(ctx) == *old(ctx),
        // Nobody but the declared winner can report, and no funds move.
        is_in_progress(old(ctx).battle_account, battle_id) && battle_result <= 1
            && declared_winner(old(ctx).battle_account->0, battle_result) != Some(old(ctx).winner)
            ==> r == Err::<Settlement, ScoogiBattleError>(ScoogiBattleError::Unauthorized)
            && *final(ctx) == *old(ctx),
        // The fee is the configured basis points of two stakes, rounded down,
        // and fee and payment together are what the escrow held.
        r matches Ok(settlement) ==> settlement.to_admin.amount
            == old(ctx).admin_account.burn_fee_bps * old(ctx).admin_account.battle_price * 2
            / 10_000 && settlement.to_winner.amount + settlement.to_admin.amount
            == old(ctx).battle_token_account.balance(),
{
    let before = *ctx;
    let settlement = match record_battle_result_ix(ctx, battle_result, battle_id) {
        Ok(settlement) => settlement,
        Err(e) => return Err(e),
    };
    let escrow = before.battle_token_account;
    if !is_escrow_of(&before.program_id, &settlement.signer.player_one, battle_id, &escrow) {
        *ctx = before;
        return Err(ScoogiBattleError::InternalError);
    }
    ctx.battle_account = None;
    Ok(settlement)
}

/// A refund as a whole request: what [`withdraw_from_battle_ix`] does,
/// provided the escrow stands at the address derived for the battle. An
/// escrow that stands elsewhere is an internal error, and any rejection
/// leaves the accounts as they were.
pub fn withdraw_from_battle(ctx: &mut WithdrawFromBattle, battle_id: u64) -> (r: Result<
    Refund,
    ScoogiBattleError,
>)
    ensures
        match withdraw_from_battle_rejection(*old(ctx), battle_id) {
            Some(e) => r == Err::<Refund, ScoogiBattleError>(e) && *final(ctx) == *old(ctx),
            None => if escrow_bound(
                old(ctx).program_id,
                old(ctx).battle_account->0,
                old(ctx).battle_token_account,
            ) {
                r == Ok::<Refund, ScoogiBattleError>(refund_of(*old(ctx)))
                    && *final(ctx) == withdrawn(*old(ctx))
            } else {
                r == Err::<Refund, ScoogiBattleError>(ScoogiBattleError::InternalError)
                    && *final(ctx) == *old(ctx)
            },
        },
        // Once the battle is joined there is no refund, and the escrow keeps
        // both stakes.
        !(old(ctx).battle_account matches Some(battle) && battle.battle_status is Pending) ==> r
            == Err::<Refund, ScoogiBattleError>(ScoogiBattleError::InvalidBattleStatus)
            && *final(ctx) == *old(ctx),
{
    let before = *ctx;
    let refund = match withdraw_from_battle_ix(ctx, battle_id) {
        Ok(refund) => refund,
        Err(e) => return Err(e),
    };
    let escrow = before.battle_token_account;
    if !is_escrow_of(&before.program_id, &refund.signer.player_one, battle_id, &escrow) {
        *ctx = before;
        return Err(ScoogiBattleError::InternalError);
    }
    Ok(refund)
}

} // verus!
