//! What holds across requests: of a battle's whole course, and of a request
//! that is made a second time.

use crate::errors::ScoogiBattleError;
use crate::instructions::admin_withdraw::{
    admin_withdraw_rejection, split_of, withdrawn_by_admin,
};
use crate::instructions::create_battle::{create_battle_rejection, create_stake, created};
use crate::instructions::join_battle::{join_battle_rejection, joined};
use crate::instructions::record_battle_result::{
    accounts_fit, declared_winner, is_in_progress, record_battle_result_rejection, settled,
    settlement_of,
};
use crate::instructions::withdraw_from_battle::{
    refund_of, withdraw_from_battle_rejection, withdrawn,
};
use crate::instructions::{
    AdminWithdraw, CreateBattle, JoinQuickBattle, RecordBattleResult, WithdrawFromBattle,
};
use crate::program::settled_and_removed;
use vstd::prelude::*;

verus! {

/// A battle that is opened, joined and settled under one configuration pays
/// out two stakes exactly: the winner's payment and the fee add up to twice
/// the battle price, so no token is made or lost. On the way the escrow holds
/// one stake, then two, then nothing.
pub proof fn lemma_settlement_pays_two_stakes(
    create: CreateBattle,
    join: JoinQuickBattle,
    record: RecordBattleResult,
    battle_id: u64,
    battle_result: u8,
)
    requires
        create_battle_rejection(create) is None,
        join.admin_account == create.admin_account,
        join.battle_account == created(create, battle_id).battle_account,
        join.battle_token_account == created(create, battle_id).battle_token_account,
        join_battle_rejection(join, battle_id) is None,
        record.admin_account == create.admin_account,
        record.battle_account == joined(join).battle_account,
        record.battle_token_account == joined(join).battle_token_account,
        record_battle_result_rejection(record, battle_result, battle_id) is None,
    ensures
        created(create, battle_id).battle_token_account.balance()
            == create.admin_account.battle_price,
        joined(join).battle_token_account.balance() == create.admin_account.battle_price * 2,
        settlement_of(record).to_winner.amount + settlement_of(record).to_admin.amount
            == create.admin_account.battle_price * 2,
        settled(record).battle_token_account.balance() == 0,
{
}

/// At a fee of 10000 basis points the whole pool is the fee. The settlement
/// of a battle whose escrow holds two stakes is then still accepted, with a
/// payment of zero to the winner, as long as 10000 pools fit in 64 bits.
pub proof fn lemma_full_fee_pays_winner_nothing(
    ctx: RecordBattleResult,
    battle_result: u8,
    battle_id: u64,
)
    requires
        ctx.admin_account.burn_fee_bps == 10_000,
        10_000 * (ctx.admin_account.battle_price * 2) <= u64::MAX,
        is_in_progress(ctx.battle_account, battle_id),
        declared_winner(ctx.battle_account->0, battle_result) == Some(ctx.winner),
        accounts_fit(ctx),
        ctx.battle_token_account.balance() == ctx.admin_account.battle_price * 2,
    ensures
        record_battle_result_rejection(ctx, battle_result, battle_id) is None,
        settlement_of(ctx).to_winner.amount == 0,
        settlement_of(ctx).to_admin.amount == ctx.admin_account.battle_price * 2,
{
}

/// A battle is settled once. After a settlement, any further request to
/// record a result for that battle is rejected for the battle's status,
/// whether the completed record is still there or has been removed; so
/// nothing is paid twice.
pub proof fn lemma_no_second_settlement(
    first: RecordBattleResult,
    battle_result: u8,
    battle_id: u64,
    second: RecordBattleResult,
    second_result: u8,
    second_id: u64,
)
    requires
        record_battle_result_rejection(first, battle_result, battle_id) is None,
        second.battle_account == settled(first).battle_account
            || second.battle_account == settled_and_removed(first).battle_account,
    ensures
        record_battle_result_rejection(second, second_result, second_id) == Some(
            ScoogiBattleError::InvalidBattleStatus,
        ),
{
}

/// Nothing is paid out of a battle twice. A settlement, a refund and an
/// override each take the escrow's token account away; a refund and an
/// override take the battle record away with it, and so does a whole
/// settlement. After that no request that pays out is accepted, and the
/// battle cannot be joined.
pub proof fn lemma_nothing_is_paid_twice(
    join: JoinQuickBattle,
    record: RecordBattleResult,
    withdraw: WithdrawFromBattle,
    admin: AdminWithdraw,
    battle_id: u64,
    battle_result: u8,
)
    ensures
        settled(record).battle_token_account.account is None,
        settled_and_removed(record).battle_account is None,
        withdrawn(withdraw).battle_token_account.account is None,
        withdrawn(withdraw).battle_account is None,
        withdrawn_by_admin(admin).battle_token_account.account is None,
        withdrawn_by_admin(admin).battle_account is None,
        join.battle_account is None || join.battle_token_account.account is None
            ==> join_battle_rejection(join, battle_id) is Some,
        record.battle_account is None || record.battle_token_account.account is None
            ==> record_battle_result_rejection(record, battle_result, battle_id) is Some,
        withdraw.battle_account is None || withdraw.battle_token_account.account is None
            ==> withdraw_from_battle_rejection(withdraw, battle_id) is Some,
        admin.battle_account is None || admin.battle_token_account.account is None
            ==> admin_withdraw_rejection(admin, battle_id) is Some,
{
}

/// A battle's status never moves backwards, and a battle ends once: joining
/// takes it from pending to in progress and settling from in progress to
/// completed, while a refund and an override give it no other status but
/// destroy the record.
pub proof fn lemma_status_only_advances(
    join: JoinQuickBattle,
    record: RecordBattleResult,
    withdraw: WithdrawFromBattle,
    admin: AdminWithdraw,
    battle_id: u64,
    battle_result: u8,
)
    ensures
        join_battle_rejection(join, battle_id) is None ==> join.battle_account->0.battle_status
            is Pending && joined(join).battle_account->0.battle_status is InProgress,
        record_battle_result_rejection(record, battle_result, battle_id) is None
            ==> record.battle_account->0.battle_status is InProgress && settled(
            record,
        ).battle_account->0.battle_status is Completed,
        withdraw_from_battle_rejection(withdraw, battle_id) is None
            ==> withdraw.battle_account->0.battle_status is Pending && withdrawn(
            withdraw,
        ).battle_account is None,
        admin_withdraw_rejection(admin, battle_id) is None ==> admin.battle_account is Some
            && withdrawn_by_admin(admin).battle_account is None,
{
}

/// A settlement pays into a token account of the declared winner and into
/// one of the admin, both out of the escrow.
pub proof fn lemma_settlement_pays_winner_and_admin(
    ctx: RecordBattleResult,
    battle_result: u8,
    battle_id: u64,
)
    requires
        record_battle_result_rejection(ctx, battle_result, battle_id) is None,
    ensures
        settlement_of(ctx).to_winner.from == ctx.battle_token_account.key,
        settlement_of(ctx).to_winner.to == ctx.winner_token_account.key,
        Some(ctx.winner_token_account.owner) == declared_winner(
            ctx.battle_account->0,
            battle_result,
        ),
        settlement_of(ctx).to_admin.from == ctx.battle_token_account.key,
        settlement_of(ctx).to_admin.to == ctx.admin_token_account.key,
        ctx.admin_token_account.owner == ctx.admin_account.admin,
{
}

/// A refund undoes a creation. Where player one opens a battle and takes the
/// stake back into the token account it was paid from, with nothing in
/// between, the battle record and the escrow are as they were before the
/// battle was opened, and what comes back is what was staked.
pub proof fn lemma_refund_undoes_creation(
    create: CreateBattle,
    withdraw: WithdrawFromBattle,
    battle_id: u64,
)
    requires
        create_battle_rejection(create) is None,
        withdraw.admin_account == create.admin_account,
        withdraw.battle_account == created(create, battle_id).battle_account,
        withdraw.battle_token_account == created(create, battle_id).battle_token_account,
        withdraw.player_one_token_account == create.player_one_token_account,
        withdraw_from_battle_rejection(withdraw, battle_id) is None,
    ensures
        withdrawn(withdraw).battle_account == create.battle_account,
        withdrawn(withdraw).battle_token_account == create.battle_token_account,
        refund_of(withdraw).to_player_one.amount == create_stake(create).amount,
        refund_of(withdraw).to_player_one.to == create_stake(create).from,
        refund_of(withdraw).to_player_one.from == create_stake(create).to,
{
}

/// A refund returns all that the escrow holds, into a token account of
/// player one.
pub proof fn lemma_refund_returns_the_escrow(ctx: WithdrawFromBattle, battle_id: u64)
    requires
        withdraw_from_battle_rejection(ctx, battle_id) is None,
    ensures
        refund_of(ctx).to_player_one.amount == ctx.battle_token_account.balance(),
        refund_of(ctx).to_player_one.to == ctx.player_one_token_account.key,
        ctx.player_one_token_account.owner == ctx.battle_account->0.player_one,
{
}

/// The admin's override pays the same amount into a token account of each of
/// the two players that the record names. Together they get all of an even
/// balance, and all but one unit of an odd one.
pub proof fn lemma_split_is_even(ctx: AdminWithdraw, battle_id: u64)
    requires
        admin_withdraw_rejection(ctx, battle_id) is None,
    ensures
        split_of(ctx).to_player_one.amount == split_of(ctx).to_player_two.amount,
        split_of(ctx).to_player_one.amount + split_of(ctx).to_player_two.amount
            == ctx.battle_token_account.balance() - ctx.battle_token_account.balance() % 2,
        ctx.player_one_token_account.owner == ctx.battle_account->0.player_one,
        ctx.player_two_token_account.owner == ctx.battle_account->0.player_two,
{
}

} // verus!
