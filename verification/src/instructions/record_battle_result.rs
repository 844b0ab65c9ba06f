use crate::errors::ScoogiBattleError;
use crate::pubkey::Pubkey;
use crate::state::{Admin, Battle, BattleStatus, Escrow, FundingAccount, Mint};
use crate::transfer::{
    closing, closing_order, payment, payment_order, signer_for, signer_of, CloseAccount,
    EscrowSigner, TransferChecked,
};
use vstd::prelude::*;

verus! {

/// The accounts of a request to record a battle's result.
#[derive(Clone, Copy, Debug, PartialEq, Eq)]
pub struct RecordBattleResult {
    pub program_id: Pubkey,
    /// The caller, who reports the result.
    pub winner: Pubkey,
    pub admin_account: Admin,
    /// The admin's token account, which collects the fee.
    pub admin_token_account: FundingAccount,
    /// The battle record, while there is one.
    pub battle_account: Option<Battle>,
    pub battle_token_account: Escrow,
    /// The caller's token account, which the winner is paid into.
    pub winner_token_account: FundingAccount,
    pub mint: Mint,
}

/// What settling a battle orders: the winner's payment, the fee, and the
/// closing of the emptied escrow, all signed by the escrow.
#[derive(Clone, Copy, Debug, PartialEq, Eq)]
pub struct Settlement {
    pub to_winner: TransferChecked,
    pub to_admin: TransferChecked,
    pub close: CloseAccount,
    pub signer: EscrowSigner,
}

/// The fee on a pool of two stakes, rounded down.
pub open spec fn fee_amount(burn_fee_bps: u64, battle_price: u64) -> int {
    burn_fee_bps * (battle_price * 2) / 10_000
}

/// The fee is the same whether the stake is doubled first or the product.
pub proof fn lemma_fee_of_product(burn_fee_bps: u64, battle_price: u64)
    ensures
        fee_amount(burn_fee_bps, battle_price) == burn_fee_bps * battle_price * 2 / 10_000,
{
    assert(burn_fee_bps * (battle_price * 2) == burn_fee_bps * battle_price * 2)
        by (nonlinear_arith);
}

/// Whom a result code declares the winner: 0 player one, 1 player two.
pub open spec fn declared_winner(battle: Battle, battle_result: u8) -> Option<Pubkey> {
    if battle_result == 0 {
        Some(battle.player_one)
    } else if battle_result == 1 {
        Some(battle.player_two)
    } else {
        None
    }
}

/// Whether a battle record is there, in progress, under the id `battle_id`.
pub open spec fn is_in_progress(battle_account: Option<Battle>, battle_id: u64) -> bool {
    match battle_account {
        Some(battle) => battle.battle_status is InProgress && battle.battle_id == battle_id,
        None => false,
    }
}

/// Whether the accounts are those of a settlement: the mint is the
/// configured one, the escrow holds its tokens, and the two token accounts to
/// pay into are the caller's and the admin's.
pub open spec fn accounts_fit(ctx: RecordBattleResult) -> bool {
    &&& ctx.mint.key == ctx.admin_account.mint
    &&& ctx.battle_token_account.holds(ctx.mint.key)
    &&& ctx.winner_token_account.is_of(ctx.winner, ctx.mint.key)
    &&& ctx.admin_token_account.is_of(ctx.admin_account.admin, ctx.mint.key)
}

/// Whether the pool can be paid out: the accounts fit, the fee is computed
/// without overflow in 64 bits and is no more than the escrow holds.
pub open spec fn can_pay_out(ctx: RecordBattleResult) -> bool {
    &&& accounts_fit(ctx)
    &&& ctx.admin_account.battle_price * 2 <= u64::MAX
    &&& ctx.admin_account.burn_fee_bps * (ctx.admin_account.battle_price * 2) <= u64::MAX
    &&& fee_amount(ctx.admin_account.burn_fee_bps, ctx.admin_account.battle_price)
        <= ctx.battle_token_account.balance()
}

/// Why the request is rejected, if it is. The checks are made in this order.
pub open spec fn record_battle_result_rejection(
    ctx: RecordBattleResult,
    battle_result: u8,
    battle_id: u64,
) -> Option<ScoogiBattleError> {
    match ctx.battle_account {
        None => Some(ScoogiBattleError::InvalidBattleStatus),
        Some(battle) => {
            if !(battle.battle_status is InProgress) {
                Some(ScoogiBattleError::InvalidBattleStatus)
            } else if battle.battle_id != battle_id {
                Some(ScoogiBattleError::InvalidBattleId)
            } else if declared_winner(battle, battle_result) is None {
                Some(ScoogiBattleError::InvalidBattleResult)
            } else if declared_winner(battle, battle_result) != Some(ctx.winner) {
                Some(ScoogiBattleError::Unauthorized)
            } else if !can_pay_out(ctx) {
                Some(ScoogiBattleError::InternalError)
            } else {
                None
            }
        },
    }
}

/// The orders of a settlement that is not rejected.
pub open spec fn settlement_of(ctx: RecordBattleResult) -> Settlement {
    let escrow = ctx.battle_token_account;
    let fee = fee_amount(ctx.admin_account.burn_fee_bps, ctx.admin_account.battle_price);
    Settlement {
        to_winner: payment(
            escrow,
            ctx.mint,
            ctx.winner_token_account,
            (escrow.balance() - fee) as u64,
        ),
        to_admin: payment(escrow, ctx.mint, ctx.admin_token_account, fee as u64),
        close: closing(escrow, ctx.admin_account.admin),
        signer: signer_of(ctx.battle_account->0, escrow),
    }
}

/// The accounts after a settlement that is not rejected: the battle is
/// completed with the caller as winner, and the escrow's token account is gone.
pub open spec fn settled(ctx: RecordBattleResult) -> RecordBattleResult {
    RecordBattleResult {
        battle_account: Some(
            Battle {
                battle_status: BattleStatus::Completed,
                winner: ctx.winner,
                ..ctx.battle_account->0
            },
        ),
        battle_token_account: Escrow { account: None, ..ctx.battle_token_account },
        ..ctx
    }
}

/// Records the result of a battle in progress and pays the pool out.
///
/// `battle_result` 0 declares player one the winner, 1 player two, and only
/// the declared winner may report. The fee is `burn_fee_bps` basis points of
/// two stakes, rounded down; the winner gets the rest of what the escrow
/// holds. A rejected request leaves the accounts as they were.
pub fn record_battle_result_ix(ctx: &mut RecordBattleResult, battle_result: u8, battle_id: u64) -> (r:
    Result<Settlement, ScoogiBattleError>)
    ensures
        match record_battle_result_rejection(*old(ctx), battle_result, battle_id) {
            Some(e) => r == Err::<Settlement, ScoogiBattleError>(e) && *final(ctx) == *old(ctx),
            None => r == Ok::<Settlement, ScoogiBattleError>(settlement_of(*old(ctx)))
                && *final(ctx) == settled(*old(ctx)),
        },
        // A result code other than 0 and 1 is rejected, and the battle stays
        // in progress.
        is_in_progress(old(ctx).battle_account, battle_id) && battle_result > 1 ==> r == Err::<
            Settlement,
            ScoogiBattleError,
        >(ScoogiBattleError::InvalidBattleResult) && *final(ctx) == *old(ctx),
        // Nobody but the declared winner can report, and no funds move.
        is_in_progress(old(ctx).battle_account, battle_id) && battle_result <= 1
            && declared_winner(old(ctx).battle_account->0, battle_result) != Some(old(ctx).winner)
            ==> r == Err::<Settlement, ScoogiBattleError>(ScoogiBattleError::Unauthorized)
            && *final(ctx) == *old(ctx),
        // The fee is the configured basis points of two stakes, rounded down,
        // and fee and payment together are what the escrow held.
        r matches Ok(settlement) ==> settlement.to_admin.amount == old(ctx).admin_account.burn_fee_bps
            * old(ctx).admin_account.battle_price * 2 / 10_000 && settlement.to_winner.amount
            + settlement.to_admin.amount == old(ctx).battle_token_account.balance(),
{
    proof {
        lemma_fee_of_product(ctx.admin_account.burn_fee_bps, ctx.admin_account.battle_price);
    }
    let battle = match ctx.battle_account {
        Some(battle) => battle,
        None => return Err(ScoogiBattleError::InvalidBattleStatus),
    };
    match battle.battle_status {
        BattleStatus::InProgress => {},
        BattleStatus::Pending | BattleStatus::Completed => {
            return Err(ScoogiBattleError::InvalidBattleStatus);
        },
    }
    if battle.battle_id != battle_id {
        return Err(ScoogiBattleError::InvalidBattleId);
    }
    let winner = match battle_result {
        0 => battle.player_one,
        1 => battle.player_two,
        _ => return Err(ScoogiBattleError::InvalidBattleResult),
    };
    if ctx.winner != winner {
        return Err(ScoogiBattleError::Unauthorized);
    }
    if ctx.mint.key != ctx.admin_account.mint {
        return Err(ScoogiBattleError::InternalError);
    }
    let escrow = ctx.battle_token_account;
    let balance = match escrow.stakes(&ctx.mint.key) {
        Some(balance) => balance,
        None => return Err(ScoogiBattleError::InternalError),
    };
    if !ctx.winner_token_account.belongs_to(&ctx.winner, &ctx.mint.key)
        || !ctx.admin_token_account.belongs_to(&ctx.admin_account.admin, &ctx.mint.key) {
        return Err(ScoogiBattleError::InternalError);
    }
    let pool = match ctx.admin_account.battle_price.checked_mul(2) {
        Some(pool) => pool,
        None => return Err(ScoogiBattleError::InternalError),
    };
    let burn_amount = match ctx.admin_account.burn_fee_bps.checked_mul(pool) {
        Some(product) => product / 10_000,
        None => return Err(ScoogiBattleError::InternalError),
    };
    let winner_amount = match balance.checked_sub(burn_amount) {
        Some(rest) => rest,
        None => return Err(ScoogiBattleError::InternalError),
    };
    ctx.battle_account = Some(
        Battle { battle_status: BattleStatus::Completed, winner, ..battle },
    );
    ctx.battle_token_account = Escrow { account: None, ..escrow };
    Ok(
        Settlement {
            to_winner: payment_order(&escrow, &ctx.mint, &ctx.winner_token_account, winner_amount),
            to_admin: payment_order(&escrow, &ctx.mint, &ctx.admin_token_account, burn_amount),
            close: closing_order(&escrow, ctx.admin_account.admin),
            signer: signer_for(&battle, &escrow),
        },
    )
}

} // verus!
