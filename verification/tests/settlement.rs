use scoogi_battle::{
    record_battle_result, record_battle_result_ix, Admin, Battle, BattleStatus, CloseAccount,
    Escrow, EscrowSigner, FundingAccount, Mint, Pubkey, RecordBattleResult, ScoogiBattleError,
    TokenAccount, TransferChecked,
};

fn settle_key(n: u8) -> Pubkey {
    Pubkey::new_from_array([n; 32])
}

/// The token account at key `key` that holds tokens of mint 9 for `owner`.
fn settle_wallet(key: u8, owner: u8) -> FundingAccount {
    FundingAccount { key: settle_key(key), mint: settle_key(9), owner: settle_key(owner) }
}

/// A battle in progress between keys 1 and 2, settled with the mint 9 whose
/// admin is key 7; the escrow stands at key 5.
fn settle_ctx(battle_price: u64, burn_fee_bps: u64, amount: u64) -> RecordBattleResult {
    RecordBattleResult {
        program_id: settle_key(100),
        winner: settle_key(1),
        admin_account: Admin {
            admin: settle_key(7),
            mint: settle_key(9),
            burn_fee_bps,
            battle_price,
        },
        admin_token_account: settle_wallet(70, 7),
        battle_account: Some(Battle {
            battle_id: 1,
            player_one: settle_key(1),
            player_two: settle_key(2),
            winner: Pubkey::default(),
            battle_status: BattleStatus::InProgress,
        }),
        battle_token_account: Escrow {
            key: settle_key(5),
            bump: 254,
            account: Some(TokenAccount { mint: settle_key(9), owner: settle_key(5), amount }),
        },
        winner_token_account: settle_wallet(10, 1),
        mint: Mint { key: settle_key(9), decimals: 6 },
    }
}

#[test]
fn five_percent_of_two_hundred_is_ten() {
    let mut ctx = settle_ctx(100, 500, 200);
    let settlement = record_battle_result_ix(&mut ctx, 0, 1).unwrap();
    assert_eq!(settlement.to_admin.amount, 10);
    assert_eq!(settlement.to_winner.amount, 190);
    assert_eq!(settlement.to_winner.amount + settlement.to_admin.amount, 200);
}

#[test]
fn settlement_orders_name_every_account() {
    let mut ctx = settle_ctx(100, 500, 200);
    let settlement = record_battle_result_ix(&mut ctx, 0, 1).unwrap();
    assert_eq!(
        settlement.to_winner,
        TransferChecked {
            from: settle_key(5),
            mint: settle_key(9),
            to: settle_key(10),
            authority: settle_key(5),
            amount: 190,
            decimals: 6,
        }
    );
    assert_eq!(
        settlement.to_admin,
        TransferChecked {
            from: settle_key(5),
            mint: settle_key(9),
            to: settle_key(70),
            authority: settle_key(5),
            amount: 10,
            decimals: 6,
        }
    );
    assert_eq!(
        settlement.close,
        CloseAccount { account: settle_key(5), destination: settle_key(7), authority: settle_key(5) }
    );
    assert_eq!(
        settlement.signer,
        EscrowSigner { player_one: settle_key(1), battle_id: 1, bump: 254 }
    );
}

#[test]
fn settlement_completes_the_battle_and_empties_the_escrow() {
    let mut ctx = settle_ctx(100, 500, 200);
    let before = ctx;
    record_battle_result_ix(&mut ctx, 0, 1).unwrap();
    let battle = ctx.battle_account.unwrap();
    assert_eq!(battle.battle_status, BattleStatus::Completed);
    assert_eq!(battle.winner, settle_key(1));
    assert_eq!(battle.player_one, settle_key(1));
    assert_eq!(battle.player_two, settle_key(2));
    assert_eq!(battle.battle_id, 1);
    assert_eq!(ctx.battle_token_account.account, None);
    assert_eq!(ctx.battle_token_account.key, settle_key(5));
    assert_eq!(ctx.admin_account, before.admin_account);
}

#[test]
fn player_two_wins_with_result_code_one() {
    let mut ctx = settle_ctx(100, 500, 200);
    ctx.winner = settle_key(2);
    ctx.winner_token_account = settle_wallet(20, 2);
    let settlement = record_battle_result_ix(&mut ctx, 1, 1).unwrap();
    assert_eq!(settlement.to_winner.to, settle_key(20));
    assert_eq!(ctx.battle_account.unwrap().winner, settle_key(2));
}

#[test]
fn fee_rounds_down() {
    // 333 basis points of 2 * 151 = 302 is 10.0566, so 10.
    let mut ctx = settle_ctx(151, 333, 302);
    let settlement = record_battle_result_ix(&mut ctx, 0, 1).unwrap();
    assert_eq!(settlement.to_admin.amount, 10);
    assert_eq!(settlement.to_winner.amount, 292);
}

#[test]
fn no_fee_pays_the_winner_the_pool() {
    let mut ctx = settle_ctx(100, 0, 200);
    let settlement = record_battle_result_ix(&mut ctx, 0, 1).unwrap();
    assert_eq!(settlement.to_admin.amount, 0);
    assert_eq!(settlement.to_winner.amount, 200);
}

#[test]
fn full_fee_pays_the_winner_zero_and_still_settles() {
    let mut ctx = settle_ctx(100, 10_000, 200);
    let settlement = record_battle_result_ix(&mut ctx, 0, 1).unwrap();
    assert_eq!(settlement.to_admin.amount, 200);
    assert_eq!(settlement.to_winner.amount, 0);
    assert_eq!(ctx.battle_account.unwrap().battle_status, BattleStatus::Completed);
}

#[test]
fn winner_gets_the_rest_of_what_the_escrow_holds() {
    // The price was lowered after both players staked 100.
    let mut ctx = settle_ctx(50, 1_000, 200);
    let settlement = record_battle_result_ix(&mut ctx, 0, 1).unwrap();
    assert_eq!(settlement.to_admin.amount, 10);
    assert_eq!(settlement.to_winner.amount, 190);
}

#[test]
fn result_code_two_is_invalid_and_battle_stays_in_progress() {
    let mut ctx = settle_ctx(100, 500, 200);
    let before = ctx;
    assert_eq!(
        record_battle_result_ix(&mut ctx, 2, 1),
        Err(ScoogiBattleError::InvalidBattleResult)
    );
    assert_eq!(ctx, before);
    assert_eq!(ctx.battle_account.unwrap().battle_status, BattleStatus::InProgress);
    assert_eq!(
        record_battle_result_ix(&mut ctx, 255, 1),
        Err(ScoogiBattleError::InvalidBattleResult)
    );
    assert_eq!(ctx, before);
}

#[test]
fn only_the_declared_winner_reports() {
    let mut ctx = settle_ctx(100, 500, 200);
    let before = ctx;
    // Key 1 is player one, and declares player two the winner.
    assert_eq!(record_battle_result_ix(&mut ctx, 1, 1), Err(ScoogiBattleError::Unauthorized));
    assert_eq!(ctx, before);
    // A stranger declares player one the winner.
    ctx.winner = settle_key(3);
    let stranger = ctx;
    assert_eq!(record_battle_result_ix(&mut ctx, 0, 1), Err(ScoogiBattleError::Unauthorized));
    assert_eq!(ctx, stranger);
    assert_eq!(ctx.battle_token_account.account.unwrap().amount, 200);
}

#[test]
fn settling_needs_a_battle_in_progress() {
    let mut ctx = settle_ctx(100, 500, 200);
    ctx.battle_account = Some(Battle {
        battle_status: BattleStatus::Pending,
        ..ctx.battle_account.unwrap()
    });
    let before = ctx;
    assert_eq!(
        record_battle_result_ix(&mut ctx, 0, 1),
        Err(ScoogiBattleError::InvalidBattleStatus)
    );
    assert_eq!(ctx, before);
    ctx.battle_account = None;
    assert_eq!(
        record_battle_result_ix(&mut ctx, 0, 1),
        Err(ScoogiBattleError::InvalidBattleStatus)
    );
}

#[test]
fn settling_needs_the_battle_id() {
    let mut ctx = settle_ctx(100, 500, 200);
    let before = ctx;
    assert_eq!(record_battle_result_ix(&mut ctx, 0, 2), Err(ScoogiBattleError::InvalidBattleId));
    assert_eq!(ctx, before);
}

#[test]
fn status_is_checked_before_id_result_and_caller() {
    let mut ctx = settle_ctx(100, 500, 200);
    ctx.battle_account = Some(Battle {
        battle_status: BattleStatus::Completed,
        ..ctx.battle_account.unwrap()
    });
    ctx.winner = settle_key(3);
    assert_eq!(
        record_battle_result_ix(&mut ctx, 9, 77),
        Err(ScoogiBattleError::InvalidBattleStatus)
    );
    let mut ctx = settle_ctx(100, 500, 200);
    ctx.winner = settle_key(3);
    assert_eq!(record_battle_result_ix(&mut ctx, 9, 77), Err(ScoogiBattleError::InvalidBattleId));
    assert_eq!(
        record_battle_result_ix(&mut ctx, 9, 1),
        Err(ScoogiBattleError::InvalidBattleResult)
    );
}

#[test]
fn a_settled_battle_is_not_settled_again() {
    let mut ctx = settle_ctx(100, 500, 200);
    record_battle_result_ix(&mut ctx, 0, 1).unwrap();
    let after = ctx;
    assert_eq!(
        record_battle_result_ix(&mut ctx, 0, 1),
        Err(ScoogiBattleError::InvalidBattleStatus)
    );
    assert_eq!(ctx, after);
    // Not either when the escrow is said to hold tokens still.
    ctx.battle_token_account = settle_ctx(100, 500, 200).battle_token_account;
    assert_eq!(
        record_battle_result_ix(&mut ctx, 0, 1),
        Err(ScoogiBattleError::InvalidBattleStatus)
    );
}

#[test]
fn fee_above_the_escrow_is_an_internal_error() {
    // 20000 basis points of 200 is 400, more than the escrow holds.
    let mut ctx = settle_ctx(100, 20_000, 200);
    let before = ctx;
    assert_eq!(record_battle_result_ix(&mut ctx, 0, 1), Err(ScoogiBattleError::InternalError));
    assert_eq!(ctx, before);
}

#[test]
fn fee_overflow_is_an_internal_error() {
    // Twice the price does not fit in 64 bits.
    let mut ctx = settle_ctx(1 << 63, 1, 200);
    let before = ctx;
    assert_eq!(record_battle_result_ix(&mut ctx, 0, 1), Err(ScoogiBattleError::InternalError));
    assert_eq!(ctx, before);
    // Twice the price fits, the fee's product does not.
    let mut ctx = settle_ctx(1 << 62, 4, u64::MAX);
    assert_eq!(record_battle_result_ix(&mut ctx, 0, 1), Err(ScoogiBattleError::InternalError));
    // The largest product that fits.
    let mut ctx = settle_ctx(1 << 62, 1, u64::MAX);
    let settlement = record_battle_result_ix(&mut ctx, 0, 1).unwrap();
    assert_eq!(settlement.to_admin.amount, (1u64 << 63) / 10_000);
    assert_eq!(settlement.to_winner.amount, u64::MAX - (1u64 << 63) / 10_000);
}

#[test]
fn settling_needs_the_configured_mint_and_a_sound_escrow() {
    let mut ctx = settle_ctx(100, 500, 200);
    ctx.mint.key = settle_key(8);
    assert_eq!(record_battle_result_ix(&mut ctx, 0, 1), Err(ScoogiBattleError::InternalError));
    let mut ctx = settle_ctx(100, 500, 200);
    ctx.battle_token_account.account = None;
    assert_eq!(record_battle_result_ix(&mut ctx, 0, 1), Err(ScoogiBattleError::InternalError));
    let mut ctx = settle_ctx(100, 500, 200);
    ctx.battle_token_account.account =
        Some(TokenAccount { mint: settle_key(8), owner: settle_key(5), amount: 200 });
    assert_eq!(record_battle_result_ix(&mut ctx, 0, 1), Err(ScoogiBattleError::InternalError));
    let mut ctx = settle_ctx(100, 500, 200);
    ctx.battle_token_account.account =
        Some(TokenAccount { mint: settle_key(9), owner: settle_key(1), amount: 200 });
    let before = ctx;
    assert_eq!(record_battle_result_ix(&mut ctx, 0, 1), Err(ScoogiBattleError::InternalError));
    assert_eq!(ctx, before);
}

#[test]
fn the_fee_goes_to_the_admin_and_the_payment_to_the_winner_only() {
    // The winner names an own account as the fee's destination.
    let mut ctx = settle_ctx(100, 500, 200);
    ctx.admin_token_account = settle_wallet(70, 1);
    let before = ctx;
    assert_eq!(record_battle_result_ix(&mut ctx, 0, 1), Err(ScoogiBattleError::InternalError));
    assert_eq!(ctx, before);
    // The payment is to go to the loser's account.
    let mut ctx = settle_ctx(100, 500, 200);
    ctx.winner_token_account = settle_wallet(10, 2);
    assert_eq!(record_battle_result_ix(&mut ctx, 0, 1), Err(ScoogiBattleError::InternalError));
    // An account of another mint.
    let mut ctx = settle_ctx(100, 500, 200);
    ctx.winner_token_account.mint = settle_key(8);
    assert_eq!(record_battle_result_ix(&mut ctx, 0, 1), Err(ScoogiBattleError::InternalError));
    let mut ctx = settle_ctx(100, 500, 200);
    ctx.admin_token_account.mint = settle_key(8);
    assert_eq!(record_battle_result_ix(&mut ctx, 0, 1), Err(ScoogiBattleError::InternalError));
    // The admin wins a battle: both payments may go to one account.
    let mut ctx = settle_ctx(100, 500, 200);
    ctx.admin_account.admin = settle_key(1);
    ctx.admin_token_account = settle_wallet(10, 1);
    let settlement = record_battle_result_ix(&mut ctx, 0, 1).unwrap();
    assert_eq!(settlement.to_winner.to, settlement.to_admin.to);
    assert_eq!(settlement.to_winner.amount + settlement.to_admin.amount, 200);
}

#[test]
fn whole_settlement_removes_the_battle() {
    let mut ctx = settle_ctx(100, 500, 200);
    let (key, bump) = scoogi_battle::find_escrow_address(&ctx.program_id, &settle_key(1), 1).unwrap();
    ctx.battle_token_account =
        Escrow { key, bump, account: Some(TokenAccount { mint: settle_key(9), owner: key, amount: 200 }) };
    let settlement = record_battle_result(&mut ctx, 0, 1).unwrap();
    assert_eq!(settlement.to_admin.amount, 10);
    assert_eq!(settlement.to_winner.amount, 190);
    assert_eq!(settlement.to_winner.from, key);
    assert_eq!(settlement.signer.bump, bump);
    assert_eq!(ctx.battle_account, None);
    assert_eq!(ctx.battle_token_account.account, None);
    // Asked again, nothing is paid.
    let after = ctx;
    assert_eq!(record_battle_result(&mut ctx, 0, 1), Err(ScoogiBattleError::InvalidBattleStatus));
    assert_eq!(ctx, after);
}

#[test]
fn whole_settlement_refuses_an_escrow_that_stands_elsewhere() {
    let mut ctx = settle_ctx(100, 500, 200);
    let before = ctx;
    assert_eq!(record_battle_result(&mut ctx, 0, 1), Err(ScoogiBattleError::InternalError));
    assert_eq!(ctx, before);
    // The address of another battle's escrow is refused as well.
    let (key, bump) = scoogi_battle::find_escrow_address(&ctx.program_id, &settle_key(1), 2).unwrap();
    ctx.battle_token_account =
        Escrow { key, bump, account: Some(TokenAccount { mint: settle_key(9), owner: key, amount: 200 }) };
    let before = ctx;
    assert_eq!(record_battle_result(&mut ctx, 0, 1), Err(ScoogiBattleError::InternalError));
    assert_eq!(ctx, before);
    // The rejections of the request itself come first.
    assert_eq!(record_battle_result(&mut ctx, 2, 1), Err(ScoogiBattleError::InvalidBattleResult));
    assert_eq!(record_battle_result(&mut ctx, 0, 3), Err(ScoogiBattleError::InvalidBattleId));
}
