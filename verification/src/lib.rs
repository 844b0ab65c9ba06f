//! Escrow settlement for two-player staked battles.
//!
//! Two players each lock the same stake in an escrow that belongs to their
//! battle. The winner reports the result and is paid the pool less a fee; a
//! player whom nobody joined takes the stake back; the admin can split an
//! escrow between the players. Every operation here either succeeds as a whole
//! or reports an error and changes nothing. Moving tokens is left to the
//! caller: an operation returns the transfers to make.

pub mod address;
pub mod constants;
pub mod errors;
pub mod instructions;
pub mod laws;
pub mod program;
pub mod pubkey;
pub mod state;
pub mod transfer;

pub use constants::{ADMIN_SEED, BATTLE_SEED, TOKEN_ACCOUNT_SEED};
pub use errors::ScoogiBattleError;
pub use pubkey::Pubkey;
pub use state::{
    scale_price, Admin, Battle, BattleStatus, Escrow, FundingAccount, Mint, TokenAccount,
};
pub use transfer::{CloseAccount, EscrowSigner, TransferChecked};
pub use instructions::{
    admin_withdraw_ix, create_battle_ix, initialize_ix, join_battle_ix, record_battle_result_ix,
    update_battle_price_ix, update_burn_fee_bps_ix, update_mint_ix, withdraw_from_battle_ix,
    AdminWithdraw, CreateBattle, Initialize, JoinQuickBattle, RecordBattleResult, Refund,
    Settlement, Split, UpdateBattlePrice, UpdateBurnFeeBps, UpdateMint, WithdrawFromBattle,
};
pub use program::{
    admin_withdrawal, create_battle, initialize, join_battle, record_battle_result,
    update_battle_price, update_burn_fee_bps, update_mint, withdraw_from_battle,
};
pub use address::find_escrow_address;
