pub mod admin_withdraw;
pub mod create_battle;
pub mod initialize;
pub mod join_battle;
pub mod record_battle_result;
pub mod update_battle_price;
pub mod update_burn_fee_bps;
pub mod update_mint;
pub mod withdraw_from_battle;

pub use admin_withdraw::{admin_withdraw_ix, AdminWithdraw, Split};
pub use create_battle::{create_battle_ix, CreateBattle};
pub use initialize::{initialize_ix, Initialize};
pub use join_battle::{join_battle_ix, JoinQuickBattle};
pub use record_battle_result::{record_battle_result_ix, RecordBattleResult, Settlement};
pub use update_battle_price::{update_battle_price_ix, UpdateBattlePrice};
pub use update_burn_fee_bps::{update_burn_fee_bps_ix, UpdateBurnFeeBps};
pub use update_mint::{update_mint_ix, UpdateMint};
pub use withdraw_from_battle::{withdraw_from_battle_ix, Refund, WithdrawFromBattle};
