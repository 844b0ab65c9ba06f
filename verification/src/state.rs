pub mod admin;
pub mod battle;
pub mod token;

pub use admin::{scale_price, scaled_price, Admin};
pub use battle::{Battle, BattleStatus};
pub use token::{Escrow, FundingAccount, Mint, TokenAccount};
