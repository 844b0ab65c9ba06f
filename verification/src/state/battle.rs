use crate::pubkey::Pubkey;
use vstd::prelude::*;

verus! {

/// Where a battle stands. It only moves forward.
#[derive(Clone, Copy, Debug, PartialEq, Eq, Structural)]
pub enum BattleStatus {
    /// Player one has staked; nobody has joined.
    Pending,
    /// Both players have staked.
    InProgress,
    /// The result is recorded and the pool paid out.
    Completed,
}

/// One battle. `player_two` and `winner` are the all-zero key until they are set.
#[derive(Clone, Copy, Debug, PartialEq, Eq)]
pub struct Battle {
    pub battle_id: u64,
    pub player_one: Pubkey,
    pub player_two: Pubkey,
    pub winner: Pubkey,
    pub battle_status: BattleStatus,
}

impl Battle {
    /// Bytes that the stored record takes: an 8-byte tag, the id, three keys, the status.
    pub fn size() -> (n: usize)
        ensures
            n == 8 + 8 + 32 + 32 + 32 + 1,
    {
        8 + 8 + 32 + 32 + 32 + 1
    }
}

} // verus!
