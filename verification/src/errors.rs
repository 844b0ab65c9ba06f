use vstd::prelude::*;

verus! {

/// Why a request was rejected. A rejected request changes nothing.
#[derive(Clone, Copy, Debug, PartialEq, Eq, Structural)]
pub enum ScoogiBattleError {
    /// The result code is neither 0 nor 1.
    InvalidBattleResult,
    /// The battle id of the request is not the id of the addressed battle.
    InvalidBattleId,
    /// The battle is not in the lifecycle state that the operation needs.
    InvalidBattleStatus,
    /// A refund was asked for by someone who is not player one.
    InvalidWithdrawal,
    /// An invariant is broken or storage is not in the expected condition.
    InternalError,
    /// The caller is not the authority that the operation needs.
    Unauthorized,
}

} // verus!
