use vstd::prelude::*;

verus! {

/// Seed of the configuration record's address: the bytes of `admin`.
pub const ADMIN_SEED: [u8; 5] = [97, 100, 109, 105, 110];

/// Seed of a battle record's address: the bytes of `battle`.
pub const BATTLE_SEED: [u8; 6] = [98, 97, 116, 116, 108, 101];

/// Seed of an escrow account's address: the bytes of `token_account`.
pub const TOKEN_ACCOUNT_SEED: [u8; 13] = [116, 111, 107, 101, 110, 95, 97, 99, 99, 111, 117, 110, 116];

} // verus!
