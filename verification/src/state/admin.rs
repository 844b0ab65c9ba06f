use crate::pubkey::Pubkey;
use vstd::arithmetic::mul::lemma_mul_left_inequality;
use vstd::arithmetic::power::{lemma_pow0, lemma_pow_increases, pow};
use vstd::prelude::*;

verus! {

/// The configuration record. There is one; only its admin may change it.
#[derive(Clone, Copy, Debug, PartialEq, Eq)]
pub struct Admin {
    /// Who may change the configuration and override a battle.
    pub admin: Pubkey,
    /// The mint of the token in which stakes are paid.
    pub mint: Pubkey,
    /// The fee, in basis points of the pool, taken at settlement.
    pub burn_fee_bps: u64,
    /// The stake of one player, in the smallest unit of the mint.
    pub battle_price: u64,
}

impl Admin {
    /// Bytes that the stored record takes: an 8-byte tag, two keys, two integers.
    pub fn size() -> (n: usize)
        ensures
            n == 8 + 32 + 32 + 8 + 8,
    {
        8 + 32 + 32 + 8 + 8
    }
}

/// A price in whole tokens, in the smallest unit of a mint with `decimals`
/// decimal places.
pub open spec fn scaled_price(battle_price: u64, decimals: u8) -> int {
    battle_price * pow(10, decimals as nat)
}

/// Scales a price in whole tokens to the smallest unit of a mint with
/// `decimals` decimal places. `None` where the result does not fit in 64 bits.
pub fn scale_price(battle_price: u64, decimals: u8) -> (scaled: Option<u64>)
    ensures
        scaled == (if scaled_price(battle_price, decimals) <= u64::MAX {
            Some(scaled_price(battle_price, decimals) as u64)
        } else {
            None
        }),
{
    let mut scaled: u64 = battle_price;
    let mut i: u8 = 0;
    proof {
        lemma_pow0(10);
    }
    while i < decimals
        invariant
            i <= decimals,
            scaled == battle_price * pow(10, i as nat),
        decreases decimals - i,
    {
        proof {
            let p = pow(10, i as nat);
            assert(pow(10, (i + 1) as nat) == 10 * p) by {
                reveal(pow);
            }
            assert(battle_price * (10 * p) == (battle_price * p) * 10) by (nonlinear_arith);
        }
        match scaled.checked_mul(10) {
            Some(next) => {
                scaled = next;
            },
            None => {
                proof {
                    lemma_pow_increases(10, (i + 1) as nat, decimals as nat);
                    if battle_price > 0 {
                        lemma_mul_left_inequality(
                            battle_price as int,
                            pow(10, (i + 1) as nat),
                            pow(10, decimals as nat),
                        );
                    }
                }
                return None;
            },
        }
        i += 1;
    }
    Some(scaled)
}

} // verus!
