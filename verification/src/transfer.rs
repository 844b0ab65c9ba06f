use crate::address::{escrow_seed_bytes, escrow_signer_seeds, seed_bytes};
use crate::pubkey::Pubkey;
use crate::state::{Battle, Escrow, FundingAccount, Mint};
use vstd::prelude::*;

verus! {

/// An order to move `amount` tokens of `mint` from one token account to
/// another, on the word of `authority`. The caller carries it out.
#[derive(Clone, Copy, Debug, PartialEq, Eq)]
pub struct TransferChecked {
    pub from: Pubkey,
    pub mint: Pubkey,
    pub to: Pubkey,
    pub authority: Pubkey,
    pub amount: u64,
    pub decimals: u8,
}

/// An order to close the token account `account`, on the word of `authority`;
/// what the ledger held for the account itself goes to `destination`.
#[derive(Clone, Copy, Debug, PartialEq, Eq)]
pub struct CloseAccount {
    pub account: Pubkey,
    pub destination: Pubkey,
    pub authority: Pubkey,
}

/// What an escrow signs with: the battle it belongs to and its bump seed.
#[derive(Clone, Copy, Debug, PartialEq, Eq)]
pub struct EscrowSigner {
    pub player_one: Pubkey,
    pub battle_id: u64,
    pub bump: u8,
}

impl EscrowSigner {
    /// The signer seeds as bytes: the escrow's seeds, then its bump seed.
    pub fn seeds(&self) -> (seeds: Vec<Vec<u8>>)
        ensures
            seed_bytes(seeds@) == escrow_signer_seeds(self.player_one, self.battle_id, self.bump),
    {
        let mut seeds = escrow_seed_bytes(&self.player_one, self.battle_id);
        let mut last: Vec<u8> = Vec::new();
        last.push(self.bump);
        seeds.push(last);
        assert(seed_bytes(seeds@) =~= escrow_signer_seeds(
            self.player_one,
            self.battle_id,
            self.bump,
        ));
        seeds
    }
}

/// The order that stakes `amount` into `escrow` from the token account `from`,
/// on the word of its owner.
pub open spec fn deposit(escrow: Escrow, mint: Mint, from: FundingAccount, amount: u64)
    -> TransferChecked {
    TransferChecked {
        from: from.key,
        mint: mint.key,
        to: escrow.key,
        authority: from.owner,
        amount,
        decimals: mint.decimals,
    }
}

/// The order that pays `amount` out of `escrow` into the token account `to`.
/// The escrow is its own authority.
pub open spec fn payment(escrow: Escrow, mint: Mint, to: FundingAccount, amount: u64)
    -> TransferChecked {
    TransferChecked {
        from: escrow.key,
        mint: mint.key,
        to: to.key,
        authority: escrow.key,
        amount,
        decimals: mint.decimals,
    }
}

/// The order that closes `escrow` in favour of `destination`.
pub open spec fn closing(escrow: Escrow, destination: Pubkey) -> CloseAccount {
    CloseAccount { account: escrow.key, destination, authority: escrow.key }
}

/// What the escrow of `battle` signs with.
pub open spec fn signer_of(battle: Battle, escrow: Escrow) -> EscrowSigner {
    EscrowSigner { player_one: battle.player_one, battle_id: battle.battle_id, bump: escrow.bump }
}

/// Writes the order [`deposit`].
pub(crate) fn deposit_order(escrow: &Escrow, mint: &Mint, from: &FundingAccount, amount: u64) -> (order:
    TransferChecked)
    ensures
        order == deposit(*escrow, *mint, *from, amount),
{
    TransferChecked {
        from: from.key,
        mint: mint.key,
        to: escrow.key,
        authority: from.owner,
        amount,
        decimals: mint.decimals,
    }
}

/// Writes the order [`payment`].
pub(crate) fn payment_order(escrow: &Escrow, mint: &Mint, to: &FundingAccount, amount: u64) -> (order:
    TransferChecked)
    ensures
        order == payment(*escrow, *mint, *to, amount),
{
    TransferChecked {
        from: escrow.key,
        mint: mint.key,
        to: to.key,
        authority: escrow.key,
        amount,
        decimals: mint.decimals,
    }
}

/// Writes the order [`closing`].
pub(crate) fn closing_order(escrow: &Escrow, destination: Pubkey) -> (order: CloseAccount)
    ensures
        order == closing(*escrow, destination),
{
    CloseAccount { account: escrow.key, destination, authority: escrow.key }
}

/// Names the signer [`signer_of`].
pub(crate) fn signer_for(battle: &Battle, escrow: &Escrow) -> (signer: EscrowSigner)
    ensures
        signer == signer_of(*battle, *escrow),
{
    EscrowSigner { player_one: battle.player_one, battle_id: battle.battle_id, bump: escrow.bump }
}

} // verus!
