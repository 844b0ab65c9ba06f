use crate::pubkey::Pubkey;
use vstd::prelude::*;

verus! {

/// What the engine reads of a mint: its address and its decimal precision.
#[derive(Clone, Copy, Debug, PartialEq, Eq)]
pub struct Mint {
    pub key: Pubkey,
    pub decimals: u8,
}

/// What the engine reads of the token account in an escrow.
#[derive(Clone, Copy, Debug, PartialEq, Eq)]
pub struct TokenAccount {
    /// The mint whose tokens the account holds.
    pub mint: Pubkey,
    /// Who may move the tokens.
    pub owner: Pubkey,
    /// How many tokens it holds, in the smallest unit of the mint.
    pub amount: u64,
}

/// What the engine reads of a token account that a player or the admin pays
/// from or is paid into: its address, its mint and who may move its tokens.
#[derive(Clone, Copy, Debug, PartialEq, Eq)]
pub struct FundingAccount {
    pub key: Pubkey,
    pub mint: Pubkey,
    pub owner: Pubkey,
}

impl FundingAccount {
    /// Whether the account holds tokens of `mint` and is `owner`'s.
    pub open spec fn is_of(self, owner: Pubkey, mint: Pubkey) -> bool {
        self.owner == owner && self.mint == mint
    }

    /// Whether the account holds tokens of `mint` and is `owner`'s.
    pub fn belongs_to(&self, owner: &Pubkey, mint: &Pubkey) -> (belongs: bool)
        ensures
            belongs == self.is_of(*owner, *mint),
    {
        self.owner == *owner && self.mint == *mint
    }
}

/// The escrow of one battle: an address, the bump seed that the address was
/// derived with, and the token account at that address while there is one.
#[derive(Clone, Copy, Debug, PartialEq, Eq)]
pub struct Escrow {
    pub key: Pubkey,
    pub bump: u8,
    pub account: Option<TokenAccount>,
}

impl Escrow {
    /// The tokens in escrow; none when no account is there.
    pub open spec fn balance(self) -> nat {
        match self.account {
            Some(account) => account.amount as nat,
            None => 0,
        }
    }

    /// Whether a token account is there, holds tokens of `mint`, and is its
    /// own authority, as an escrow must be.
    pub open spec fn holds(self, mint: Pubkey) -> bool {
        match self.account {
            Some(account) => account.mint == mint && account.owner == self.key,
            None => false,
        }
    }

    /// Whether the escrow stands at the address `found`, with its bump seed.
    pub fn is_at(&self, found: &Option<(Pubkey, u8)>) -> (at: bool)
        ensures
            at == (*found == Some((self.key, self.bump))),
    {
        match found {
            Some((key, bump)) => self.key == *key && self.bump == *bump,
            None => false,
        }
    }

    /// The balance of an escrow that `holds(mint)`; `None` of any other.
    pub fn stakes(&self, mint: &Pubkey) -> (amount: Option<u64>)
        ensures
            amount == (if self.holds(*mint) {
                Some(self.account->0.amount)
            } else {
                None
            }),
    {
        match self.account {
            Some(account) => {
                if account.mint == *mint && account.owner == self.key {
                    Some(account.amount)
                } else {
                    None
                }
            },
            None => None,
        }
    }
}

} // verus!
