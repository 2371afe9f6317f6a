use vstd::prelude::*;
use crate::address::seeds_of;
use crate::address::signer_seeds;
use crate::address::Address;
use crate::address::Namespace;
use crate::state::LP_PRICE_IN_LAMPORTS;

verus! {

/// The receipt tokens that stand for `amount` of native value: one for each
/// whole price of a token.
pub open spec fn receipts(amount: u64) -> u64 {
    amount / LP_PRICE_IN_LAMPORTS
}

/// Whether receipt tokens can be issued for `amount`: it is a whole number of
/// token prices.
pub open spec fn is_whole(amount: u64) -> bool {
    amount % LP_PRICE_IN_LAMPORTS == 0
}

/// Counts the receipt tokens to issue for a deposit of `amount`.
pub fn receipts_for(amount: u64) -> (issued: u64)
    ensures
        issued == receipts(amount),
        is_whole(amount) ==> issued * LP_PRICE_IN_LAMPORTS == amount,
{
    amount / LP_PRICE_IN_LAMPORTS
}

/// Says whether `amount` is a whole number of token prices.
pub fn is_whole_amount(amount: u64) -> (whole: bool)
    ensures
        whole == is_whole(amount),
{
    amount % LP_PRICE_IN_LAMPORTS == 0
}

/// The right by which the program mints and burns receipt tokens: the mint
/// is its own authority, and the program signs for it with the seeds of the
/// mint's address. No outside signer holds this right.
#[derive(Clone, Copy, Debug, PartialEq, Eq)]
pub struct MintAuthority {
    pub vault_owner: Address,
    pub bump: u8,
}

impl MintAuthority {
    /// The seeds to sign with, as a sequence of byte strings.
    pub open spec fn seeds(self) -> Seq<Seq<u8>> {
        seeds_of(Namespace::LpMint, seq![self.vault_owner]).push(seq![self.bump])
    }

    /// The seeds to sign with.
    pub fn signer_seeds(&self) -> (seeds: Vec<Vec<u8>>)
        ensures
            seeds.deep_view() == self.seeds(),
    {
        let keys: Vec<Address> = vec![self.vault_owner];
        assert(keys@ =~= seq![self.vault_owner]);
        signer_seeds(Namespace::LpMint, &keys, self.bump)
    }
}

/// An order to set up a new mint of receipt tokens.
#[derive(Clone, Copy, Debug, PartialEq, Eq)]
pub struct InitializeMint {
    pub mint: Address,
    pub decimals: u8,
    pub authority: Address,
}

/// An order to issue receipt tokens to a token account.
#[derive(Clone, Copy, Debug, PartialEq, Eq)]
pub struct MintTo {
    pub mint: Address,
    pub to: Address,
    pub authority: Address,
    pub amount: u64,
    pub signer: MintAuthority,
}

/// An order to redeem receipt tokens from a token account.
#[derive(Clone, Copy, Debug, PartialEq, Eq)]
pub struct Burn {
    pub mint: Address,
    pub from: Address,
    pub authority: Address,
    pub amount: u64,
    pub signer: MintAuthority,
}

} // verus!
