use vstd::prelude::*;
use crate::address::bump_at;
use crate::address::bump_found_at;
use crate::address::derive_address;
use crate::address::derived_address;
use crate::address::Address;
use crate::address::Namespace;
use crate::error::Failure;
use crate::receipt::InitializeMint;
use crate::state::mint_resolves;
use crate::state::vault_resolves;
use crate::state::Account;
use crate::state::Mint;
use crate::state::VaultState;
use crate::state::FOUR_DAYS_IN_SECONDS;

verus! {

/// The accounts of the registration of a vault.
#[derive(Clone, Copy, Debug, PartialEq, Eq)]
pub struct Register {
    /// The signer of the call, who becomes the owner of the vault.
    pub user: Address,
    /// The account for the vault: `None` as long as no vault is kept there.
    pub vault_state: Account<Option<VaultState>>,
    /// The account for the mint of the vault's receipt tokens: `None` as long
    /// as no mint is kept there.
    pub lp_mint: Account<Option<Mint>>,
}

impl Register {
    /// The address derived for the user's vault, with its bump seed.
    pub open spec fn vault_address(self) -> Option<(Address, u8)> {
        derived_address(Namespace::Vault, seq![self.user])
    }

    /// The address derived for the mint of the user's vault, with its bump
    /// seed.
    pub open spec fn mint_address(self) -> Option<(Address, u8)> {
        derived_address(Namespace::LpMint, seq![self.user])
    }

    /// The first reason, if there is one, to turn the registration down,
    /// where `vault` and `lp_mint` are the addresses derived for the user's
    /// vault and mint.
    pub open spec fn rejection(
        self,
        vault: Option<(Address, u8)>,
        lp_mint: Option<(Address, u8)>,
    ) -> Option<Failure> {
        if bump_found_at(vault, self.vault_state.key) is None {
            Some(Failure::AddressMismatch)
        } else if self.vault_state.data is Some {
            Some(Failure::AlreadyExists)
        } else if bump_found_at(lp_mint, self.lp_mint.key) is None {
            Some(Failure::AddressMismatch)
        } else if self.lp_mint.data is Some {
            Some(Failure::AlreadyExists)
        } else {
            None
        }
    }

    /// The record of a vault that `self.user` has just registered, with the
    /// bump seeds of the vault and of its mint.
    pub open spec fn new_vault(self, bump: u8, lp_mint_bump: u8) -> VaultState {
        VaultState {
            owner: self.user,
            balance: 0,
            bump,
            lp_mint: self.lp_mint.key,
            lp_mint_bump,
            lock_period: FOUR_DAYS_IN_SECONDS,
        }
    }

    /// The accounts after the registration.
    pub open spec fn registered(self, bump: u8, lp_mint_bump: u8) -> Self {
        Register {
            vault_state: Account {
                data: Some(self.new_vault(bump, lp_mint_bump)),
                ..self.vault_state
            },
            ..self
        }
    }

    /// The order that goes with the registration: the mint is set up with
    /// whole tokens only and with itself as its authority.
    pub open spec fn order(self) -> InitializeMint {
        InitializeMint { mint: self.lp_mint.key, decimals: 0, authority: self.lp_mint.key }
    }
}

/// Registers the vault of `ctx.user`, given the addresses derived for the
/// user's vault and mint.
///
/// The call is turned down, and nothing changes, unless the two accounts sit
/// at the addresses given and neither holds anything yet. Otherwise the vault
/// is recorded with the user as its owner, an empty balance, a lock period of
/// four days, and the bump seeds given.
pub fn register_given(
    ctx: &mut Register,
    vault: Option<(Address, u8)>,
    lp_mint: Option<(Address, u8)>,
) -> (result: Result<InitializeMint, Failure>)
    ensures
        match result {
            Ok(order) => {
                &&& old(ctx).rejection(vault, lp_mint) is None
                &&& *final(ctx) == old(ctx).registered(
                    bump_found_at(vault, old(ctx).vault_state.key).unwrap(),
                    bump_found_at(lp_mint, old(ctx).lp_mint.key).unwrap(),
                )
                &&& order == old(ctx).order()
            },
            Err(failure) => {
                &&& old(ctx).rejection(vault, lp_mint) == Some(failure)
                &&& *final(ctx) == *old(ctx)
            },
        },
        result is Ok ==> {
            &&& final(ctx).vault_state.data is Some
            &&& final(ctx).vault_state.data.unwrap().owner == old(ctx).user
            &&& final(ctx).vault_state.data.unwrap().balance == 0
            &&& final(ctx).vault_state.data.unwrap().lock_period == FOUR_DAYS_IN_SECONDS
        },
        old(ctx).vault_state.data is Some ==> result is Err,
{
    let bump = match bump_at(&vault, &ctx.vault_state.key) {
        Some(bump) => bump,
        None => {
            return Err(Failure::AddressMismatch);
        },
    };
    if ctx.vault_state.data.is_some() {
        return Err(Failure::AlreadyExists);
    }
    let lp_mint_bump = match bump_at(&lp_mint, &ctx.lp_mint.key) {
        Some(bump) => bump,
        None => {
            return Err(Failure::AddressMismatch);
        },
    };
    if ctx.lp_mint.data.is_some() {
        return Err(Failure::AlreadyExists);
    }
    ctx.vault_state.data = Some(
        VaultState {
            owner: ctx.user,
            balance: 0,
            bump,
            lp_mint: ctx.lp_mint.key,
            lp_mint_bump,
            lock_period: FOUR_DAYS_IN_SECONDS,
        },
    );
    Ok(InitializeMint { mint: ctx.lp_mint.key, decimals: 0, authority: ctx.lp_mint.key })
}

/// Registers the vault of `ctx.user`, with the mint of its receipt tokens.
///
/// Derives the addresses of the user's vault and mint, and goes on as
/// `register_given` does. So a user has one vault at most: a second
/// registration finds the first vault at the derived address. A vault that
/// was registered sits at the address that its owner and its bump seed name,
/// and so does its mint.
pub fn register(ctx: &mut Register) -> (result: Result<InitializeMint, Failure>)
    ensures
        match result {
            Ok(order) => {
                &&& old(ctx).rejection(old(ctx).vault_address(), old(ctx).mint_address()) is None
                &&& *final(ctx) == old(ctx).registered(
                    bump_found_at(old(ctx).vault_address(), old(ctx).vault_state.key).unwrap(),
                    bump_found_at(old(ctx).mint_address(), old(ctx).lp_mint.key).unwrap(),
                )
                &&& order == old(ctx).order()
            },
            Err(failure) => {
                &&& old(ctx).rejection(old(ctx).vault_address(), old(ctx).mint_address()) == Some(
                    failure,
                )
                &&& *final(ctx) == *old(ctx)
            },
        },
        result is Ok ==> {
            &&& final(ctx).vault_state.data is Some
            &&& vault_resolves(
                Account {
                    key: final(ctx).vault_state.key,
                    lamports: final(ctx).vault_state.lamports,
                    data: final(ctx).vault_state.data.unwrap(),
                },
            )
            &&& mint_resolves(final(ctx).lp_mint.key, final(ctx).vault_state.data.unwrap())
        },
        old(ctx).vault_state.data is Some ==> result is Err,
{
    let keys: Vec<Address> = vec![ctx.user];
    assert(keys@ =~= seq![ctx.user]);
    let vault = derive_address(Namespace::Vault, &keys);
    let lp_mint = derive_address(Namespace::LpMint, &keys);
    register_given(ctx, vault, lp_mint)
}

} // verus!
