use vstd::prelude::*;
use crate::address::bump_at;
use crate::address::bump_found_at;
use crate::address::derive_address;
use crate::address::derived_address;
use crate::address::Address;
use crate::address::Namespace;
use crate::error::Failure;
use crate::state::check_vault_address;
use crate::state::position_resolves;
use crate::state::vault_resolves;
use crate::state::Account;
use crate::state::DepositorState;
use crate::state::VaultState;

verus! {

/// The accounts of the registration of a depositor with a vault.
#[derive(Clone, Copy, Debug, PartialEq, Eq)]
pub struct RegisterDepositor {
    /// The signer of the call, who becomes the depositor.
    pub depositor: Address,
    /// The vault that the depositor registers with.
    pub vault_state: Account<VaultState>,
    /// The account for the position: `None` as long as no position is kept
    /// there.
    pub depositor_state: Account<Option<DepositorState>>,
}

impl RegisterDepositor {
    /// The address derived for the position of the depositor in the vault,
    /// with its bump seed. A position is derived from the depositor, then the
    /// owner of the vault.
    pub open spec fn position_address(self) -> Option<(Address, u8)> {
        derived_address(Namespace::Depositor, seq![self.depositor, self.vault_state.data.owner])
    }

    /// The first reason, if there is one, to turn the registration down,
    /// where `position` is the address derived for the position and
    /// `vault_resolved` says whether the vault sits at its derived address.
    pub open spec fn rejection(self, position: Option<(Address, u8)>, vault_resolved: bool)
        -> Option<Failure> {
        if bump_found_at(position, self.depositor_state.key) is None {
            Some(Failure::AddressMismatch)
        } else if self.depositor_state.data is Some {
            Some(Failure::AlreadyExists)
        } else if !vault_resolved {
            Some(Failure::AddressMismatch)
        } else {
            None
        }
    }

    /// The record of a position that `self.depositor` has just opened, with
    /// the bump seed of the position.
    pub open spec fn new_position(self, bump: u8) -> DepositorState {
        DepositorState {
            depositor: self.depositor,
            vault_owner: self.vault_state.data.owner,
            bump,
            deposit_time: 0,
            unlock_time: 0,
            locked_amount: 0,
            lp_amount: 0,
        }
    }

    /// The accounts after the registration.
    pub open spec fn registered(self, bump: u8) -> Self {
        RegisterDepositor {
            depositor_state: Account {
                data: Some(self.new_position(bump)),
                ..self.depositor_state
            },
            ..self
        }
    }
}

/// Registers `ctx.depositor` with a vault, given the address derived for the
/// position and whether the vault sits at its derived address.
///
/// The call is turned down, and nothing changes, unless the account for the
/// position sits at the address given and holds nothing yet, and the vault is
/// resolved. Otherwise an empty position is recorded: nothing locked, no
/// receipt tokens, no times set.
pub fn register_depositor_given(
    ctx: &mut RegisterDepositor,
    position: Option<(Address, u8)>,
    vault_resolved: bool,
) -> (result: Result<(), Failure>)
    ensures
        match result {
            Ok(_) => {
                &&& old(ctx).rejection(position, vault_resolved) is None
                &&& *final(ctx) == old(ctx).registered(
                    bump_found_at(position, old(ctx).depositor_state.key).unwrap(),
                )
            },
            Err(failure) => {
                &&& old(ctx).rejection(position, vault_resolved) == Some(failure)
                &&& *final(ctx) == *old(ctx)
            },
        },
        result is Ok ==> {
            &&& final(ctx).depositor_state.data is Some
            &&& final(ctx).depositor_state.data.unwrap().depositor == old(ctx).depositor
            &&& final(ctx).depositor_state.data.unwrap().vault_owner
                == old(ctx).vault_state.data.owner
            &&& final(ctx).depositor_state.data.unwrap().locked_amount == 0
            &&& final(ctx).depositor_state.data.unwrap().lp_amount == 0
            &&& final(ctx).depositor_state.data.unwrap().deposit_time == 0
            &&& final(ctx).depositor_state.data.unwrap().unlock_time == 0
            &&& final(ctx).depositor_state.data.unwrap().wf()
        },
        old(ctx).depositor_state.data is Some ==> result is Err,
{
    let bump = match bump_at(&position, &ctx.depositor_state.key) {
        Some(bump) => bump,
        None => {
            return Err(Failure::AddressMismatch);
        },
    };
    if ctx.depositor_state.data.is_some() {
        return Err(Failure::AlreadyExists);
    }
    if !vault_resolved {
        return Err(Failure::AddressMismatch);
    }
    ctx.depositor_state.data = Some(
        DepositorState {
            depositor: ctx.depositor,
            vault_owner: ctx.vault_state.data.owner,
            bump,
            deposit_time: 0,
            unlock_time: 0,
            locked_amount: 0,
            lp_amount: 0,
        },
    );
    Ok(())
}

/// Registers `ctx.depositor` with a vault.
///
/// Derives the address of the position, finds out whether the vault sits at
/// the address derived for it, and goes on as `register_depositor_given`
/// does. So a depositor has one position with a vault at most. A position
/// that was registered sits at the address that its depositor, the owner of
/// its vault and its bump seed name.
pub fn register_depositor(ctx: &mut RegisterDepositor) -> (result: Result<(), Failure>)
    ensures
        match result {
            Ok(_) => {
                &&& old(ctx).rejection(
                    old(ctx).position_address(),
                    vault_resolves(old(ctx).vault_state),
                ) is None
                &&& *final(ctx) == old(ctx).registered(
                    bump_found_at(
                        old(ctx).position_address(),
                        old(ctx).depositor_state.key,
                    ).unwrap(),
                )
            },
            Err(failure) => {
                &&& old(ctx).rejection(
                    old(ctx).position_address(),
                    vault_resolves(old(ctx).vault_state),
                ) == Some(failure)
                &&& *final(ctx) == *old(ctx)
            },
        },
        result is Ok ==> {
            &&& final(ctx).depositor_state.data is Some
            &&& final(ctx).depositor_state.data.unwrap().wf()
            &&& position_resolves(
                Account {
                    key: final(ctx).depositor_state.key,
                    lamports: final(ctx).depositor_state.lamports,
                    data: final(ctx).depositor_state.data.unwrap(),
                },
            )
        },
        old(ctx).depositor_state.data is Some ==> result is Err,
{
    let keys: Vec<Address> = vec![ctx.depositor, ctx.vault_state.data.owner];
    assert(keys@ =~= seq![ctx.depositor, ctx.vault_state.data.owner]);
    let position = derive_address(Namespace::Depositor, &keys);
    let vault_resolved = check_vault_address(&ctx.vault_state);
    register_depositor_given(ctx, position, vault_resolved)
}

} // verus!
