use vstd::prelude::*;
use crate::address::authorize;
use crate::address::Address;
use crate::error::Failure;
use crate::error::VaultError;
use crate::state::check_vault_address;
use crate::state::vault_resolves;
use crate::state::Account;
use crate::state::VaultState;
use crate::state::Wallet;
use crate::transfer::can_move;
use crate::transfer::has_room;
use crate::transfer::move_lamports;
use crate::transfer::moved;

verus! {

/// The accounts of a transfer that the owner of a vault makes out of it.
#[derive(Clone, Copy, Debug, PartialEq, Eq)]
pub struct AdminTransfer {
    /// The signer of the call.
    pub owner: Address,
    /// The vault that pays.
    pub vault_state: Account<VaultState>,
    /// The account that is paid. Any account will do.
    pub destination: Wallet,
}

impl AdminTransfer {
    /// The signer is the owner on record in the vault.
    pub open spec fn authorized(self) -> bool {
        self.owner == self.vault_state.data.owner
    }

    /// The first reason, if there is one, to turn down a transfer of
    /// `amount`, where `resolved` says whether the vault sits at its derived
    /// address.
    pub open spec fn rejection(self, amount: u64, resolved: bool) -> Option<Failure> {
        if !self.authorized() {
            Some(Failure::Vault(VaultError::UnauthorizedUser))
        } else if !resolved {
            Some(Failure::AddressMismatch)
        } else if amount == 0 {
            Some(Failure::Vault(VaultError::ZeroDeposit))
        } else if self.vault_state.data.balance < amount {
            Some(Failure::Vault(VaultError::NotEnoughFunds))
        } else {
            None
        }
    }

    /// The native value can go from the vault's account to the destination.
    pub open spec fn fits(self, amount: u64) -> bool {
        can_move(self.vault_state.wallet(), self.destination, amount)
    }

    /// Whether a transfer of `amount` may be asked for: where it would be
    /// made, the native value can go from the vault's account to the
    /// destination.
    pub open spec fn callable(self, amount: u64) -> bool {
        self.rejection(amount, true) is None ==> self.fits(amount)
    }

    /// Says whether a transfer of `amount` may be asked for.
    pub fn is_callable(&self, amount: u64) -> (ok: bool)
        ensures
            ok == self.callable(amount),
    {
        match self.check(amount, true) {
            Ok(_) => has_room(&self.vault_state.as_wallet(), &self.destination, amount),
            Err(_) => true,
        }
    }

    /// Tests a transfer of `amount` against the rules, without making it:
    /// gives the first reason to turn it down, if there is one.
    pub fn check(&self, amount: u64, resolved: bool) -> (verdict: Result<(), Failure>)
        ensures
            match verdict {
                Ok(_) => self.rejection(amount, resolved) is None,
                Err(failure) => self.rejection(amount, resolved) == Some(failure),
            },
    {
        if let Err(e) = authorize(&self.owner, &self.vault_state.data.owner) {
            return Err(Failure::Vault(e));
        }
        if !resolved {
            return Err(Failure::AddressMismatch);
        }
        if amount == 0 {
            return Err(Failure::Vault(VaultError::ZeroDeposit));
        }
        if self.vault_state.data.balance < amount {
            return Err(Failure::Vault(VaultError::NotEnoughFunds));
        }
        Ok(())
    }

    /// The accounts after `amount` has been paid out of the vault.
    pub open spec fn transferred(self, amount: u64) -> Self {
        let (vault, destination) = moved(self.vault_state.wallet(), self.destination, amount);
        AdminTransfer {
            destination,
            vault_state: Account {
                lamports: vault.lamports,
                data: VaultState {
                    balance: (self.vault_state.data.balance - amount) as u64,
                    ..self.vault_state.data
                },
                ..self.vault_state
            },
            ..self
        }
    }
}

/// Pays `amount` out of a vault to an account of the owner's choice, given
/// whether the vault sits at its derived address.
///
/// The call is turned down, and nothing changes, unless the signer is the
/// vault's owner, the vault is resolved, `amount` is positive, and the
/// vault's balance covers it. Otherwise `amount` goes from the vault's
/// account to the destination and leaves the vault's balance. No position is
/// touched: the owner may pay out what depositors have locked.
pub fn admin_transfer_given(ctx: &mut AdminTransfer, amount: u64, resolved: bool) -> (result:
    Result<(), Failure>)
    requires
        old(ctx).rejection(amount, resolved) is None ==> old(ctx).fits(amount),
    ensures
        match result {
            Ok(_) => {
                &&& old(ctx).rejection(amount, resolved) is None
                &&& *final(ctx) == old(ctx).transferred(amount)
            },
            Err(failure) => {
                &&& old(ctx).rejection(amount, resolved) == Some(failure)
                &&& *final(ctx) == *old(ctx)
            },
        },
        result is Ok ==> {
            &&& final(ctx).vault_state.data.balance == old(ctx).vault_state.data.balance - amount
            &&& final(ctx).vault_state.lamports + final(ctx).destination.lamports
                == old(ctx).vault_state.lamports + old(ctx).destination.lamports
        },
        result is Ok && old(ctx).destination.key != old(ctx).vault_state.key ==> {
            &&& final(ctx).destination.lamports == old(ctx).destination.lamports + amount
            &&& final(ctx).vault_state.lamports == old(ctx).vault_state.lamports - amount
        },
{
    if let Err(e) = ctx.check(amount, resolved) {
        return Err(e);
    }
    let (vault, destination) = move_lamports(ctx.vault_state.as_wallet(), ctx.destination, amount);
    ctx.vault_state.lamports = vault.lamports;
    ctx.destination = destination;

    ctx.vault_state.data.balance = ctx.vault_state.data.balance - amount;
    Ok(())
}

/// Pays `amount` out of a vault to an account of the owner's choice.
///
/// Finds out whether the vault sits at the address derived for it, and goes
/// on as `admin_transfer_given` does.
pub fn admin_transfer(ctx: &mut AdminTransfer, amount: u64) -> (result: Result<(), Failure>)
    requires
        old(ctx).callable(amount),
    ensures
        match result {
            Ok(_) => {
                &&& old(ctx).rejection(amount, vault_resolves(old(ctx).vault_state)) is None
                &&& *final(ctx) == old(ctx).transferred(amount)
            },
            Err(failure) => {
                &&& old(ctx).rejection(amount, vault_resolves(old(ctx).vault_state)) == Some(
                    failure,
                )
                &&& *final(ctx) == *old(ctx)
            },
        },
        result is Ok ==> final(ctx).vault_state.data.balance == old(ctx).vault_state.data.balance
            - amount,
        result is Ok && old(ctx).destination.key != old(ctx).vault_state.key
            ==> final(ctx).destination.lamports == old(ctx).destination.lamports + amount,
{
    let resolved = check_vault_address(&ctx.vault_state);
    admin_transfer_given(ctx, amount, resolved)
}

} // verus!
