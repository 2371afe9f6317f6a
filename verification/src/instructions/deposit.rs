use vstd::prelude::*;
use crate::address::authorize;
use crate::address::Address;
use crate::error::Failure;
use crate::error::VaultError;
use crate::state::check_vault_address;
use crate::state::vault_resolves;
use crate::state::Account;
use crate::state::VaultState;
use crate::transfer::Transfer;

verus! {

/// The accounts of an owner's deposit.
#[derive(Clone, Copy, Debug, PartialEq, Eq)]
pub struct Deposit {
    /// The signer of the call.
    pub user: Address,
    /// The vault that receives the deposit.
    pub vault_state: Account<VaultState>,
}

impl Deposit {
    /// The signer is the owner on record in the vault.
    pub open spec fn authorized(self) -> bool {
        self.user == self.vault_state.data.owner
    }

    /// The first reason, if there is one, to turn down a deposit of `amount`,
    /// where `resolved` says whether the vault sits at its derived address.
    pub open spec fn rejection(self, amount: u64, resolved: bool) -> Option<Failure> {
        if !self.authorized() {
            Some(Failure::Vault(VaultError::UnauthorizedUser))
        } else if !resolved {
            Some(Failure::AddressMismatch)
        } else if amount == 0 {
            Some(Failure::Vault(VaultError::ZeroDeposit))
        } else {
            None
        }
    }

    /// The vault's balance has room for `amount`.
    pub open spec fn fits(self, amount: u64) -> bool {
        self.vault_state.data.balance + amount <= u64::MAX
    }

    /// Whether a deposit of `amount` may be asked for: where it would be
    /// taken, the vault's balance has room for it.
    pub open spec fn callable(self, amount: u64) -> bool {
        self.rejection(amount, true) is None ==> self.fits(amount)
    }

    /// Says whether a deposit of `amount` may be asked for.
    pub fn is_callable(&self, amount: u64) -> (ok: bool)
        ensures
            ok == self.callable(amount),
    {
        match self.check(amount, true) {
            Ok(_) => self.vault_state.data.balance.checked_add(amount).is_some(),
            Err(_) => true,
        }
    }

    /// Tests a deposit of `amount` against the rules, without taking it:
    /// gives the first reason to turn it down, if there is one.
    pub fn check(&self, amount: u64, resolved: bool) -> (verdict: Result<(), Failure>)
        ensures
            match verdict {
                Ok(_) => self.rejection(amount, resolved) is None,
                Err(failure) => self.rejection(amount, resolved) == Some(failure),
            },
    {
        if let Err(e) = authorize(&self.user, &self.vault_state.data.owner) {
            return Err(Failure::Vault(e));
        }
        if !resolved {
            return Err(Failure::AddressMismatch);
        }
        if amount == 0 {
            return Err(Failure::Vault(VaultError::ZeroDeposit));
        }
        Ok(())
    }

    /// The accounts after a deposit of `amount` has been taken.
    pub open spec fn deposited(self, amount: u64) -> Self {
        Deposit {
            vault_state: Account {
                data: VaultState {
                    balance: (self.vault_state.data.balance + amount) as u64,
                    ..self.vault_state.data
                },
                ..self.vault_state
            },
            ..self
        }
    }

    /// The order that goes with a deposit of `amount`: the owner pays
    /// `amount` into the vault.
    pub open spec fn order(self, amount: u64) -> Transfer {
        Transfer { from: self.user, to: self.vault_state.key, lamports: amount }
    }
}

/// Takes a deposit of `amount` from the owner of a vault, given whether the
/// vault sits at its derived address.
///
/// The call is turned down, and nothing changes, unless the signer is the
/// vault's owner, the vault is resolved, and `amount` is positive. Otherwise
/// the vault's balance grows by `amount`. No receipt tokens are issued for
/// what the owner pays in.
pub fn deposit_given(ctx: &mut Deposit, amount: u64, resolved: bool) -> (result: Result<
    Transfer,
    Failure,
>)
    requires
        old(ctx).rejection(amount, resolved) is None ==> old(ctx).fits(amount),
    ensures
        match result {
            Ok(order) => {
                &&& old(ctx).rejection(amount, resolved) is None
                &&& *final(ctx) == old(ctx).deposited(amount)
                &&& order == old(ctx).order(amount)
            },
            Err(failure) => {
                &&& old(ctx).rejection(amount, resolved) == Some(failure)
                &&& *final(ctx) == *old(ctx)
            },
        },
        result is Ok ==> final(ctx).vault_state.data.balance == old(ctx).vault_state.data.balance
            + amount,
        result matches Ok(order) ==> order.lamports == amount,
{
    if let Err(e) = ctx.check(amount, resolved) {
        return Err(e);
    }
    let order = Transfer { from: ctx.user, to: ctx.vault_state.key, lamports: amount };
    ctx.vault_state.data.balance = ctx.vault_state.data.balance + amount;
    Ok(order)
}

/// Takes a deposit of `amount` from the owner of a vault.
///
/// Finds out whether the vault sits at the address derived for it, and goes
/// on as `deposit_given` does.
pub fn deposit(ctx: &mut Deposit, amount: u64) -> (result: Result<Transfer, Failure>)
    requires
        old(ctx).callable(amount),
    ensures
        match result {
            Ok(order) => {
                &&& old(ctx).rejection(amount, vault_resolves(old(ctx).vault_state)) is None
                &&& *final(ctx) == old(ctx).deposited(amount)
                &&& order == old(ctx).order(amount)
            },
            Err(failure) => {
                &&& old(ctx).rejection(amount, vault_resolves(old(ctx).vault_state)) == Some(
                    failure,
                )
                &&& *final(ctx) == *old(ctx)
            },
        },
        result is Ok ==> final(ctx).vault_state.data.balance == old(ctx).vault_state.data.balance
            + amount,
{
    let resolved = check_vault_address(&ctx.vault_state);
    deposit_given(ctx, amount, resolved)
}

} // verus!
