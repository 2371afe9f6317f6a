use vstd::prelude::*;
use crate::address::authorize;
use crate::address::authorize_link;
use crate::address::Address;
use crate::error::Failure;
use crate::error::VaultError;
use crate::receipt::is_whole;
use crate::receipt::is_whole_amount;
use crate::receipt::receipts;
use crate::receipt::receipts_for;
use crate::receipt::MintAuthority;
use crate::receipt::MintTo;
use crate::state::check_mint_address;
use crate::state::check_position_address;
use crate::state::check_vault_address;
use crate::state::mint_resolves;
use crate::state::position_resolves;
use crate::state::vault_resolves;
use crate::state::Account;
use crate::state::DepositorState;
use crate::state::Mint;
use crate::state::VaultState;
use crate::state::LP_PRICE_IN_LAMPORTS;
use crate::transfer::Transfer;

verus! {

/// The accounts of a depositor's deposit.
#[derive(Clone, Copy, Debug, PartialEq, Eq)]
pub struct DepositByDepositor {
    /// The signer of the call.
    pub depositor: Address,
    /// The position that the deposit is added to.
    pub depositor_state: Account<DepositorState>,
    /// The vault that receives the deposit.
    pub vault_state: Account<VaultState>,
    /// The mint of the vault's receipt tokens.
    pub lp_mint: Account<Mint>,
    /// The token account that the receipt tokens go to.
    pub depositor_token_account: Address,
}

/// What the ledger has to carry out for a depositor's deposit to count: the
/// payment into the vault, and the issue of the receipt tokens.
#[derive(Clone, Copy, Debug, PartialEq, Eq)]
pub struct DepositOrders {
    pub transfer: Transfer,
    pub mint_to: MintTo,
}

impl DepositByDepositor {
    /// The signer is the depositor on record in the position.
    pub open spec fn authorized(self) -> bool {
        self.depositor == self.depositor_state.data.depositor
    }

    /// The position belongs to the vault handed to the call.
    pub open spec fn linked(self) -> bool {
        self.depositor_state.data.vault_owner == self.vault_state.data.owner
    }

    /// Position, vault and mint sit at their derived addresses.
    pub open spec fn resolved(self) -> bool {
        &&& position_resolves(self.depositor_state)
        &&& vault_resolves(self.vault_state)
        &&& mint_resolves(self.lp_mint.key, self.vault_state.data)
    }

    /// The first reason, if there is one, to turn down a deposit of `amount`,
    /// where `resolved` says whether the accounts sit at their derived
    /// addresses.
    pub open spec fn rejection(self, amount: u64, resolved: bool) -> Option<Failure> {
        if !self.authorized() {
            Some(Failure::Vault(VaultError::UnauthorizedUser))
        } else if !self.linked() {
            Some(Failure::Vault(VaultError::WrongVault))
        } else if !resolved {
            Some(Failure::AddressMismatch)
        } else if amount == 0 {
            Some(Failure::Vault(VaultError::ZeroDeposit))
        } else if !is_whole(amount) {
            Some(Failure::Vault(VaultError::InvalidDepositAmount))
        } else {
            None
        }
    }

    /// The sums that a deposit of `amount` at `now` forms fit their types.
    pub open spec fn fits(self, amount: u64, now: i64) -> bool {
        &&& self.vault_state.data.balance + amount <= u64::MAX
        &&& self.depositor_state.data.locked_amount + amount <= u64::MAX
        &&& self.depositor_state.data.lp_amount + receipts(amount) <= u64::MAX
        &&& i64::MIN <= now + self.vault_state.data.lock_period <= i64::MAX
    }

    /// Whether a deposit of `amount` at `now` may be asked for: where it
    /// would be taken, the sums it forms fit their types.
    pub open spec fn callable(self, amount: u64, now: i64) -> bool {
        self.rejection(amount, true) is None ==> self.fits(amount, now)
    }

    /// Says whether a deposit of `amount` at `now` may be asked for.
    pub fn is_callable(&self, amount: u64, now: i64) -> (ok: bool)
        ensures
            ok == self.callable(amount, now),
    {
        match self.check(amount, true) {
            Ok(_) => {
                self.vault_state.data.balance.checked_add(amount).is_some()
                    && self.depositor_state.data.locked_amount.checked_add(amount).is_some()
                    && self.depositor_state.data.lp_amount.checked_add(
                    receipts_for(amount),
                ).is_some() && now.checked_add(self.vault_state.data.lock_period).is_some()
            },
            Err(_) => true,
        }
    }

    /// Tests a deposit of `amount` against the rules, without taking it:
    /// gives the first reason to turn it down, if there is one.
    pub fn check(&self, amount: u64, resolved: bool) -> (verdict: Result<(), Failure>)
        ensures
            match verdict {
                Ok(_) => self.rejection(amount, resolved) is None,
                Err(failure) => self.rejection(amount, resolved) == Some(failure),
            },
    {
        if let Err(e) = authorize(&self.depositor, &self.depositor_state.data.depositor) {
            return Err(Failure::Vault(e));
        }
        if let Err(e) = authorize_link(
            &self.depositor_state.data.vault_owner,
            &self.vault_state.data.owner,
        ) {
            return Err(Failure::Vault(e));
        }
        if !resolved {
            return Err(Failure::AddressMismatch);
        }
        if amount == 0 {
            return Err(Failure::Vault(VaultError::ZeroDeposit));
        }
        if !is_whole_amount(amount) {
            return Err(Failure::Vault(VaultError::InvalidDepositAmount));
        }
        Ok(())
    }

    /// The accounts after a deposit of `amount` at `now` has been taken: the
    /// vault's balance and the position's principal and receipt tokens grow,
    /// and the lock of the whole position starts anew at `now`.
    pub open spec fn deposited(self, amount: u64, now: i64) -> Self {
        DepositByDepositor {
            vault_state: Account {
                data: VaultState {
                    balance: (self.vault_state.data.balance + amount) as u64,
                    ..self.vault_state.data
                },
                ..self.vault_state
            },
            depositor_state: Account {
                data: DepositorState {
                    deposit_time: now,
                    unlock_time: (now + self.vault_state.data.lock_period) as i64,
                    locked_amount: (self.depositor_state.data.locked_amount + amount) as u64,
                    lp_amount: (self.depositor_state.data.lp_amount + receipts(amount)) as u64,
                    ..self.depositor_state.data
                },
                ..self.depositor_state
            },
            ..self
        }
    }

    /// The orders that go with a deposit of `amount`: `amount` is paid by the
    /// depositor into the vault, and the mint, signing for itself, issues one
    /// receipt token for each whole price in `amount`.
    pub open spec fn orders(self, amount: u64) -> DepositOrders {
        DepositOrders {
            transfer: Transfer {
                from: self.depositor,
                to: self.vault_state.key,
                lamports: amount,
            },
            mint_to: MintTo {
                mint: self.lp_mint.key,
                to: self.depositor_token_account,
                authority: self.lp_mint.key,
                amount: receipts(amount),
                signer: MintAuthority {
                    vault_owner: self.vault_state.data.owner,
                    bump: self.vault_state.data.lp_mint_bump,
                },
            },
        }
    }
}

/// Takes a deposit of `amount` from a depositor at the time `now`, given
/// whether the accounts sit at their derived addresses.
///
/// The call is turned down, and nothing changes, unless the signer is the
/// position's depositor, the position belongs to the vault, the accounts are
/// resolved, and `amount` is positive and a whole number of receipt-token
/// prices. Otherwise the vault's balance and the locked amount grow by
/// `amount`, the position is credited one receipt token for each token price
/// in `amount`, and the lock is set anew for the whole position: it ends one
/// lock period after `now`, whatever it was before.
pub fn deposit_by_depositor_given(
    ctx: &mut DepositByDepositor,
    amount: u64,
    now: i64,
    resolved: bool,
) -> (result: Result<DepositOrders, Failure>)
    requires
        old(ctx).rejection(amount, resolved) is None ==> old(ctx).fits(amount, now),
    ensures
        match result {
            Ok(orders) => {
                &&& old(ctx).rejection(amount, resolved) is None
                &&& *final(ctx) == old(ctx).deposited(amount, now)
                &&& orders == old(ctx).orders(amount)
            },
            Err(failure) => {
                &&& old(ctx).rejection(amount, resolved) == Some(failure)
                &&& *final(ctx) == *old(ctx)
            },
        },
        result is Ok ==> {
            &&& final(ctx).vault_state.data.balance == old(ctx).vault_state.data.balance + amount
            &&& final(ctx).depositor_state.data.locked_amount
                == old(ctx).depositor_state.data.locked_amount + amount
            &&& final(ctx).depositor_state.data.lp_amount == old(ctx).depositor_state.data.lp_amount
                + amount / LP_PRICE_IN_LAMPORTS
            &&& final(ctx).depositor_state.data.deposit_time == now
            &&& final(ctx).depositor_state.data.unlock_time
                == now + old(ctx).vault_state.data.lock_period
        },
        result matches Ok(orders) ==> {
            &&& orders.mint_to.amount == amount / LP_PRICE_IN_LAMPORTS
            &&& orders.transfer.lamports == amount
        },
        old(ctx).depositor_state.data.wf() ==> final(ctx).depositor_state.data.wf(),
{
    if let Err(e) = ctx.check(amount, resolved) {
        return Err(e);
    }
    let transfer = Transfer { from: ctx.depositor, to: ctx.vault_state.key, lamports: amount };
    let lock_period = ctx.vault_state.data.lock_period;
    let vault_owner = ctx.vault_state.data.owner;
    let lp_mint_bump = ctx.vault_state.data.lp_mint_bump;

    ctx.vault_state.data.balance = ctx.vault_state.data.balance + amount;

    ctx.depositor_state.data.deposit_time = now;
    ctx.depositor_state.data.unlock_time = now + lock_period;
    ctx.depositor_state.data.locked_amount = ctx.depositor_state.data.locked_amount + amount;

    let lp_to_mint = receipts_for(amount);
    ctx.depositor_state.data.lp_amount = ctx.depositor_state.data.lp_amount + lp_to_mint;

    let mint_to = MintTo {
        mint: ctx.lp_mint.key,
        to: ctx.depositor_token_account,
        authority: ctx.lp_mint.key,
        amount: lp_to_mint,
        signer: MintAuthority { vault_owner, bump: lp_mint_bump },
    };
    Ok(DepositOrders { transfer, mint_to })
}

/// Takes a deposit of `amount` from a depositor at the time `now`.
///
/// Finds out whether position, vault and mint sit at the addresses derived
/// for them, and goes on as `deposit_by_depositor_given` does.
pub fn deposit_by_depositor(ctx: &mut DepositByDepositor, amount: u64, now: i64) -> (result:
    Result<DepositOrders, Failure>)
    requires
        old(ctx).callable(amount, now),
    ensures
        match result {
            Ok(orders) => {
                &&& old(ctx).rejection(amount, old(ctx).resolved()) is None
                &&& *final(ctx) == old(ctx).deposited(amount, now)
                &&& orders == old(ctx).orders(amount)
            },
            Err(failure) => {
                &&& old(ctx).rejection(amount, old(ctx).resolved()) == Some(failure)
                &&& *final(ctx) == *old(ctx)
            },
        },
        result is Ok ==> final(ctx).vault_state.data.balance == old(ctx).vault_state.data.balance
            + amount,
        result matches Ok(orders) ==> orders.mint_to.amount == amount / LP_PRICE_IN_LAMPORTS,
        old(ctx).depositor_state.data.wf() ==> final(ctx).depositor_state.data.wf(),
{
    let resolved = check_position_address(&ctx.depositor_state) && check_vault_address(
        &ctx.vault_state,
    ) && check_mint_address(&ctx.lp_mint.key, &ctx.vault_state.data);
    deposit_by_depositor_given(ctx, amount, now, resolved)
}

} // verus!
