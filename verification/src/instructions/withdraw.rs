use vstd::prelude::*;
use crate::address::authorize;
use crate::address::authorize_link;
use crate::address::Address;
use crate::error::Failure;
use crate::error::VaultError;
use crate::receipt::Burn;
use crate::receipt::MintAuthority;
use crate::state::check_mint_address;
use crate::state::check_position_address;
use crate::state::check_vault_address;
use crate::state::mint_resolves;
use crate::state::position_resolves;
use crate::state::vault_resolves;
use crate::state::Account;
use crate::state::DepositorState;
use crate::state::Mint;
use crate::state::VaultState;
use crate::state::Wallet;
use crate::transfer::can_move;
use crate::transfer::has_room;
use crate::transfer::move_lamports;
use crate::transfer::moved;

verus! {

/// The accounts of a withdrawal.
#[derive(Clone, Copy, Debug, PartialEq, Eq)]
pub struct Withdraw {
    /// The signer of the call, who receives the principal.
    pub depositor: Wallet,
    /// The position that is withdrawn.
    pub depositor_state: Account<DepositorState>,
    /// The vault that pays the principal back.
    pub vault_state: Account<VaultState>,
    /// The mint of the vault's receipt tokens.
    pub lp_mint: Account<Mint>,
    /// The token account that the receipt tokens are redeemed from.
    pub depositor_token_account: Address,
}

impl Withdraw {
    /// The signer is the depositor on record in the position.
    pub open spec fn authorized(self) -> bool {
        self.depositor.key == self.depositor_state.data.depositor
    }

    /// The position belongs to the vault handed to the call.
    pub open spec fn linked(self) -> bool {
        self.depositor_state.data.vault_owner == self.vault_state.data.owner
    }

    /// Position, vault and mint sit at their derived addresses.
    pub open spec fn resolved(self) -> bool {
        &&& position_resolves(self.depositor_state)
        &&& vault_resolves(self.vault_state)
        &&& mint_resolves(self.lp_mint.key, self.vault_state.data)
    }

    /// The first reason, if there is one, to turn down a withdrawal at `now`,
    /// where `resolved` says whether the accounts sit at their derived
    /// addresses.
    pub open spec fn rejection(self, now: i64, resolved: bool) -> Option<Failure> {
        if !self.authorized() {
            Some(Failure::Vault(VaultError::UnauthorizedUser))
        } else if !self.linked() {
            Some(Failure::Vault(VaultError::WrongVault))
        } else if !resolved {
            Some(Failure::AddressMismatch)
        } else if now < self.depositor_state.data.unlock_time {
            Some(Failure::Vault(VaultError::FundsStillLocked))
        } else if self.depositor_state.data.locked_amount == 0 {
            Some(Failure::Vault(VaultError::NothingToWithdraw))
        } else {
            None
        }
    }

    /// The vault can pay the locked amount: its balance covers it, and the
    /// native value can go from the vault's account to the depositor's.
    pub open spec fn fits(self) -> bool {
        &&& self.vault_state.data.balance >= self.depositor_state.data.locked_amount
        &&& can_move(
            self.vault_state.wallet(),
            self.depositor,
            self.depositor_state.data.locked_amount,
        )
    }

    /// Whether a withdrawal at `now` may be asked for: where it would be
    /// made, the vault can pay the locked amount.
    pub open spec fn callable(self, now: i64) -> bool {
        self.rejection(now, true) is None ==> self.fits()
    }

    /// Says whether a withdrawal at `now` may be asked for.
    pub fn is_callable(&self, now: i64) -> (ok: bool)
        ensures
            ok == self.callable(now),
    {
        match self.check(now, true) {
            Ok(_) => {
                let locked_amount = self.depositor_state.data.locked_amount;
                self.vault_state.data.balance >= locked_amount && has_room(
                    &self.vault_state.as_wallet(),
                    &self.depositor,
                    locked_amount,
                )
            },
            Err(_) => true,
        }
    }

    /// Tests a withdrawal at `now` against the rules, without making it:
    /// gives the first reason to turn it down, if there is one.
    pub fn check(&self, now: i64, resolved: bool) -> (verdict: Result<(), Failure>)
        ensures
            match verdict {
                Ok(_) => self.rejection(now, resolved) is None,
                Err(failure) => self.rejection(now, resolved) == Some(failure),
            },
    {
        if let Err(e) = authorize(&self.depositor.key, &self.depositor_state.data.depositor) {
            return Err(Failure::Vault(e));
        }
        if let Err(e) = authorize_link(
            &self.depositor_state.data.vault_owner,
            &self.vault_state.data.owner,
        ) {
            return Err(Failure::Vault(e));
        }
        if !resolved {
            return Err(Failure::AddressMismatch);
        }
        if now < self.depositor_state.data.unlock_time {
            return Err(Failure::Vault(VaultError::FundsStillLocked));
        }
        if self.depositor_state.data.locked_amount == 0 {
            return Err(Failure::Vault(VaultError::NothingToWithdraw));
        }
        Ok(())
    }

    /// The accounts after the withdrawal: the locked amount has gone from the
    /// vault's account to the depositor's and has left the vault's balance,
    /// and the position is as it was when it was registered.
    pub open spec fn withdrawn(self) -> Self {
        let locked_amount = self.depositor_state.data.locked_amount;
        let (vault, depositor) = moved(self.vault_state.wallet(), self.depositor, locked_amount);
        Withdraw {
            depositor,
            vault_state: Account {
                lamports: vault.lamports,
                data: VaultState {
                    balance: (self.vault_state.data.balance - locked_amount) as u64,
                    ..self.vault_state.data
                },
                ..self.vault_state
            },
            depositor_state: Account {
                data: DepositorState {
                    locked_amount: 0,
                    lp_amount: 0,
                    deposit_time: 0,
                    unlock_time: 0,
                    ..self.depositor_state.data
                },
                ..self.depositor_state
            },
            ..self
        }
    }

    /// The order that goes with the withdrawal: the mint, signing for itself,
    /// redeems all the receipt tokens of the position.
    pub open spec fn order(self) -> Burn {
        Burn {
            mint: self.lp_mint.key,
            from: self.depositor_token_account,
            authority: self.lp_mint.key,
            amount: self.depositor_state.data.lp_amount,
            signer: MintAuthority {
                vault_owner: self.vault_state.data.owner,
                bump: self.vault_state.data.lp_mint_bump,
            },
        }
    }
}

/// Pays a position back to its depositor at the time `now`, given whether
/// the accounts sit at their derived addresses.
///
/// The call is turned down, and nothing changes, unless the signer is the
/// position's depositor, the position belongs to the vault, the accounts are
/// resolved, the lock has run out at `now`, and something is locked.
/// Otherwise the whole locked amount goes from the vault's account to the
/// depositor's and leaves the vault's balance, all receipt tokens of the
/// position are redeemed, and the position is empty again.
pub fn withdraw_given(ctx: &mut Withdraw, now: i64, resolved: bool) -> (result: Result<
    Burn,
    Failure,
>)
    requires
        old(ctx).rejection(now, resolved) is None ==> old(ctx).fits(),
    ensures
        match result {
            Ok(order) => {
                &&& old(ctx).rejection(now, resolved) is None
                &&& *final(ctx) == old(ctx).withdrawn()
                &&& order == old(ctx).order()
            },
            Err(failure) => {
                &&& old(ctx).rejection(now, resolved) == Some(failure)
                &&& *final(ctx) == *old(ctx)
            },
        },
        result is Ok ==> {
            &&& final(ctx).depositor_state.data.locked_amount == 0
            &&& final(ctx).depositor_state.data.lp_amount == 0
            &&& final(ctx).depositor_state.data.deposit_time == 0
            &&& final(ctx).depositor_state.data.unlock_time == 0
            &&& final(ctx).vault_state.data.balance
                == old(ctx).vault_state.data.balance - old(ctx).depositor_state.data.locked_amount
            &&& final(ctx).vault_state.lamports + final(ctx).depositor.lamports
                == old(ctx).vault_state.lamports + old(ctx).depositor.lamports
        },
        result is Ok && old(ctx).depositor.key != old(ctx).vault_state.key ==> {
            &&& final(ctx).depositor.lamports
                == old(ctx).depositor.lamports + old(ctx).depositor_state.data.locked_amount
            &&& final(ctx).vault_state.lamports
                == old(ctx).vault_state.lamports - old(ctx).depositor_state.data.locked_amount
        },
        result matches Ok(order) ==> order.amount == old(ctx).depositor_state.data.lp_amount,
        old(ctx).depositor_state.data.wf() ==> final(ctx).depositor_state.data.wf(),
{
    if let Err(e) = ctx.check(now, resolved) {
        return Err(e);
    }
    let locked_amount = ctx.depositor_state.data.locked_amount;
    let lp_amount = ctx.depositor_state.data.lp_amount;
    let order = Burn {
        mint: ctx.lp_mint.key,
        from: ctx.depositor_token_account,
        authority: ctx.lp_mint.key,
        amount: lp_amount,
        signer: MintAuthority {
            vault_owner: ctx.vault_state.data.owner,
            bump: ctx.vault_state.data.lp_mint_bump,
        },
    };

    let (vault, depositor) = move_lamports(
        ctx.vault_state.as_wallet(),
        ctx.depositor,
        locked_amount,
    );
    ctx.vault_state.lamports = vault.lamports;
    ctx.depositor = depositor;

    ctx.vault_state.data.balance = ctx.vault_state.data.balance - locked_amount;

    ctx.depositor_state.data.locked_amount = 0;
    ctx.depositor_state.data.lp_amount = 0;
    ctx.depositor_state.data.deposit_time = 0;
    ctx.depositor_state.data.unlock_time = 0;
    Ok(order)
}

/// Pays a position back to its depositor at the time `now`.
///
/// Finds out whether position, vault and mint sit at the addresses derived
/// for them, and goes on as `withdraw_given` does.
pub fn withdraw(ctx: &mut Withdraw, now: i64) -> (result: Result<Burn, Failure>)
    requires
        old(ctx).callable(now),
    ensures
        match result {
            Ok(order) => {
                &&& old(ctx).rejection(now, old(ctx).resolved()) is None
                &&& *final(ctx) == old(ctx).withdrawn()
                &&& order == old(ctx).order()
            },
            Err(failure) => {
                &&& old(ctx).rejection(now, old(ctx).resolved()) == Some(failure)
                &&& *final(ctx) == *old(ctx)
            },
        },
        result is Ok ==> {
            &&& final(ctx).depositor_state.data.locked_amount == 0
            &&& final(ctx).depositor_state.data.lp_amount == 0
            &&& final(ctx).depositor_state.data.deposit_time == 0
            &&& final(ctx).depositor_state.data.unlock_time == 0
        },
        old(ctx).depositor_state.data.wf() ==> final(ctx).depositor_state.data.wf(),
{
    let resolved = check_position_address(&ctx.depositor_state) && check_vault_address(
        &ctx.vault_state,
    ) && check_mint_address(&ctx.lp_mint.key, &ctx.vault_state.data);
    withdraw_given(ctx, now, resolved)
}

} // verus!
