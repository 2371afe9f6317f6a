use vstd::prelude::*;
use crate::address::bump_found_at;
use crate::address::Address;
use crate::error::Failure;
use crate::error::VaultError;
use crate::instructions::admin_transfer::AdminTransfer;
use crate::instructions::deposit::Deposit;
use crate::instructions::deposit_by_depositor::DepositByDepositor;
use crate::instructions::register::Register;
use crate::instructions::register_depositor::RegisterDepositor;
use crate::instructions::withdraw::Withdraw;
use crate::receipt::is_whole;
use crate::receipt::receipts;

verus! {

/// An owner's deposit that is taken adds exactly `amount` to the vault's
/// balance, and changes nothing else of the vault's record.
pub proof fn lemma_owner_deposit_adds_amount(ctx: Deposit, amount: u64, resolved: bool)
    requires
        ctx.rejection(amount, resolved) is None,
        ctx.fits(amount),
    ensures
        ctx.deposited(amount).vault_state.data.balance == ctx.vault_state.data.balance + amount,
        ctx.deposited(amount).vault_state.data.owner == ctx.vault_state.data.owner,
        ctx.deposited(amount).vault_state.data.lock_period == ctx.vault_state.data.lock_period,
{
}

/// A depositor's deposit that is taken adds exactly `amount` to the vault's
/// balance and to the locked amount, and issues `amount / price` receipt
/// tokens, which are also what the position is credited.
pub proof fn lemma_depositor_deposit_adds_amount(
    ctx: DepositByDepositor,
    amount: u64,
    now: i64,
    resolved: bool,
)
    requires
        ctx.rejection(amount, resolved) is None,
        ctx.fits(amount, now),
    ensures
        ctx.deposited(amount, now).vault_state.data.balance == ctx.vault_state.data.balance
            + amount,
        ctx.deposited(amount, now).depositor_state.data.locked_amount
            == ctx.depositor_state.data.locked_amount + amount,
        ctx.orders(amount).mint_to.amount == amount / crate::state::LP_PRICE_IN_LAMPORTS,
        ctx.deposited(amount, now).depositor_state.data.lp_amount
            == ctx.depositor_state.data.lp_amount + ctx.orders(amount).mint_to.amount,
        ctx.orders(amount).transfer.lamports == amount,
{
}

/// A registration that was accepted cannot be repeated: on the accounts as
/// the first registration left them, the second is refused because the vault
/// is already there.
pub proof fn lemma_register_again_is_refused(
    ctx: Register,
    vault: Option<(Address, u8)>,
    lp_mint: Option<(Address, u8)>,
)
    requires
        ctx.rejection(vault, lp_mint) is None,
    ensures
        ctx.registered(
            bump_found_at(vault, ctx.vault_state.key).unwrap(),
            bump_found_at(lp_mint, ctx.lp_mint.key).unwrap(),
        ).rejection(vault, lp_mint) == Some(Failure::AlreadyExists),
{
}

/// Where a vault is kept at the address derived for the user's vault,
/// registration is refused because the vault is already there.
pub proof fn lemma_existing_vault_is_kept(
    ctx: Register,
    vault: Option<(Address, u8)>,
    lp_mint: Option<(Address, u8)>,
)
    requires
        bump_found_at(vault, ctx.vault_state.key) is Some,
        ctx.vault_state.data is Some,
    ensures
        ctx.rejection(vault, lp_mint) == Some(Failure::AlreadyExists),
{
}

/// A depositor's registration that was accepted cannot be repeated.
pub proof fn lemma_register_depositor_again_is_refused(
    ctx: RegisterDepositor,
    position: Option<(Address, u8)>,
    vault_resolved: bool,
)
    requires
        ctx.rejection(position, vault_resolved) is None,
    ensures
        ctx.registered(
            bump_found_at(position, ctx.depositor_state.key).unwrap(),
        ).rejection(position, vault_resolved) == Some(Failure::AlreadyExists),
{
}

/// A user's vault has one address: two registrations for one user that are
/// accepted speak of one and the same vault account, and of one and the same
/// mint.
pub proof fn lemma_one_vault_per_owner(a: Register, b: Register)
    requires
        a.user == b.user,
        a.rejection(a.vault_address(), a.mint_address()) is None,
        b.rejection(b.vault_address(), b.mint_address()) is None,
    ensures
        a.vault_state.key == b.vault_state.key,
        a.lp_mint.key == b.lp_mint.key,
{
}

/// A depositor's position with a vault has one address: two registrations of
/// one depositor with one vault's owner that are accepted speak of one and
/// the same position account.
pub proof fn lemma_one_position_per_depositor_and_vault(
    a: RegisterDepositor,
    b: RegisterDepositor,
    a_resolved: bool,
    b_resolved: bool,
)
    requires
        a.depositor == b.depositor,
        a.vault_state.data.owner == b.vault_state.data.owner,
        a.rejection(a.position_address(), a_resolved) is None,
        b.rejection(b.position_address(), b_resolved) is None,
    ensures
        a.depositor_state.key == b.depositor_state.key,
{
}

/// From the depositor of a position that belongs to the vault, with the
/// accounts at their derived addresses, an amount that is not a whole number
/// of receipt-token prices is refused as an invalid deposit amount.
pub proof fn lemma_deposit_must_be_whole(ctx: DepositByDepositor, amount: u64)
    requires
        ctx.authorized(),
        ctx.linked(),
        !is_whole(amount),
    ensures
        ctx.rejection(amount, true) == Some(Failure::Vault(VaultError::InvalidDepositAmount)),
{
}

/// For the depositor of a position that belongs to the vault, with the
/// accounts at their derived addresses, a withdrawal is accepted exactly when
/// something is locked and the lock has run out. Before that it is refused
/// because the funds are still locked; with the lock run out and nothing
/// locked, because there is nothing to withdraw.
pub proof fn lemma_withdraw_when_unlockable(ctx: Withdraw, now: i64)
    requires
        ctx.authorized(),
        ctx.linked(),
    ensures
        ctx.rejection(now, true) is None <==> ctx.depositor_state.data.locked_amount > 0 && now
            >= ctx.depositor_state.data.unlock_time,
        ctx.rejection(now, true) is None <==> ctx.depositor_state.data.unlockable(now),
        now < ctx.depositor_state.data.unlock_time ==> ctx.rejection(now, true) == Some(
            Failure::Vault(VaultError::FundsStillLocked),
        ),
        now >= ctx.depositor_state.data.unlock_time && ctx.depositor_state.data.locked_amount == 0
            ==> ctx.rejection(now, true) == Some(Failure::Vault(VaultError::NothingToWithdraw)),
{
}

/// After a withdrawal the position is empty: nothing locked, no receipt
/// tokens, no times set. It is idle, and it keeps the coupling of principal
/// and receipt tokens.
pub proof fn lemma_withdrawal_empties_the_position(ctx: Withdraw)
    ensures
        ctx.withdrawn().depositor_state.data.locked_amount == 0,
        ctx.withdrawn().depositor_state.data.lp_amount == 0,
        ctx.withdrawn().depositor_state.data.deposit_time == 0,
        ctx.withdrawn().depositor_state.data.unlock_time == 0,
        ctx.withdrawn().depositor_state.data.idle(),
        ctx.withdrawn().depositor_state.data.wf(),
        ctx.withdrawn().depositor_state.data.depositor == ctx.depositor_state.data.depositor,
        ctx.withdrawn().depositor_state.data.vault_owner == ctx.depositor_state.data.vault_owner,
{
}

/// A second deposit sets the lock anew for the whole position: after it, the
/// lock ends one lock period after the second deposit, however long the
/// first lock still had to run, while the locked amount and the receipt
/// tokens are the sums of both deposits.
pub proof fn lemma_second_deposit_restarts_the_lock(
    ctx: DepositByDepositor,
    first: u64,
    first_time: i64,
    second: u64,
    second_time: i64,
)
    requires
        ctx.rejection(first, true) is None,
        ctx.fits(first, first_time),
        ctx.deposited(first, first_time).fits(second, second_time),
        second > 0,
        is_whole(second),
    ensures
        ctx.deposited(first, first_time).rejection(second, true) is None,
        ctx.deposited(first, first_time).deposited(
            second,
            second_time,
        ).depositor_state.data.unlock_time == second_time + ctx.vault_state.data.lock_period,
        ctx.deposited(first, first_time).deposited(
            second,
            second_time,
        ).depositor_state.data.deposit_time == second_time,
        ctx.deposited(first, first_time).deposited(
            second,
            second_time,
        ).depositor_state.data.locked_amount == ctx.depositor_state.data.locked_amount + first
            + second,
        ctx.deposited(first, first_time).deposited(
            second,
            second_time,
        ).depositor_state.data.lp_amount == ctx.depositor_state.data.lp_amount + receipts(first)
            + receipts(second),
        ctx.deposited(first, first_time).deposited(
            second,
            second_time,
        ).vault_state.data.balance == ctx.vault_state.data.balance + first + second,
{
}

/// A deposit starts the lock: with a positive lock period the position is
/// locked at the time of the deposit, and it can be withdrawn from the end
/// of the lock period on.
pub proof fn lemma_deposit_locks_the_position(
    ctx: DepositByDepositor,
    amount: u64,
    now: i64,
    later: i64,
)
    requires
        ctx.rejection(amount, true) is None,
        ctx.fits(amount, now),
    ensures
        ctx.vault_state.data.lock_period > 0 ==> ctx.deposited(
            amount,
            now,
        ).depositor_state.data.locked(now),
        later >= now + ctx.vault_state.data.lock_period ==> ctx.deposited(
            amount,
            now,
        ).depositor_state.data.unlockable(later),
        later < now + ctx.vault_state.data.lock_period ==> ctx.deposited(
            amount,
            now,
        ).depositor_state.data.locked(later),
{
}

/// The coupling of principal and receipt tokens is kept by a deposit.
pub proof fn lemma_deposit_keeps_the_coupling(ctx: DepositByDepositor, amount: u64, now: i64)
    requires
        ctx.depositor_state.data.wf(),
        ctx.rejection(amount, true) is None,
        ctx.fits(amount, now),
    ensures
        ctx.deposited(amount, now).depositor_state.data.wf(),
{
}

/// From the owner of a vault at its derived address, a transfer of more than
/// the vault's balance is refused for want of funds; a positive amount that
/// the balance covers is accepted. Then the balance falls by exactly
/// `amount`, and, unless the destination is the vault's own account, the
/// destination gains exactly `amount` and the vault's account loses it: what
/// the two accounts hold together stays the same.
pub proof fn lemma_admin_transfer_conserves_value(ctx: AdminTransfer, amount: u64)
    requires
        ctx.authorized(),
    ensures
        amount > ctx.vault_state.data.balance ==> ctx.rejection(amount, true) == Some(
            Failure::Vault(VaultError::NotEnoughFunds),
        ),
        0 < amount <= ctx.vault_state.data.balance ==> ctx.rejection(amount, true) is None,
        0 < amount <= ctx.vault_state.data.balance && ctx.fits(amount) ==> {
            &&& ctx.transferred(amount).vault_state.data.balance == ctx.vault_state.data.balance
                - amount
            &&& ctx.transferred(amount).vault_state.lamports + ctx.transferred(
                amount,
            ).destination.lamports == ctx.vault_state.lamports + ctx.destination.lamports
            &&& ctx.destination.key != ctx.vault_state.key ==> {
                &&& ctx.transferred(amount).destination.lamports == ctx.destination.lamports
                    + amount
                &&& ctx.transferred(amount).vault_state.lamports == ctx.vault_state.lamports
                    - amount
            }
        },
{
}

/// A withdrawal takes from the vault exactly what it gives to the depositor:
/// the balance falls by the locked amount, and, unless the depositor's
/// account is the vault's own, the depositor gains exactly the locked amount
/// and the vault's account loses it.
pub proof fn lemma_withdrawal_conserves_value(ctx: Withdraw)
    requires
        ctx.fits(),
    ensures
        ctx.withdrawn().vault_state.data.balance == ctx.vault_state.data.balance
            - ctx.depositor_state.data.locked_amount,
        ctx.withdrawn().vault_state.lamports + ctx.withdrawn().depositor.lamports
            == ctx.vault_state.lamports + ctx.depositor.lamports,
        ctx.depositor.key != ctx.vault_state.key ==> {
            &&& ctx.withdrawn().depositor.lamports == ctx.depositor.lamports
                + ctx.depositor_state.data.locked_amount
            &&& ctx.withdrawn().vault_state.lamports == ctx.vault_state.lamports
                - ctx.depositor_state.data.locked_amount
        },
{
}

/// A signer who is not the owner on record is refused as unauthorized,
/// whatever the amount and wherever the vault sits: both for a deposit into
/// the vault and for a transfer out of it.
pub proof fn lemma_stranger_cannot_act_as_owner(
    deposit: Deposit,
    transfer: AdminTransfer,
    amount: u64,
    resolved: bool,
)
    ensures
        deposit.user != deposit.vault_state.data.owner ==> deposit.rejection(amount, resolved)
            == Some(Failure::Vault(VaultError::UnauthorizedUser)),
        transfer.owner != transfer.vault_state.data.owner ==> transfer.rejection(amount, resolved)
            == Some(Failure::Vault(VaultError::UnauthorizedUser)),
{
}

/// A signer who is not the depositor on record in the position is refused
/// as unauthorized, whatever else holds: both for a deposit and for a
/// withdrawal.
pub proof fn lemma_stranger_cannot_act_as_depositor(
    deposit: DepositByDepositor,
    withdrawal: Withdraw,
    amount: u64,
    now: i64,
    resolved: bool,
)
    ensures
        deposit.depositor != deposit.depositor_state.data.depositor ==> deposit.rejection(
            amount,
            resolved,
        ) == Some(Failure::Vault(VaultError::UnauthorizedUser)),
        withdrawal.depositor.key != withdrawal.depositor_state.data.depositor
            ==> withdrawal.rejection(now, resolved) == Some(
            Failure::Vault(VaultError::UnauthorizedUser),
        ),
{
}

/// A call by the depositor of a position that belongs to another vault than
/// the one handed to the call is refused for the wrong vault: both for a
/// deposit and for a withdrawal.
pub proof fn lemma_position_of_another_vault_is_refused(
    deposit: DepositByDepositor,
    withdrawal: Withdraw,
    amount: u64,
    now: i64,
    resolved: bool,
)
    ensures
        deposit.authorized() && deposit.depositor_state.data.vault_owner
            != deposit.vault_state.data.owner ==> deposit.rejection(amount, resolved) == Some(
            Failure::Vault(VaultError::WrongVault),
        ),
        withdrawal.authorized() && withdrawal.depositor_state.data.vault_owner
            != withdrawal.vault_state.data.owner ==> withdrawal.rejection(now, resolved) == Some(
            Failure::Vault(VaultError::WrongVault),
        ),
{
}

} // verus!
