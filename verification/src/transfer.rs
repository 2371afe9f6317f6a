use vstd::prelude::*;
use crate::address::Address;
use crate::state::Wallet;

verus! {

/// An order to move native value out of an account that the program does not
/// own. The program cannot take the value itself: whoever runs the call
/// hands the order to the ledger, and the call counts only if the ledger
/// carries it out.
#[derive(Clone, Copy, Debug, PartialEq, Eq)]
pub struct Transfer {
    pub from: Address,
    pub to: Address,
    pub lamports: u64,
}

/// Whether `amount` can leave `from` and arrive at `to`: `from` holds it, and
/// `to` has room for it. Where both are one account nothing arrives, so no
/// room is needed.
pub open spec fn can_move(from: Wallet, to: Wallet, amount: u64) -> bool {
    &&& from.lamports >= amount
    &&& from.key != to.key ==> to.lamports + amount <= u64::MAX
}

/// Says whether `amount` can leave `from` and arrive at `to`.
pub fn has_room(from: &Wallet, to: &Wallet, amount: u64) -> (ok: bool)
    ensures
        ok == can_move(*from, *to, amount),
{
    from.lamports >= amount && (from.key == to.key || to.lamports.checked_add(amount).is_some())
}

/// The two accounts after `amount` has gone from the first to the second.
/// Where both are one account, what leaves it comes back to it.
pub open spec fn moved(from: Wallet, to: Wallet, amount: u64) -> (Wallet, Wallet) {
    if from.key == to.key {
        (from, to)
    } else {
        (
            Wallet { key: from.key, lamports: (from.lamports - amount) as u64 },
            Wallet { key: to.key, lamports: (to.lamports + amount) as u64 },
        )
    }
}

/// Moves `amount` of native value from an account that the program owns to
/// another account. Nothing is created and nothing is lost: between two
/// different accounts, the sum of what they hold stays the same.
pub fn move_lamports(from: Wallet, to: Wallet, amount: u64) -> (after: (Wallet, Wallet))
    requires
        can_move(from, to, amount),
    ensures
        after == moved(from, to, amount),
        after.0.key == from.key,
        after.1.key == to.key,
        from.key != to.key ==> after.0.lamports == from.lamports - amount,
        from.key != to.key ==> after.1.lamports == to.lamports + amount,
        after.0.lamports + after.1.lamports == from.lamports + to.lamports,
{
    if from.key == to.key {
        (from, to)
    } else {
        (
            Wallet { key: from.key, lamports: from.lamports - amount },
            Wallet { key: to.key, lamports: to.lamports + amount },
        )
    }
}

} // verus!
