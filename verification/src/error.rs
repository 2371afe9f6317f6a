use vstd::prelude::*;

verus! {

/// The reasons for which the vault's own rules turn a call down.
///
/// The order of the variants is fixed: the code of a variant is its position
/// in this list, counted from `ERROR_CODE_OFFSET`.
#[derive(Clone, Copy, Debug, PartialEq, Eq, Structural)]
pub enum VaultError {
    ZeroDeposit,
    UnauthorizedUser,
    WrongVault,
    InvalidDepositAmount,
    FundsStillLocked,
    NothingToWithdraw,
    NotEnoughFunds,
}

/// The first code that a `VaultError` can have.
pub const ERROR_CODE_OFFSET: u32 = 6000;

impl VaultError {
    /// Position of the variant in the declaration.
    pub open spec fn index(self) -> nat {
        match self {
            VaultError::ZeroDeposit => 0,
            VaultError::UnauthorizedUser => 1,
            VaultError::WrongVault => 2,
            VaultError::InvalidDepositAmount => 3,
            VaultError::FundsStillLocked => 4,
            VaultError::NothingToWithdraw => 5,
            VaultError::NotEnoughFunds => 6,
        }
    }

    /// The text that goes with the variant.
    pub open spec fn text(self) -> Seq<char> {
        match self {
            VaultError::ZeroDeposit => "Deposit amount must be greater than zero"@,
            VaultError::UnauthorizedUser => "You are not the owner of this vault"@,
            VaultError::WrongVault => "Depositor is not registered to this vault"@,
            VaultError::InvalidDepositAmount =>
                "Deposit must be a multiple of 0.1 SOL (100000000 lamports)"@,
            VaultError::FundsStillLocked =>
                "Funds are still locked, please wait until unlock time"@,
            VaultError::NothingToWithdraw => "Nothing to withdraw"@,
            VaultError::NotEnoughFunds => "Vault does not have enough funds"@,
        }
    }

    /// The stable numeric code under which the error is reported.
    pub fn code(&self) -> (code: u32)
        ensures
            code == ERROR_CODE_OFFSET + self.index(),
    {
        match self {
            VaultError::ZeroDeposit => ERROR_CODE_OFFSET,
            VaultError::UnauthorizedUser => ERROR_CODE_OFFSET + 1,
            VaultError::WrongVault => ERROR_CODE_OFFSET + 2,
            VaultError::InvalidDepositAmount => ERROR_CODE_OFFSET + 3,
            VaultError::FundsStillLocked => ERROR_CODE_OFFSET + 4,
            VaultError::NothingToWithdraw => ERROR_CODE_OFFSET + 5,
            VaultError::NotEnoughFunds => ERROR_CODE_OFFSET + 6,
        }
    }

    /// The fixed human-readable text of the error.
    pub fn message(&self) -> (text: &'static str)
        ensures
            text@ == self.text(),
    {
        match self {
            VaultError::ZeroDeposit => "Deposit amount must be greater than zero",
            VaultError::UnauthorizedUser => "You are not the owner of this vault",
            VaultError::WrongVault => "Depositor is not registered to this vault",
            VaultError::InvalidDepositAmount =>
                "Deposit must be a multiple of 0.1 SOL (100000000 lamports)",
            VaultError::FundsStillLocked =>
                "Funds are still locked, please wait until unlock time",
            VaultError::NothingToWithdraw => "Nothing to withdraw",
            VaultError::NotEnoughFunds => "Vault does not have enough funds",
        }
    }
}

/// Why a call was turned down: by one of the vault's own rules, or because
/// an account handed to the call is not the one the call is entitled to.
#[derive(Clone, Copy, Debug, PartialEq, Eq, Structural)]
pub enum Failure {
    /// One of the vault's rules refused the call.
    Vault(VaultError),
    /// An account does not sit at the address derived for it.
    AddressMismatch,
    /// The account to create is already there.
    AlreadyExists,
}

} // verus!
