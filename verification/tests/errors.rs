use vault::error::Failure;
use vault::error::VaultError;
use vault::error::ERROR_CODE_OFFSET;

#[test]
fn codes_count_from_the_offset_in_order() {
    assert_eq!(ERROR_CODE_OFFSET, 6000);
    assert_eq!(VaultError::ZeroDeposit.code(), 6000);
    assert_eq!(VaultError::UnauthorizedUser.code(), 6001);
    assert_eq!(VaultError::WrongVault.code(), 6002);
    assert_eq!(VaultError::InvalidDepositAmount.code(), 6003);
    assert_eq!(VaultError::FundsStillLocked.code(), 6004);
    assert_eq!(VaultError::NothingToWithdraw.code(), 6005);
    assert_eq!(VaultError::NotEnoughFunds.code(), 6006);
}

#[test]
fn messages_are_fixed() {
    assert_eq!(VaultError::ZeroDeposit.message(), "Deposit amount must be greater than zero");
    assert_eq!(VaultError::UnauthorizedUser.message(), "You are not the owner of this vault");
    assert_eq!(VaultError::WrongVault.message(), "Depositor is not registered to this vault");
    assert_eq!(
        VaultError::InvalidDepositAmount.message(),
        "Deposit must be a multiple of 0.1 SOL (100000000 lamports)"
    );
    assert_eq!(
        VaultError::FundsStillLocked.message(),
        "Funds are still locked, please wait until unlock time"
    );
    assert_eq!(VaultError::NothingToWithdraw.message(), "Nothing to withdraw");
    assert_eq!(VaultError::NotEnoughFunds.message(), "Vault does not have enough funds");
}

#[test]
fn failures_tell_rules_from_accounts() {
    assert_ne!(Failure::Vault(VaultError::ZeroDeposit), Failure::AddressMismatch);
    assert_ne!(Failure::AddressMismatch, Failure::AlreadyExists);
    assert_eq!(
        Failure::Vault(VaultError::NotEnoughFunds),
        Failure::Vault(VaultError::NotEnoughFunds)
    );
}
