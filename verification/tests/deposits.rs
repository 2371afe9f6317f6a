use vault::address::Address;
use vault::deposit;
use vault::deposit_by_depositor;
use vault::error::Failure;
use vault::error::VaultError;
use vault::instructions::deposit::deposit_given;
use vault::instructions::deposit_by_depositor::deposit_by_depositor_given;
use vault::instructions::deposit_by_depositor::DepositOrders;
use vault::address::derive_address;
use vault::address::Namespace;
use vault::receipt::MintAuthority;
use vault::receipt::MintTo;
use vault::state::Account;
use vault::state::DepositorState;
use vault::state::Mint;
use vault::state::VaultState;
use vault::transfer::Transfer;
use vault::Deposit;
use vault::DepositByDepositor;

const ZERO_DEPOSIT: Failure = Failure::Vault(VaultError::ZeroDeposit);
const UNAUTHORIZED: Failure = Failure::Vault(VaultError::UnauthorizedUser);
const WRONG_VAULT: Failure = Failure::Vault(VaultError::WrongVault);
const INVALID_AMOUNT: Failure = Failure::Vault(VaultError::InvalidDepositAmount);

fn key(byte: u8) -> Address {
    Address { bytes: [byte; 32] }
}

fn owner() -> Address {
    key(1)
}

fn depositor() -> Address {
    key(2)
}

/// A vault of the owner at its derived address, with a balance of 700.
fn vault() -> Account<VaultState> {
    let (vault_key, bump) = derive_address(Namespace::Vault, &vec![owner()]).unwrap();
    let (mint_key, lp_mint_bump) = derive_address(Namespace::LpMint, &vec![owner()]).unwrap();
    Account {
        key: vault_key,
        lamports: 1_000,
        data: VaultState {
            owner: owner(),
            balance: 700,
            bump,
            lp_mint: mint_key,
            lp_mint_bump,
            lock_period: 345_600,
        },
    }
}

fn mint() -> Account<Mint> {
    Account { key: vault().data.lp_mint, lamports: 10, data: Mint { supply: 0 } }
}

/// An empty position of the depositor with the owner's vault, at its derived
/// address.
fn position() -> Account<DepositorState> {
    let (position_key, bump) =
        derive_address(Namespace::Depositor, &vec![depositor(), owner()]).unwrap();
    Account {
        key: position_key,
        lamports: 10,
        data: DepositorState {
            depositor: depositor(),
            vault_owner: owner(),
            bump,
            deposit_time: 0,
            unlock_time: 0,
            locked_amount: 0,
            lp_amount: 0,
        },
    }
}

fn owner_deposit() -> Deposit {
    Deposit { user: owner(), vault_state: vault() }
}

fn depositor_deposit() -> DepositByDepositor {
    DepositByDepositor {
        depositor: depositor(),
        depositor_state: position(),
        vault_state: vault(),
        lp_mint: mint(),
        depositor_token_account: key(9),
    }
}

#[test]
fn owner_deposit_adds_the_amount_to_the_balance() {
    let before = owner_deposit();
    let mut ctx = before;
    let order = deposit(&mut ctx, 5);
    assert_eq!(order, Ok(Transfer { from: owner(), to: before.vault_state.key, lamports: 5 }));
    assert_eq!(ctx.vault_state.data.balance, 705);
    assert_eq!(ctx.vault_state.lamports, before.vault_state.lamports);
    assert_eq!(ctx.vault_state.key, before.vault_state.key);
    assert_eq!(ctx.user, before.user);
    let mut expected = before.vault_state.data;
    expected.balance = 705;
    assert_eq!(ctx.vault_state.data, expected);
}

#[test]
fn owner_deposit_need_not_be_whole() {
    let mut ctx = owner_deposit();
    assert!(deposit(&mut ctx, 250_000_001).is_ok());
    assert_eq!(ctx.vault_state.data.balance, 250_000_701);
}

#[test]
fn owner_deposit_can_fill_the_balance() {
    let mut ctx = owner_deposit();
    assert!(ctx.is_callable(u64::MAX - 700));
    assert!(deposit(&mut ctx, u64::MAX - 700).is_ok());
    assert_eq!(ctx.vault_state.data.balance, u64::MAX);
}

#[test]
fn owner_deposit_of_nothing_is_refused() {
    let before = owner_deposit();
    let mut ctx = before;
    assert_eq!(deposit(&mut ctx, 0), Err(ZERO_DEPOSIT));
    assert_eq!(ctx, before);
}

#[test]
fn owner_deposit_by_a_stranger_is_refused() {
    let mut before = owner_deposit();
    before.user = key(4);
    let mut ctx = before;
    assert_eq!(deposit(&mut ctx, 5), Err(UNAUTHORIZED));
    assert_eq!(deposit(&mut ctx, 0), Err(UNAUTHORIZED));
    assert_eq!(ctx, before);
}

#[test]
fn owner_deposit_into_a_vault_at_another_address_is_refused() {
    let mut before = owner_deposit();
    before.vault_state.key = key(8);
    let mut ctx = before;
    assert_eq!(deposit(&mut ctx, 5), Err(Failure::AddressMismatch));
    assert_eq!(deposit(&mut ctx, 0), Err(Failure::AddressMismatch));
    assert_eq!(ctx, before);
}

#[test]
fn owner_deposit_given_goes_by_what_it_is_told() {
    let before = Deposit {
        user: owner(),
        vault_state: Account { key: key(8), lamports: 0, data: vault().data },
    };
    let mut ctx = before;
    assert_eq!(deposit_given(&mut ctx, 5, false), Err(Failure::AddressMismatch));
    assert_eq!(ctx, before);
    assert_eq!(
        deposit_given(&mut ctx, 5, true),
        Ok(Transfer { from: owner(), to: key(8), lamports: 5 })
    );
    assert_eq!(ctx.vault_state.data.balance, 705);
    assert_eq!(deposit_given(&mut ctx, 0, true), Err(ZERO_DEPOSIT));
    ctx.user = key(4);
    assert_eq!(deposit_given(&mut ctx, 5, true), Err(UNAUTHORIZED));
    assert_eq!(deposit_given(&mut ctx, 5, false), Err(UNAUTHORIZED));
    assert_eq!(ctx.vault_state.data.balance, 705);
}

#[test]
fn owner_deposit_is_callable_while_the_balance_has_room() {
    let mut ctx = owner_deposit();
    ctx.vault_state.data.balance = u64::MAX - 4;
    assert!(ctx.is_callable(4));
    assert!(!ctx.is_callable(5));
    assert!(ctx.is_callable(0));
    ctx.user = key(4);
    assert!(ctx.is_callable(5));
}

#[test]
fn depositor_deposit_adds_the_amount_and_issues_receipts() {
    let before = depositor_deposit();
    let mut ctx = before;
    let orders = deposit_by_depositor(&mut ctx, 1_000_000_000, 50).unwrap();
    assert_eq!(
        orders,
        DepositOrders {
            transfer: Transfer {
                from: depositor(),
                to: before.vault_state.key,
                lamports: 1_000_000_000,
            },
            mint_to: MintTo {
                mint: before.lp_mint.key,
                to: key(9),
                authority: before.lp_mint.key,
                amount: 10,
                signer: MintAuthority {
                    vault_owner: owner(),
                    bump: before.vault_state.data.lp_mint_bump,
                },
            },
        }
    );
    assert_eq!(ctx.vault_state.data.balance, 1_000_000_700);
    let mut expected = before;
    expected.vault_state.data.balance = 1_000_000_700;
    expected.depositor_state.data.locked_amount = 1_000_000_000;
    expected.depositor_state.data.lp_amount = 10;
    expected.depositor_state.data.deposit_time = 50;
    expected.depositor_state.data.unlock_time = 345_650;
    assert_eq!(ctx, expected);
}

#[test]
fn depositor_deposit_of_one_token() {
    let mut ctx = depositor_deposit();
    let orders = deposit_by_depositor(&mut ctx, 100_000_000, 0).unwrap();
    assert_eq!(orders.mint_to.amount, 1);
    assert_eq!(ctx.depositor_state.data.lp_amount, 1);
    assert_eq!(ctx.depositor_state.data.unlock_time, 345_600);
}

#[test]
fn depositor_deposit_at_a_time_before_the_epoch() {
    let mut ctx = depositor_deposit();
    deposit_by_depositor(&mut ctx, 100_000_000, -345_700).unwrap();
    assert_eq!(ctx.depositor_state.data.deposit_time, -345_700);
    assert_eq!(ctx.depositor_state.data.unlock_time, -100);
}

#[test]
fn depositor_deposit_of_nothing_is_refused() {
    let before = depositor_deposit();
    let mut ctx = before;
    assert_eq!(deposit_by_depositor(&mut ctx, 0, 50), Err(ZERO_DEPOSIT));
    assert_eq!(ctx, before);
}

#[test]
fn depositor_deposit_of_a_broken_amount_is_refused() {
    let before = depositor_deposit();
    let mut ctx = before;
    for amount in [1, 99_999_999, 100_000_001, 250_000_000, u64::MAX] {
        assert_eq!(deposit_by_depositor(&mut ctx, amount, 50), Err(INVALID_AMOUNT));
    }
    assert_eq!(ctx, before);
}

#[test]
fn depositor_deposit_by_a_stranger_is_refused() {
    let mut before = depositor_deposit();
    before.depositor = key(4);
    let mut ctx = before;
    assert_eq!(deposit_by_depositor(&mut ctx, 100_000_000, 50), Err(UNAUTHORIZED));
    assert_eq!(deposit_by_depositor(&mut ctx, 0, 50), Err(UNAUTHORIZED));
    assert_eq!(deposit_by_depositor(&mut ctx, 1, 50), Err(UNAUTHORIZED));
    assert_eq!(ctx, before);
}

#[test]
fn depositor_deposit_into_another_vault_is_refused() {
    let mut before = depositor_deposit();
    before.vault_state.data.owner = key(3);
    let mut ctx = before;
    assert_eq!(deposit_by_depositor(&mut ctx, 100_000_000, 50), Err(WRONG_VAULT));
    assert_eq!(deposit_by_depositor(&mut ctx, 0, 50), Err(WRONG_VAULT));
    assert_eq!(ctx, before);
    ctx.depositor = key(4);
    assert_eq!(deposit_by_depositor(&mut ctx, 100_000_000, 50), Err(UNAUTHORIZED));
}

#[test]
fn depositor_deposit_with_an_account_at_another_address_is_refused() {
    let genuine = depositor_deposit();
    let mut moved_position = genuine;
    moved_position.depositor_state.key = key(8);
    let mut moved_vault = genuine;
    moved_vault.vault_state.key = key(8);
    let mut moved_mint = genuine;
    moved_mint.lp_mint.key = key(8);
    let mut other_bump = genuine;
    other_bump.vault_state.data.lp_mint_bump = genuine.vault_state.data.lp_mint_bump - 1;
    for before in [moved_position, moved_vault, moved_mint, other_bump] {
        let mut ctx = before;
        assert_eq!(deposit_by_depositor(&mut ctx, 100_000_000, 50), Err(Failure::AddressMismatch));
        assert_eq!(deposit_by_depositor(&mut ctx, 0, 50), Err(Failure::AddressMismatch));
        assert_eq!(ctx, before);
    }
}

#[test]
fn second_deposit_sets_the_lock_anew_for_everything() {
    let mut ctx = depositor_deposit();
    deposit_by_depositor(&mut ctx, 300_000_000, 1_000).unwrap();
    assert_eq!(ctx.depositor_state.data.unlock_time, 346_600);
    deposit_by_depositor(&mut ctx, 200_000_000, 200_000).unwrap();
    assert_eq!(ctx.depositor_state.data.deposit_time, 200_000);
    assert_eq!(ctx.depositor_state.data.unlock_time, 545_600);
    assert_eq!(ctx.depositor_state.data.locked_amount, 500_000_000);
    assert_eq!(ctx.depositor_state.data.lp_amount, 5);
    assert_eq!(ctx.vault_state.data.balance, 500_000_700);
}

#[test]
fn second_deposit_at_an_earlier_time_moves_the_lock_back() {
    let mut ctx = depositor_deposit();
    deposit_by_depositor(&mut ctx, 300_000_000, 1_000).unwrap();
    deposit_by_depositor(&mut ctx, 100_000_000, 10).unwrap();
    assert_eq!(ctx.depositor_state.data.unlock_time, 345_610);
    assert_eq!(ctx.depositor_state.data.locked_amount, 400_000_000);
}

#[test]
fn lock_period_is_read_from_the_vault() {
    let mut ctx = depositor_deposit();
    ctx.vault_state.data.lock_period = 60;
    deposit_by_depositor(&mut ctx, 100_000_000, 1_000).unwrap();
    assert_eq!(ctx.depositor_state.data.unlock_time, 1_060);
}

#[test]
fn depositor_deposit_given_goes_by_what_it_is_told() {
    let before = DepositByDepositor {
        depositor: depositor(),
        depositor_state: Account { key: key(20), lamports: 0, data: position().data },
        vault_state: Account { key: key(21), lamports: 0, data: vault().data },
        lp_mint: Account { key: key(22), lamports: 0, data: Mint { supply: 0 } },
        depositor_token_account: key(9),
    };
    let mut ctx = before;
    assert_eq!(
        deposit_by_depositor_given(&mut ctx, 300_000_000, 1_000, false),
        Err(Failure::AddressMismatch)
    );
    assert_eq!(deposit_by_depositor_given(&mut ctx, 250_000_000, 1_000, true), Err(INVALID_AMOUNT));
    assert_eq!(deposit_by_depositor_given(&mut ctx, 0, 1_000, true), Err(ZERO_DEPOSIT));
    assert_eq!(ctx, before);
    let orders = deposit_by_depositor_given(&mut ctx, 300_000_000, 1_000, true).unwrap();
    assert_eq!(orders.transfer, Transfer { from: depositor(), to: key(21), lamports: 300_000_000 });
    assert_eq!(orders.mint_to.amount, 3);
    assert_eq!(orders.mint_to.mint, key(22));
    assert_eq!(orders.mint_to.authority, key(22));
    assert_eq!(ctx.depositor_state.data.locked_amount, 300_000_000);
    assert_eq!(ctx.depositor_state.data.lp_amount, 3);
    assert_eq!(ctx.depositor_state.data.unlock_time, 346_600);
    assert_eq!(ctx.vault_state.data.balance, 300_000_700);
}

#[test]
fn depositor_deposit_is_callable_while_the_sums_fit() {
    let mut ctx = depositor_deposit();
    assert!(ctx.is_callable(300_000_000, 1_000));
    assert!(ctx.is_callable(300_000_000, i64::MAX - 345_600));
    assert!(!ctx.is_callable(300_000_000, i64::MAX - 345_599));
    assert!(ctx.is_callable(250_000_000, i64::MAX));
    assert!(ctx.is_callable(0, i64::MAX));
    ctx.vault_state.data.balance = u64::MAX - 299_999_999;
    assert!(!ctx.is_callable(300_000_000, 1_000));
    ctx.vault_state.data.balance = u64::MAX - 300_000_000;
    assert!(ctx.is_callable(300_000_000, 1_000));
    ctx.depositor_state.data.locked_amount = u64::MAX - 299_999_999;
    assert!(!ctx.is_callable(300_000_000, 1_000));
    ctx.depositor_state.data.locked_amount = 0;
    ctx.depositor_state.data.lp_amount = u64::MAX - 2;
    assert!(!ctx.is_callable(300_000_000, 1_000));
    assert!(ctx.is_callable(200_000_000, 1_000));
    ctx.depositor = key(4);
    assert!(ctx.is_callable(300_000_000, 1_000));
}

#[test]
fn owner_deposit_can_be_tested_without_being_taken() {
    let before = owner_deposit();
    let ctx = before;
    assert_eq!(ctx.check(5, true), Ok(()));
    assert_eq!(ctx.check(5, false), Err(Failure::AddressMismatch));
    assert_eq!(ctx.check(0, true), Err(ZERO_DEPOSIT));
    let mut stranger = before;
    stranger.user = key(4);
    assert_eq!(stranger.check(5, true), Err(UNAUTHORIZED));
    assert_eq!(ctx, before);
}

#[test]
fn depositor_deposit_can_be_tested_without_being_taken() {
    let before = depositor_deposit();
    let ctx = before;
    assert_eq!(ctx.check(300_000_000, true), Ok(()));
    assert_eq!(ctx.check(300_000_000, false), Err(Failure::AddressMismatch));
    assert_eq!(ctx.check(250_000_000, true), Err(INVALID_AMOUNT));
    assert_eq!(ctx.check(0, true), Err(ZERO_DEPOSIT));
    let mut stranger = before;
    stranger.depositor = key(4);
    assert_eq!(stranger.check(300_000_000, true), Err(UNAUTHORIZED));
    let mut elsewhere = before;
    elsewhere.depositor_state.data.vault_owner = key(3);
    assert_eq!(elsewhere.check(300_000_000, true), Err(WRONG_VAULT));
    assert_eq!(ctx, before);
}
