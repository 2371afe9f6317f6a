use vault::address::Address;
use vault::receipt::is_whole_amount;
use vault::receipt::receipts_for;
use vault::receipt::MintAuthority;
use vault::state::Account;
use vault::state::DepositorState;
use vault::state::VaultState;
use vault::state::Wallet;
use vault::state::FOUR_DAYS_IN_SECONDS;
use vault::state::LP_PRICE_IN_LAMPORTS;
use vault::transfer::has_room;
use vault::transfer::move_lamports;

fn key(byte: u8) -> Address {
    Address { bytes: [byte; 32] }
}

#[test]
fn constants_have_their_values() {
    assert_eq!(LP_PRICE_IN_LAMPORTS, 100_000_000);
    assert_eq!(FOUR_DAYS_IN_SECONDS, 345_600);
    assert_eq!(VaultState::SIZE, 90);
    assert_eq!(DepositorState::SIZE, 105);
}

#[test]
fn one_receipt_for_each_whole_price() {
    assert_eq!(receipts_for(0), 0);
    assert_eq!(receipts_for(99_999_999), 0);
    assert_eq!(receipts_for(100_000_000), 1);
    assert_eq!(receipts_for(300_000_000), 3);
    assert_eq!(receipts_for(250_000_000), 2);
    assert_eq!(receipts_for(u64::MAX), 184_467_440_737);
}

#[test]
fn whole_amounts_are_multiples_of_the_price() {
    assert!(is_whole_amount(0));
    assert!(is_whole_amount(100_000_000));
    assert!(is_whole_amount(300_000_000));
    assert!(!is_whole_amount(1));
    assert!(!is_whole_amount(250_000_000));
    assert!(!is_whole_amount(100_000_001));
    assert!(!is_whole_amount(u64::MAX));
}

#[test]
fn mint_signs_with_tag_owner_and_bump() {
    let authority = MintAuthority { vault_owner: key(1), bump: 252 };
    assert_eq!(
        authority.signer_seeds(),
        vec![b"lp_mint3".to_vec(), vec![1u8; 32], vec![252u8]]
    );
}

#[test]
fn account_is_seen_as_a_wallet() {
    let account = Account { key: key(4), lamports: 77, data: 5u8 };
    assert_eq!(account.as_wallet(), Wallet { key: key(4), lamports: 77 });
    assert_eq!(account.clone(), account);
}

#[test]
fn lamports_move_from_one_account_to_another() {
    let from = Wallet { key: key(1), lamports: 500 };
    let to = Wallet { key: key(2), lamports: 20 };
    let (from_after, to_after) = move_lamports(from, to, 120);
    assert_eq!(from_after, Wallet { key: key(1), lamports: 380 });
    assert_eq!(to_after, Wallet { key: key(2), lamports: 140 });
    assert_eq!(from_after.lamports + to_after.lamports, 520);
}

#[test]
fn lamports_moved_within_one_account_stay() {
    let account = Wallet { key: key(1), lamports: 500 };
    let (from_after, to_after) = move_lamports(account, account, 120);
    assert_eq!(from_after, account);
    assert_eq!(to_after, account);
}

#[test]
fn moving_everything_and_nothing() {
    let from = Wallet { key: key(1), lamports: 500 };
    let to = Wallet { key: key(2), lamports: u64::MAX - 500 };
    assert_eq!(move_lamports(from, to, 0), (from, to));
    let (from_after, to_after) = move_lamports(from, to, 500);
    assert_eq!(from_after.lamports, 0);
    assert_eq!(to_after.lamports, u64::MAX);
}

#[test]
fn room_is_what_the_source_holds_and_the_target_can_take() {
    let from = Wallet { key: key(1), lamports: 500 };
    let to = Wallet { key: key(2), lamports: u64::MAX - 100 };
    assert!(has_room(&from, &to, 100));
    assert!(!has_room(&from, &to, 101));
    assert!(!has_room(&from, &Wallet { key: key(2), lamports: 0 }, 501));
    assert!(has_room(&from, &Wallet { key: key(2), lamports: 0 }, 500));
    let same = Wallet { key: key(1), lamports: u64::MAX };
    assert!(has_room(&same, &same, u64::MAX));
}
