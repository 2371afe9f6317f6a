use vstd::prelude::*;
use crate::address::resolve_address;
use crate::address::resolves_to;
use crate::address::sits_at;
use crate::address::Address;
use crate::address::Namespace;

verus! {

/// Price of one receipt token, in lamports.
pub const LP_PRICE_IN_LAMPORTS: u64 = 100_000_000;

/// The time for which a deposit stays locked: four days, in seconds.
pub const FOUR_DAYS_IN_SECONDS: i64 = 4 * 24 * 60 * 60;

/// An account of which a call sees only the native value.
#[derive(Clone, Copy, Debug, PartialEq, Eq)]
pub struct Wallet {
    pub key: Address,
    pub lamports: u64,
}

/// An account as a call sees it: where it sits, the native value it holds,
/// and what is stored in it.
#[derive(Debug, PartialEq, Eq)]
pub struct Account<T> {
    pub key: Address,
    pub lamports: u64,
    pub data: T,
}

impl<T: Copy> Clone for Account<T> {
    fn clone(&self) -> (copy: Self)
        ensures
            copy == *self,
    {
        *self
    }
}

impl<T: Copy> Copy for Account<T> {

}

impl<T> Account<T> {
    /// The account without what is stored in it.
    pub open spec fn wallet(self) -> Wallet {
        Wallet { key: self.key, lamports: self.lamports }
    }

    /// The account without what is stored in it.
    pub fn as_wallet(&self) -> (wallet: Wallet)
        ensures
            wallet == self.wallet(),
    {
        Wallet { key: self.key, lamports: self.lamports }
    }
}

/// The record of a vault: one per owner.
#[derive(Clone, Copy, Debug, PartialEq, Eq)]
pub struct VaultState {
    /// The identity that registered the vault and administers it.
    pub owner: Address,
    /// The pooled native value that the vault accounts for.
    pub balance: u64,
    /// The bump seed of the vault's own address.
    pub bump: u8,
    /// The mint of the vault's receipt tokens.
    pub lp_mint: Address,
    /// The bump seed of the mint's address.
    pub lp_mint_bump: u8,
    /// The time, in seconds, for which a deposit stays locked.
    pub lock_period: i64,
}

impl VaultState {
    /// Bytes that the stored record takes, its header of 8 bytes included.
    pub const SIZE: usize = 8 + 32 + 8 + 1 + 32 + 1 + 8;
}

/// The record of a depositor's position in one vault: one per depositor and
/// vault owner.
#[derive(Clone, Copy, Debug, PartialEq, Eq)]
pub struct DepositorState {
    /// The identity that owns the position.
    pub depositor: Address,
    /// The owner of the vault that the position belongs to.
    pub vault_owner: Address,
    /// The bump seed of the position's own address.
    pub bump: u8,
    /// When the last deposit was made.
    pub deposit_time: i64,
    /// From when on the locked amount can be withdrawn.
    pub unlock_time: i64,
    /// The principal that is locked.
    pub locked_amount: u64,
    /// The receipt tokens issued for the locked principal.
    pub lp_amount: u64,
}

impl DepositorState {
    /// Bytes that the stored record takes, its header of 8 bytes included.
    pub const SIZE: usize = 8 + 32 + 32 + 1 + 8 + 8 + 8 + 8;

    /// The coupling of principal and receipt tokens: the locked amount is a
    /// whole number of receipt-token prices, and one token is held for each.
    pub open spec fn wf(self) -> bool {
        &&& self.locked_amount % LP_PRICE_IN_LAMPORTS == 0
        &&& self.lp_amount == self.locked_amount / LP_PRICE_IN_LAMPORTS
    }

    /// Nothing is locked.
    pub open spec fn idle(self) -> bool {
        self.locked_amount == 0
    }

    /// Something is locked, and at `now` it cannot be withdrawn yet.
    pub open spec fn locked(self, now: i64) -> bool {
        self.locked_amount > 0 && now < self.unlock_time
    }

    /// Something is locked, and at `now` it can be withdrawn.
    pub open spec fn unlockable(self, now: i64) -> bool {
        self.locked_amount > 0 && now >= self.unlock_time
    }
}

/// What a call reads of a mint of receipt tokens.
#[derive(Clone, Copy, Debug, PartialEq, Eq)]
pub struct Mint {
    /// The receipt tokens in circulation.
    pub supply: u64,
}

/// Whether the vault sits at the address that its owner and its bump seed name.
pub open spec fn vault_resolves(vault: Account<VaultState>) -> bool {
    resolves_to(Namespace::Vault, seq![vault.data.owner], vault.data.bump, vault.key)
}

/// Whether `mint` is the address that the vault's owner and the vault's bump
/// seed for the mint name.
pub open spec fn mint_resolves(mint: Address, vault: VaultState) -> bool {
    resolves_to(Namespace::LpMint, seq![vault.owner], vault.lp_mint_bump, mint)
}

/// Whether the position sits at the address that its depositor, the owner of
/// its vault and its bump seed name.
pub open spec fn position_resolves(position: Account<DepositorState>) -> bool {
    resolves_to(
        Namespace::Depositor,
        seq![position.data.depositor, position.data.vault_owner],
        position.data.bump,
        position.key,
    )
}

/// Tests whether `key` is the address that `keys` and `bump` name in `space`.
pub fn check_address(space: Namespace, keys: &Vec<Address>, bump: u8, key: &Address) -> (found:
    bool)
    ensures
        found == resolves_to(space, keys@, bump, *key),
{
    let address = resolve_address(space, keys, bump);
    sits_at(&address, key)
}

/// Tests whether the vault sits at its derived address.
pub fn check_vault_address(vault: &Account<VaultState>) -> (found: bool)
    ensures
        found == vault_resolves(*vault),
{
    let keys: Vec<Address> = vec![vault.data.owner];
    assert(keys@ =~= seq![vault.data.owner]);
    check_address(Namespace::Vault, &keys, vault.data.bump, &vault.key)
}

/// Tests whether `mint` is the address of the vault's mint.
pub fn check_mint_address(mint: &Address, vault: &VaultState) -> (found: bool)
    ensures
        found == mint_resolves(*mint, *vault),
{
    let keys: Vec<Address> = vec![vault.owner];
    assert(keys@ =~= seq![vault.owner]);
    check_address(Namespace::LpMint, &keys, vault.lp_mint_bump, mint)
}

/// Tests whether the position sits at its derived address.
pub fn check_position_address(position: &Account<DepositorState>) -> (found: bool)
    ensures
        found == position_resolves(*position),
{
    let keys: Vec<Address> = vec![position.data.depositor, position.data.vault_owner];
    assert(keys@ =~= seq![position.data.depositor, position.data.vault_owner]);
    check_address(Namespace::Depositor, &keys, position.data.bump, &position.key)
}

} // verus!
