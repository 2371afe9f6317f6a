use vstd::prelude::*;
use anchor_lang::solana_program::pubkey::Pubkey;
use anchor_lang::solana_program::pubkey::PubkeyError;
use crate::error::VaultError;

verus! {

/// The error with which `Pubkey::create_program_address` refuses a list of
/// seeds. Nothing is read from it here: any such error means that the seeds
/// name no address.
#[verifier::external_type_specification]
#[verifier::external_body]
pub struct ExPubkeyError(PubkeyError);

/// The identity of an account: a signer's public key, or an address derived
/// for a program. Its model is the sequence of its 32 bytes.
#[derive(Clone, Copy, Debug, Eq)]
pub struct Address {
    pub bytes: [u8; 32],
}

impl View for Address {
    type V = Seq<u8>;

    open spec fn view(&self) -> Seq<u8> {
        self.bytes@
    }
}

impl PartialEq for Address {
    fn eq(&self, other: &Self) -> (same: bool) {
        let mut i: usize = 0;
        while i < 32
            invariant
                i <= 32,
                forall|j: int| 0 <= j < i ==> self.bytes[j] == other.bytes[j],
            decreases 32 - i,
        {
            if self.bytes[i] != other.bytes[i] {
                return false;
            }
            i = i + 1;
        }
        assert(self.bytes =~= other.bytes);
        true
    }
}

impl vstd::std_specs::cmp::PartialEqSpecImpl for Address {
    open spec fn obeys_eq_spec() -> bool {
        true
    }

    open spec fn eq_spec(&self, other: &Self) -> bool {
        *self == *other
    }
}

/// Two addresses are the same exactly when their bytes are.
pub proof fn lemma_address_is_its_bytes(a: Address, b: Address)
    ensures
        a@.len() == 32,
        (a@ == b@) <==> (a == b),
{
    if a@ == b@ {
        assert(a.bytes =~= b.bytes);
    }
}

impl Address {
    /// The 32 bytes of the address, in a vector of their own.
    pub fn to_vec(&self) -> (out: Vec<u8>)
        ensures
            out@ == self@,
    {
        let mut out: Vec<u8> = Vec::new();
        let mut i: usize = 0;
        while i < 32
            invariant
                i <= 32,
                out@ == self@.subrange(0, i as int),
            decreases 32 - i,
        {
            out.push(self.bytes[i]);
            assert(out@ =~= self@.subrange(0, i + 1));
            i = i + 1;
        }
        assert(out@ =~= self@);
        out
    }
}

/// The address under which the vault program itself is deployed. Every
/// derived address is derived for this program.
pub const PROGRAM_ID: [u8; 32] = [
    189, 206, 157, 97, 195, 228, 26, 101, 130, 91, 39, 159, 203, 30, 27, 186,
    103, 32, 98, 10, 140, 21, 141, 19, 88, 9, 104, 219, 158, 251, 234, 53,
];

/// The kinds of account that the program keeps at derived addresses. Each
/// kind has a tag of its own, so that the addresses of two kinds are derived
/// from different seeds.
#[derive(Clone, Copy, Debug, PartialEq, Eq, Structural)]
pub enum Namespace {
    /// A vault, derived from its owner.
    Vault,
    /// The mint of a vault's receipt tokens, derived from the vault's owner.
    LpMint,
    /// A depositor's position, derived from the depositor and the vault's owner.
    Depositor,
}

impl Namespace {
    /// The tag of the namespace: the bytes of `vault3`, `lp_mint3` or
    /// `depositor3`.
    pub open spec fn tag(self) -> Seq<u8> {
        match self {
            Namespace::Vault => seq![118u8, 97u8, 117u8, 108u8, 116u8, 51u8],
            Namespace::LpMint => seq![108u8, 112u8, 95u8, 109u8, 105u8, 110u8, 116u8, 51u8],
            Namespace::Depositor => seq![
                100u8,
                101u8,
                112u8,
                111u8,
                115u8,
                105u8,
                116u8,
                111u8,
                114u8,
                51u8,
            ],
        }
    }

    /// The tag as bytes.
    pub fn tag_bytes(&self) -> (out: Vec<u8>)
        ensures
            out@ == self.tag(),
    {
        let out: Vec<u8> = match self {
            Namespace::Vault => vec![118u8, 97u8, 117u8, 108u8, 116u8, 51u8],
            Namespace::LpMint => vec![108u8, 112u8, 95u8, 109u8, 105u8, 110u8, 116u8, 51u8],
            Namespace::Depositor => vec![
                100u8,
                101u8,
                112u8,
                111u8,
                115u8,
                105u8,
                116u8,
                111u8,
                114u8,
                51u8,
            ],
        };
        assert(out@ =~= self.tag());
        out
    }
}

/// What `Pubkey::try_find_program_address` returns for a list of seeds and a
/// program: the derived address with its bump seed, or nothing.
pub uninterp spec fn found_program_address(seeds: Seq<Seq<u8>>, program_id: Seq<u8>) -> Option<
    (Seq<u8>, u8),
>;

/// What `Pubkey::create_program_address` returns for a list of seeds and a
/// program: the address that the seeds name, or nothing where it refuses them.
pub uninterp spec fn created_program_address(seeds: Seq<Seq<u8>>, program_id: Seq<u8>) -> Option<
    Seq<u8>,
>;

/// Calls `Pubkey::try_find_program_address`.
///
/// Trusted: the result is a function of the seeds and the program alone, and
/// an address found with a bump seed is the address that
/// `Pubkey::create_program_address` gives for the same seeds followed by that
/// bump seed as a seed of one byte. The search tries bump seeds and returns
/// the first for which `create_program_address` succeeds.
#[verifier::external_body]
fn try_find_program_address(seeds: &Vec<Vec<u8>>, program_id: &[u8; 32]) -> (found: Option<
    ([u8; 32], u8),
>)
    ensures
        match found {
            Some((address, bump)) => found_program_address(seeds.deep_view(), program_id@) == Some(
                (address@, bump),
            ),
            None => found_program_address(seeds.deep_view(), program_id@) is None,
        },
        found matches Some((address, bump)) ==> created_program_address(
            seeds.deep_view().push(seq![bump]),
            program_id@,
        ) == Some(address@),
{
    let parts: Vec<&[u8]> = seeds.iter().map(|seed| seed.as_slice()).collect();
    Pubkey::try_find_program_address(&parts, &Pubkey::new_from_array(*program_id)).map(
        |(address, bump)| (address.to_bytes(), bump),
    )
}

/// Calls `Pubkey::create_program_address`.
///
/// Trusted: the result is a function of the seeds and the program alone.
#[verifier::external_body]
fn create_program_address(seeds: &Vec<Vec<u8>>, program_id: &[u8; 32]) -> (created: Result<
    [u8; 32],
    PubkeyError,
>)
    ensures
        match created {
            Ok(address) => created_program_address(seeds.deep_view(), program_id@) == Some(
                address@,
            ),
            Err(_) => created_program_address(seeds.deep_view(), program_id@) is None,
        },
{
    let parts: Vec<&[u8]> = seeds.iter().map(|seed| seed.as_slice()).collect();
    Pubkey::create_program_address(&parts, &Pubkey::new_from_array(*program_id)).map(
        |address| address.to_bytes(),
    )
}

/// The seeds of an account: the tag of its namespace, then the bytes of each
/// key, in order.
pub open spec fn seeds_of(space: Namespace, keys: Seq<Address>) -> Seq<Seq<u8>> {
    seq![space.tag()] + keys.map_values(|key: Address| key@)
}

/// The address whose bytes are `bytes`.
pub open spec fn address_of(bytes: Seq<u8>) -> Address {
    choose|address: Address| address@ == bytes
}

/// An address is the address of its bytes.
pub proof fn lemma_address_of(address: Address)
    ensures
        address_of(address@) == address,
{
    lemma_address_is_its_bytes(address_of(address@), address);
}

/// The address derived for `keys` in `space`, with its bump seed: what the
/// search for a program address finds for the seeds of `keys` and this
/// program.
pub open spec fn derived_address(space: Namespace, keys: Seq<Address>) -> Option<(Address, u8)> {
    match found_program_address(seeds_of(space, keys), PROGRAM_ID@) {
        Some((bytes, bump)) => Some((address_of(bytes), bump)),
        None => None,
    }
}

/// The address that `keys` and `bump` name in `space`: the program address
/// of the seeds of `keys`, followed by `bump`, for this program.
pub open spec fn resolved_address(space: Namespace, keys: Seq<Address>, bump: u8) -> Option<
    Address,
> {
    match created_program_address(seeds_of(space, keys).push(seq![bump]), PROGRAM_ID@) {
        Some(bytes) => Some(address_of(bytes)),
        None => None,
    }
}

/// Whether `key` is the address that `keys` and `bump` name in `space`.
pub open spec fn resolves_to(
    space: Namespace,
    keys: Seq<Address>,
    bump: u8,
    key: Address,
) -> bool {
    resolved_address(space, keys, bump) == Some(key)
}

fn push_seed(seeds: &mut Vec<Vec<u8>>, seed: Vec<u8>)
    ensures
        final(seeds).deep_view() == old(seeds).deep_view().push(seed@),
{
    seeds.push(seed);
    assert(seed.deep_view() =~= seed@);
    assert(seeds.deep_view() =~= old(seeds).deep_view().push(seed@));
}

fn seeds_for(space: Namespace, keys: &Vec<Address>) -> (seeds: Vec<Vec<u8>>)
    ensures
        seeds.deep_view() == seeds_of(space, keys@),
{
    let mut seeds: Vec<Vec<u8>> = Vec::new();
    assert(seeds.deep_view() =~= Seq::<Seq<u8>>::empty());
    push_seed(&mut seeds, space.tag_bytes());
    let mut i: usize = 0;
    while i < keys.len()
        invariant
            i <= keys.len(),
            seeds.deep_view() == seeds_of(space, keys@.subrange(0, i as int)),
        decreases keys.len() - i,
    {
        push_seed(&mut seeds, keys[i].to_vec());
        assert(seeds.deep_view() =~= seeds_of(space, keys@.subrange(0, i + 1)));
        i = i + 1;
    }
    assert(keys@.subrange(0, i as int) =~= keys@);
    seeds
}

/// The seeds with which the program signs for the account that `keys` and
/// `bump` name in `space`: the seeds of the account, then the bump seed as a
/// seed of one byte.
pub fn signer_seeds(space: Namespace, keys: &Vec<Address>, bump: u8) -> (seeds: Vec<Vec<u8>>)
    ensures
        seeds.deep_view() == seeds_of(space, keys@).push(seq![bump]),
{
    let mut seeds = seeds_for(space, keys);
    let last: Vec<u8> = vec![bump];
    assert(last@ =~= seq![bump]);
    push_seed(&mut seeds, last);
    seeds
}

/// Derives the address of the account that `keys` own in `space`, with the
/// bump seed that makes it an address no key pair can sign for.
///
/// The address found is also the one that `resolve_address` gives back for
/// the same keys and the bump seed returned here.
pub fn derive_address(space: Namespace, keys: &Vec<Address>) -> (found: Option<(Address, u8)>)
    ensures
        found == derived_address(space, keys@),
        found matches Some((address, bump)) ==> resolved_address(space, keys@, bump) == Some(
            address,
        ),
{
    let seeds = seeds_for(space, keys);
    match try_find_program_address(&seeds, &PROGRAM_ID) {
        Some((bytes, bump)) => {
            let address = Address { bytes };
            proof {
                lemma_address_of(address);
            }
            Some((address, bump))
        },
        None => None,
    }
}

/// Gives the address that `keys` and a known bump seed name in `space`,
/// without searching for the bump seed.
pub fn resolve_address(space: Namespace, keys: &Vec<Address>, bump: u8) -> (found: Option<
    Address,
>)
    ensures
        found == resolved_address(space, keys@, bump),
{
    let seeds = signer_seeds(space, keys, bump);
    match create_program_address(&seeds, &PROGRAM_ID) {
        Ok(bytes) => {
            let address = Address { bytes };
            proof {
                lemma_address_of(address);
            }
            Some(address)
        },
        Err(_) => None,
    }
}

/// Says whether the address that was found for an account is the one at
/// which the account sits.
pub fn sits_at(found: &Option<Address>, key: &Address) -> (same: bool)
    ensures
        same == (*found == Some(*key)),
{
    match found {
        Some(address) => *address == *key,
        None => false,
    }
}

/// The bump seed that was found for an account, where the address found
/// with it is the one at which the account sits.
pub open spec fn bump_found_at(found: Option<(Address, u8)>, key: Address) -> Option<u8> {
    match found {
        Some((address, bump)) => if address == key {
            Some(bump)
        } else {
            None
        },
        None => None,
    }
}

/// Gives the bump seed that was found for an account, where the address
/// found with it is the one at which the account sits.
pub fn bump_at(found: &Option<(Address, u8)>, key: &Address) -> (bump: Option<u8>)
    ensures
        bump == bump_found_at(*found, *key),
{
    match found {
        Some((address, bump)) => if *address == *key {
            Some(*bump)
        } else {
            None
        },
        None => None,
    }
}

/// Lets a call through only where its signer is the identity on record.
pub fn authorize(signer: &Address, stored: &Address) -> (verdict: Result<(), VaultError>)
    ensures
        verdict == if *signer == *stored {
            Ok::<(), VaultError>(())
        } else {
            Err::<(), VaultError>(VaultError::UnauthorizedUser)
        },
{
    if *signer == *stored {
        Ok(())
    } else {
        Err(VaultError::UnauthorizedUser)
    }
}

/// Lets a call through only where the vault that a position names as its own
/// is the vault handed to the call.
pub fn authorize_link(position_vault: &Address, vault_owner: &Address) -> (verdict: Result<
    (),
    VaultError,
>)
    ensures
        verdict == if *position_vault == *vault_owner {
            Ok::<(), VaultError>(())
        } else {
            Err::<(), VaultError>(VaultError::WrongVault)
        },
{
    if *position_vault == *vault_owner {
        Ok(())
    } else {
        Err(VaultError::WrongVault)
    }
}

} // verus!
