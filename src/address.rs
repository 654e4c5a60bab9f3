use vstd::prelude::*;

verus! {

/// The address of an account on the ledger.
pub type Pubkey = [u8; 32];

/// The namespace of a derived custody address.
#[derive(Clone, Copy, Debug, PartialEq, Eq, Structural)]
pub enum Tag {
    Vault,
    Escrow,
}

/// The bytes of a tag: `"vault"` or `"escrow"`.
pub open spec fn tag_bytes(t: Tag) -> Seq<u8> {
    match t {
        Tag::Vault => seq![118u8, 97u8, 117u8, 108u8, 116u8],
        Tag::Escrow => seq![101u8, 115u8, 99u8, 114u8, 111u8, 119u8],
    }
}

/// The seeds from which the custody address of `(tag, owner, seed)` is derived.
pub open spec fn custody_seeds(t: Tag, owner: Seq<u8>, seed: u8) -> Seq<Seq<u8>> {
    seq![tag_bytes(t), owner, seq![seed]]
}

/// The bytes that the derivation hashes ahead of the bump and the program id:
/// the seeds laid end to end.
pub open spec fn custody_preimage(t: Tag, owner: Seq<u8>, seed: u8) -> Seq<u8> {
    tag_bytes(t) + owner + seq![seed]
}

/// The address of the system program: 32 zero bytes.
pub open spec fn system_program_id() -> Seq<u8> {
    Seq::new(32, |i: int| 0u8)
}

/// The address of the asset (token) program.
pub open spec fn token_program_id() -> Seq<u8> {
    seq![
        6u8, 221u8, 246u8, 225u8, 215u8, 101u8, 161u8, 147u8, 217u8, 203u8, 225u8, 70u8, 206u8, 235u8, 121u8, 172u8,
        28u8, 180u8, 133u8, 237u8, 95u8, 91u8, 55u8, 145u8, 58u8, 140u8, 245u8, 133u8, 126u8, 255u8, 0u8, 169u8,
    ]
}

/// Relies on pinocchio_token::check_id: true exactly when the address is the
/// token program's, `TokenkegQfeZyiNwAJbNbGKPFXCWuBvf9Ss623VQ5DA` in base 58.
#[verifier::external_body]
fn check_token_id(id: &Pubkey) -> (r: bool)
    ensures
        r == (id@ == token_program_id()),
{
    pinocchio_token::check_id(id)
}

/// Whether `id` is the address of the token program.
pub fn is_token_program(id: &Pubkey) -> (r: bool)
    ensures
        r == (id@ == token_program_id()),
{
    check_token_id(id)
}

/// The system program's address as a key.
pub open spec fn system_key() -> Pubkey {
    vstd::array::spec_array_fill_for_copy_type::<u8, 32>(0u8)
}

pub proof fn lemma_system_key()
    ensures
        system_key()@ == system_program_id(),
{
    assert(system_key()@ =~= system_program_id());
}

/// The program-derived address of `seeds` under `program_id`, with its bump.
pub uninterp spec fn program_address(seeds: Seq<Seq<u8>>, program_id: Seq<u8>) -> (Seq<u8>, u8);

/// The custody address of `(tag, owner, seed)` under `program_id`.
pub open spec fn custody_address(t: Tag, owner: Seq<u8>, seed: u8, program_id: Seq<u8>) -> (Seq<u8>, u8) {
    program_address(custody_seeds(t, owner, seed), program_id)
}

/// The bytes of a tag, as the first seed of a custody address.
pub fn tag_seed(t: Tag) -> (r: Vec<u8>)
    ensures
        r@ == tag_bytes(t),
{
    let r = match t {
        Tag::Vault => vec![118u8, 97u8, 117u8, 108u8, 116u8],
        Tag::Escrow => vec![101u8, 115u8, 99u8, 114u8, 111u8, 119u8],
    };
    assert(r@ =~= tag_bytes(t));
    r
}

/// The views of a list of byte strings.
pub open spec fn seeds_view(seeds: Seq<Vec<u8>>) -> Seq<Seq<u8>> {
    seeds.map_values(|v: Vec<u8>| v@)
}

/// Relies on pinocchio::pubkey::try_find_program_address: when it finds an
/// address, the address and the bump are the program-derived address of the
/// seeds under the program id, which depends on those values alone. It
/// returns `None` where no bump works, where the seeds are too many or too
/// long, and off the ledger's own target.
#[verifier::external_body]
fn try_find_program_address(seeds: &Vec<Vec<u8>>, program_id: &Pubkey) -> (r: Option<(Pubkey, u8)>)
    ensures
        r matches Some((k, b)) ==> program_address(seeds_view(seeds@), program_id@) == (k@, b),
{
    let slices: Vec<&[u8]> = seeds.iter().map(|v| v.as_slice()).collect();
    pinocchio::pubkey::try_find_program_address(&slices, program_id)
}

/// The bytes of a key as a vector.
pub fn key_bytes(k: &Pubkey) -> (r: Vec<u8>)
    ensures
        r@ == k@,
{
    let mut r: Vec<u8> = Vec::new();
    let mut i: usize = 0;
    while i < 32
        invariant
            i <= 32,
            k@.len() == 32,
            r@ == k@.take(i as int),
        decreases 32 - i,
    {
        r.push(k[i]);
        i += 1;
        assert(r@ =~= k@.take(i as int));
    }
    assert(k@.take(32) =~= k@);
    r
}

/// Derives the custody address of `(tag, owner, seed)` under `program_id`,
/// with its bump; `None` where the ledger's derivation finds none.
pub fn derive_custody(t: Tag, owner: &Pubkey, seed: u8, program_id: &Pubkey) -> (r: Option<(Pubkey, u8)>)
    ensures
        r matches Some((k, b)) ==> custody_address(t, owner@, seed, program_id@) == (k@, b),
{
    let last = vec![seed];
    assert(last@ =~= seq![seed]);
    let seeds = vec![tag_seed(t), key_bytes(owner), last];
    assert(seeds_view(seeds@) =~= custody_seeds(t, owner@, seed));
    try_find_program_address(&seeds, program_id)
}

/// The seeds under which the custody address of `(tag, owner, seed)` signs:
/// the seeds it is derived from, then its bump.
pub fn custody_signer_seeds(t: Tag, owner: &Pubkey, seed: u8, bump: u8) -> (r: Vec<Vec<u8>>)
    ensures
        seeds_view(r@) == custody_seeds(t, owner@, seed).push(seq![bump]),
{
    let s = vec![seed];
    let b = vec![bump];
    assert(s@ =~= seq![seed]);
    assert(b@ =~= seq![bump]);
    let r = vec![tag_seed(t), key_bytes(owner), s, b];
    assert(seeds_view(r@) =~= custody_seeds(t, owner@, seed).push(seq![bump]));
    r
}

/// The seeds under which `owner`'s single-owner vault signs: the seeds it is
/// derived from, then its bump.
pub fn owner_vault_signer_seeds(owner: &Pubkey, bump: u8) -> (r: Vec<Vec<u8>>)
    ensures
        seeds_view(r@) == owner_vault_seeds(owner@).push(seq![bump]),
{
    let b = vec![bump];
    assert(b@ =~= seq![bump]);
    let r = vec![tag_seed(Tag::Vault), key_bytes(owner), b];
    assert(seeds_view(r@) =~= owner_vault_seeds(owner@).push(seq![bump]));
    r
}

/// The seeds of a single-owner vault: the vault tag and the owner's key.
pub open spec fn owner_vault_seeds(owner: Seq<u8>) -> Seq<Seq<u8>> {
    seq![tag_bytes(Tag::Vault), owner]
}

/// Derives the address of `owner`'s single-owner vault under `program_id`,
/// with its bump; `None` where the ledger's derivation finds none.
pub fn derive_owner_vault(owner: &Pubkey, program_id: &Pubkey) -> (r: Option<(Pubkey, u8)>)
    ensures
        r matches Some((k, b)) ==> program_address(owner_vault_seeds(owner@), program_id@) == (k@, b),
{
    let seeds = vec![tag_seed(Tag::Vault), key_bytes(owner)];
    assert(seeds_view(seeds@) =~= owner_vault_seeds(owner@));
    try_find_program_address(&seeds, program_id)
}

/// Relies on pinocchio_system::check_id: true exactly when the address is the
/// system program's, 32 zero bytes.
#[verifier::external_body]
fn check_system_id(id: &Pubkey) -> (r: bool)
    ensures
        r == (id@ == system_program_id()),
{
    pinocchio_system::check_id(id)
}

/// Whether `id` is the address of the system program.
pub fn is_system_program(id: &Pubkey) -> (r: bool)
    ensures
        r == (id@ == system_program_id()),
{
    check_system_id(id)
}

/// Whether two addresses are the same.
pub fn key_eq(a: &Pubkey, b: &Pubkey) -> (r: bool)
    ensures
        r == (a@ == b@),
{
    let mut i: usize = 0;
    while i < 32
        invariant
            i <= 32,
            a@.len() == 32,
            b@.len() == 32,
            forall|j: int| 0 <= j < i ==> a@[j] == b@[j],
        decreases 32 - i,
    {
        if a[i] != b[i] {
            return false;
        }
        i += 1;
    }
    assert(a@ =~= b@);
    true
}

} // verus!
