use vstd::prelude::*;

use crate::address::{custody_address, is_token_program, key_eq, token_program_id, Pubkey, Tag};
use crate::error::EscrowError;
use crate::ledger::AccountMeta;

verus! {

/// Whether `acct` sits at the derived address found, if one was found.
pub open spec fn at_derived(acct: AccountMeta, found: Option<(Pubkey, u8)>) -> bool {
    match found {
        Some((k, _)) => acct.key@ == k@,
        None => false,
    }
}

/// The bump of a derivation that was found.
pub open spec fn bump_of(found: Option<(Pubkey, u8)>) -> u8 {
    match found {
        Some((_, b)) => b,
        None => 0,
    }
}

/// Accepts an account only at the derived address that was found for it,
/// and returns that address's bump.
pub fn check_derived(acct: &AccountMeta, found: Option<(Pubkey, u8)>) -> (r: Result<u8, EscrowError>)
    ensures
        at_derived(*acct, found) ==> r == Ok::<u8, EscrowError>(bump_of(found)),
        !at_derived(*acct, found) ==> r == Err::<u8, EscrowError>(EscrowError::InvalidSeeds),
{
    match found {
        Some((k, b)) => {
            if key_eq(&acct.key, &k) {
                Ok(b)
            } else {
                Err(EscrowError::InvalidSeeds)
            }
        },
        None => Err(EscrowError::InvalidSeeds),
    }
}

/// Whether `found` is the custody derivation of `(tag, owner, seed)`, if it
/// was found at all.
pub open spec fn derivation_of(found: Option<(Pubkey, u8)>, t: Tag, owner: Seq<u8>, seed: u8, program_id: Seq<u8>) -> bool {
    found matches Some((k, b)) ==> custody_address(t, owner, seed, program_id) == (k@, b)
}

/// Whether `a` is an asset account of `mint` that `authority` may spend.
pub open spec fn holds_for(a: AccountMeta, mint: Seq<u8>, authority: Seq<u8>) -> bool {
    a.owner@ == token_program_id() && a.mint@ == mint && a.authority@ == authority
}

pub fn check_holds_for(a: &AccountMeta, mint: &Pubkey, authority: &Pubkey) -> (r: bool)
    ensures
        r == holds_for(*a, mint@, authority@),
{
    is_token_program(&a.owner) && key_eq(&a.mint, mint) && key_eq(&a.authority, authority)
}

} // verus!
