use vstd::bytes::{spec_u64_from_le_bytes, spec_u64_to_le_bytes, u64_from_le_bytes, u64_to_le_bytes};
use vstd::prelude::*;
use vstd::slice::slice_subrange;

use crate::address::Pubkey;
use crate::error::EscrowError;

verus! {

/// The terms of one live escrow, stored in the account at the escrow's
/// derived address.
#[derive(Clone, Copy, Debug, PartialEq, Eq)]
pub struct Escrow {
    /// The principal that offered the trade.
    pub maker: Pubkey,
    /// The asset type deposited in the vault.
    pub mint_a: Pubkey,
    /// The asset type asked for in return.
    pub mint_b: Pubkey,
    /// Units of `mint_a` deposited.
    pub amount: u64,
    /// Units of `mint_b` the maker receives.
    pub receive: u64,
    /// The maker's discriminator for this escrow.
    pub seed: u8,
    /// The bump of the escrow's derived address.
    pub escrow_bump: u8,
}

/// Bytes of an encoded record.
pub const ESCROW_SIZE: usize = 114;

/// The byte layout of a record: the three keys, the two amounts in little
/// endian, the seed and the bump.
pub open spec fn encoding(e: Escrow) -> Seq<u8> {
    e.maker@ + e.mint_a@ + e.mint_b@ + spec_u64_to_le_bytes(e.amount) + spec_u64_to_le_bytes(e.receive)
        + seq![e.seed, e.escrow_bump]
}

/// Whether `e` is the record that `data` encodes.
pub open spec fn decodes_to(data: Seq<u8>, e: Escrow) -> bool {
    &&& data.len() == ESCROW_SIZE
    &&& e.maker@ == data.subrange(0, 32)
    &&& e.mint_a@ == data.subrange(32, 64)
    &&& e.mint_b@ == data.subrange(64, 96)
    &&& e.amount == spec_u64_from_le_bytes(data.subrange(96, 104))
    &&& e.receive == spec_u64_from_le_bytes(data.subrange(104, 112))
    &&& e.seed == data[112]
    &&& e.escrow_bump == data[113]
}

/// Whether two records hold the same terms.
pub open spec fn same_terms(a: Escrow, b: Escrow) -> bool {
    &&& a.maker@ == b.maker@
    &&& a.mint_a@ == b.mint_a@
    &&& a.mint_b@ == b.mint_b@
    &&& a.amount == b.amount
    &&& a.receive == b.receive
    &&& a.seed == b.seed
    &&& a.escrow_bump == b.escrow_bump
}

fn push_key(out: &mut Vec<u8>, k: &Pubkey)
    ensures
        final(out)@ == old(out)@ + k@,
{
    let mut i: usize = 0;
    while i < 32
        invariant
            i <= 32,
            k@.len() == 32,
            out@ == old(out)@ + k@.take(i as int),
        decreases 32 - i,
    {
        out.push(k[i]);
        i += 1;
        assert(out@ =~= old(out)@ + k@.take(i as int));
    }
    assert(k@.take(32) =~= k@);
}

fn push_bytes(out: &mut Vec<u8>, b: &Vec<u8>)
    ensures
        final(out)@ == old(out)@ + b@,
{
    let mut i: usize = 0;
    while i < b.len()
        invariant
            i <= b@.len(),
            out@ == old(out)@ + b@.take(i as int),
        decreases b@.len() - i,
    {
        out.push(b[i]);
        i += 1;
        assert(out@ =~= old(out)@ + b@.take(i as int));
    }
    assert(b@.take(b@.len() as int) =~= b@);
}

fn read_key(data: &[u8], off: usize) -> (r: Pubkey)
    requires
        off + 32 <= data@.len(),
    ensures
        r@ == data@.subrange(off as int, off + 32),
{
    let n = data.len();
    let mut r: Pubkey = [0u8; 32];
    let mut i: usize = 0;
    while i < 32
        invariant
            i <= 32,
            off + 32 <= data@.len(),
            n == data@.len(),
            r@.len() == 32,
            forall|j: int| 0 <= j < i ==> r@[j] == data@[off + j],
        decreases 32 - i,
    {
        r[i] = data[off + i];
        i += 1;
    }
    assert(r@ =~= data@.subrange(off as int, off + 32));
    r
}

impl Escrow {
    /// The record's bytes.
    pub fn encode(&self) -> (r: Vec<u8>)
        ensures
            r@ == encoding(*self),
            r@.len() == ESCROW_SIZE,
    {
        let mut out: Vec<u8> = Vec::new();
        push_key(&mut out, &self.maker);
        push_key(&mut out, &self.mint_a);
        push_key(&mut out, &self.mint_b);
        let a = u64_to_le_bytes(self.amount);
        push_bytes(&mut out, &a);
        let b = u64_to_le_bytes(self.receive);
        push_bytes(&mut out, &b);
        out.push(self.seed);
        out.push(self.escrow_bump);
        assert(out@ =~= encoding(*self));
        out
    }

    /// Reads a record from an account's data: it must be exactly
    /// `ESCROW_SIZE` bytes long.
    pub fn decode(data: &[u8]) -> (r: Result<Escrow, EscrowError>)
        ensures
            data@.len() == ESCROW_SIZE <==> r is Ok,
            r matches Ok(e) ==> decodes_to(data@, e),
            r matches Err(e) ==> e == EscrowError::InvalidAccountData,
    {
        if data.len() != ESCROW_SIZE {
            return Err(EscrowError::InvalidAccountData);
        }
        let maker = read_key(data, 0);
        let mint_a = read_key(data, 32);
        let mint_b = read_key(data, 64);
        let amount = u64_from_le_bytes(slice_subrange(data, 96, 104));
        let receive = u64_from_le_bytes(slice_subrange(data, 104, 112));
        Ok(Escrow { maker, mint_a, mint_b, amount, receive, seed: data[112], escrow_bump: data[113] })
    }
}

/// Decoding the encoding of a record gives back the same terms.
pub proof fn lemma_decode_encoding(e: Escrow, d: Escrow)
    requires
        decodes_to(encoding(e), d),
    ensures
        same_terms(e, d),
{
    vstd::bytes::lemma_auto_spec_u64_to_from_le_bytes();
    let s = encoding(e);
    assert(s.subrange(0, 32) =~= e.maker@);
    assert(s.subrange(32, 64) =~= e.mint_a@);
    assert(s.subrange(64, 96) =~= e.mint_b@);
    assert(s.subrange(96, 104) =~= spec_u64_to_le_bytes(e.amount));
    assert(s.subrange(104, 112) =~= spec_u64_to_le_bytes(e.receive));
}

/// At most one record decodes from given bytes.
pub proof fn lemma_decodes_to_unique(data: Seq<u8>, e: Escrow)
    requires
        decodes_to(data, e),
    ensures
        forall|f: Escrow| decodes_to(data, f) ==> f == e,
{
    assert forall|f: Escrow| decodes_to(data, f) implies f == e by {
        assert(f.maker@ =~= e.maker@);
        assert(f.maker =~= e.maker);
        assert(f.mint_a =~= e.mint_a);
        assert(f.mint_b =~= e.mint_b);
    }
}

/// The encoding of a record decodes to it.
pub proof fn lemma_encode_decodes(e: Escrow)
    ensures
        decodes_to(encoding(e), e),
{
    vstd::bytes::lemma_auto_spec_u64_to_from_le_bytes();
    let s = encoding(e);
    assert(s.subrange(0, 32) =~= e.maker@);
    assert(s.subrange(32, 64) =~= e.mint_a@);
    assert(s.subrange(64, 96) =~= e.mint_b@);
    assert(s.subrange(96, 104) =~= spec_u64_to_le_bytes(e.amount));
    assert(s.subrange(104, 112) =~= spec_u64_to_le_bytes(e.receive));
}

} // verus!
