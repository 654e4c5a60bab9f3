use vstd::prelude::*;

use crate::address::{custody_preimage, custody_seeds, system_program_id, tag_bytes, Pubkey, Tag};
use crate::error::EscrowError;
use crate::gate::{at_derived, bump_of, derivation_of};
use crate::ledger::{is_vacant, run, step, AccountMeta};
use crate::make::{make_gate, make_plan, make_record, Make};
use crate::record::{encoding, lemma_decode_encoding};
use crate::refund::{refund_gate, refund_plan, Refund, RefundInstruction};
use crate::take::{take_gate, take_plan, Take, TakeInstruction};

verus! {

/// Distinct `(tag, owner, seed)` triples give distinct seed lists, and
/// distinct bytes for the derivation to hash, so the vault and the record of
/// one escrow, and the custody addresses of any two escrows, are derived from
/// different inputs. That the derived addresses then differ rests on the
/// ledger's hash.
pub proof fn lemma_custody_inputs_distinct(t1: Tag, o1: Seq<u8>, s1: u8, t2: Tag, o2: Seq<u8>, s2: u8)
    requires
        o1.len() == 32,
        o2.len() == 32,
        t1 != t2 || o1 != o2 || s1 != s2,
    ensures
        custody_seeds(t1, o1, s1) != custody_seeds(t2, o2, s2),
        custody_preimage(t1, o1, s1) != custody_preimage(t2, o2, s2),
{
    let pre1 = custody_preimage(t1, o1, s1);
    let pre2 = custody_preimage(t2, o2, s2);
    if pre1 == pre2 {
        let n: int = tag_bytes(t1).len() as int;
        assert(tag_bytes(t2).len() == n) by {
            assert(pre1.len() == n + 33);
        }
        assert(t1 == t2) by {
            if t1 != t2 {
                assert(tag_bytes(t1).len() != tag_bytes(t2).len());
            }
        }
        assert(o1 =~= pre1.subrange(n, n + 32));
        assert(o2 =~= pre2.subrange(n, n + 32));
        assert(pre1[n + 32] == s1);
        assert(pre2[n + 32] == s2);
    }
    if custody_seeds(t1, o1, s1) == custody_seeds(t2, o2, s2) {
        assert(custody_seeds(t1, o1, s1)[0] == tag_bytes(t1));
        assert(custody_seeds(t1, o1, s1)[1] == o1);
        assert(custody_seeds(t1, o1, s1)[2][0] == s1);
        assert(custody_seeds(t2, o2, s2)[2][0] == s2);
        if t1 != t2 {
            assert(tag_bytes(t1).len() != tag_bytes(t2).len());
        }
    }
}

/// Every derivation that is found for the same `(tag, owner, seed)` under
/// the same program is the same address with the same bump: the addresses
/// that one operation accepted are the ones a later operation on the same
/// escrow accepts.
pub proof fn lemma_derivations_agree(
    f1: Option<(Pubkey, u8)>,
    f2: Option<(Pubkey, u8)>,
    t: Tag,
    owner: Seq<u8>,
    seed: u8,
    program_id: Seq<u8>,
    acct: AccountMeta,
)
    requires
        f1 is Some,
        f2 is Some,
        derivation_of(f1, t, owner, seed, program_id),
        derivation_of(f2, t, owner, seed, program_id),
    ensures
        f1 == f2,
        at_derived(acct, f1) == at_derived(acct, f2),
        bump_of(f1) == bump_of(f2),
{
    let (k1, b1) = f1->Some_0;
    let (k2, b2) = f2->Some_0;
    assert(k1@ == k2@);
    assert(k1 =~= k2);
}

/// Make's checks decide the same way on equal accounts and data whenever the
/// derivations of the vault and the record are found, whichever call found
/// them.
pub proof fn lemma_make_deterministic(
    s: Seq<AccountMeta>,
    d: crate::make::MakeInstruction,
    program_id: Seq<u8>,
    vf: Option<(Pubkey, u8)>,
    ef: Option<(Pubkey, u8)>,
    vf2: Option<(Pubkey, u8)>,
    ef2: Option<(Pubkey, u8)>,
)
    requires
        s.len() == crate::make::MAKE_ACCOUNTS,
        vf is Some,
        ef is Some,
        vf2 is Some,
        ef2 is Some,
        derivation_of(vf, Tag::Vault, s[crate::make::MAKER as int].key@, d.seed, program_id),
        derivation_of(ef, Tag::Escrow, s[crate::make::MAKER as int].key@, d.seed, program_id),
        derivation_of(vf2, Tag::Vault, s[crate::make::MAKER as int].key@, d.seed, program_id),
        derivation_of(ef2, Tag::Escrow, s[crate::make::MAKER as int].key@, d.seed, program_id),
    ensures
        make_gate(s, d, vf, ef) == make_gate(s, d, vf2, ef2),
{
    let maker = s[crate::make::MAKER as int].key@;
    lemma_derivations_agree(vf, vf2, Tag::Vault, maker, d.seed, program_id, s[crate::make::VAULT as int]);
    lemma_derivations_agree(ef, ef2, Tag::Escrow, maker, d.seed, program_id, s[crate::make::ESCROW as int]);
}

/// A plan of four actions runs as its four steps in turn.
proof fn lemma_run4(s: Seq<AccountMeta>, plan: Seq<crate::ledger::Action>)
    requires
        plan.len() == 4,
    ensures
        run(s, plan) == (match step(s, plan[0]) {
            Ok(a) => match step(a, plan[1]) {
                Ok(b) => match step(b, plan[2]) {
                    Ok(c) => step(c, plan[3]),
                    Err(e) => Err(e),
                },
                Err(e) => Err(e),
            },
            Err(e) => Err(e),
        }),
{
    reveal_with_fuel(run, 5);
    assert(plan.drop_last().drop_last().drop_last().drop_last() =~= Seq::<crate::ledger::Action>::empty());
    assert(plan.drop_last().drop_last().drop_last() =~= seq![plan[0]]);
    assert(plan.drop_last().drop_last() =~= seq![plan[0], plan[1]]);
    assert(plan.drop_last() =~= seq![plan[0], plan[1], plan[2]]);
}

/// A plan of three actions runs as its three steps in turn.
proof fn lemma_run3(s: Seq<AccountMeta>, plan: Seq<crate::ledger::Action>)
    requires
        plan.len() == 3,
    ensures
        run(s, plan) == (match step(s, plan[0]) {
            Ok(a) => match step(a, plan[1]) {
                Ok(b) => step(b, plan[2]),
                Err(e) => Err(e),
            },
            Err(e) => Err(e),
        }),
{
    reveal_with_fuel(run, 4);
    assert(plan.drop_last().drop_last().drop_last() =~= Seq::<crate::ledger::Action>::empty());
    assert(plan.drop_last().drop_last() =~= seq![plan[0]]);
    assert(plan.drop_last() =~= seq![plan[0], plan[1]]);
}

/// A Make that runs leaves the vault holding exactly the deposit of asset A
/// under this program, and the record's account created for this program.
pub proof fn lemma_make_funds_vault(
    s: Seq<AccountMeta>,
    d: crate::make::MakeInstruction,
    vf: Option<(Pubkey, u8)>,
    ef: Option<(Pubkey, u8)>,
    m: Make,
    program_id: Pubkey,
    record_rent: u64,
    vault_rent: u64,
    out: Seq<AccountMeta>,
)
    requires
        make_gate(s, d, vf, ef) == Ok::<Make, EscrowError>(m),
        run(s, make_plan(m, program_id, record_rent, vault_rent)) == Ok::<Seq<AccountMeta>, EscrowError>(out),
    ensures
        out.len() == s.len(),
        out[crate::make::VAULT as int].amount == d.amount,
        out[crate::make::VAULT as int].owner@ == crate::address::token_program_id(),
        out[crate::make::VAULT as int].authority == s[crate::make::VAULT as int].key,
        out[crate::make::VAULT as int].mint@ == s[crate::make::MINT_A as int].key@,
        out[crate::make::ESCROW as int].owner == program_id,
        out[crate::make::MAKER_ATA_A as int].amount == s[crate::make::MAKER_ATA_A as int].amount - d.amount,
        make_record(m).amount == d.amount,
        make_record(m).maker == s[crate::make::MAKER as int].key,
{
    lemma_run3(s, make_plan(m, program_id, record_rent, vault_rent));
}

/// A Take that runs leaves the vault and the record's account closed: no
/// asset and no native balance left, both back with the system program.
/// Afterwards no Take on those accounts, and no Refund naming that record's
/// account, can pass the checks.
pub proof fn lemma_take_drains(
    s: Seq<AccountMeta>,
    d: TakeInstruction,
    program_id: Seq<u8>,
    data: Seq<u8>,
    vf: Option<(Pubkey, u8)>,
    ef: Option<(Pubkey, u8)>,
    t: Take,
    out: Seq<AccountMeta>,
    d2: TakeInstruction,
    data2: Seq<u8>,
    vf2: Option<(Pubkey, u8)>,
    ef2: Option<(Pubkey, u8)>,
    rs: Seq<AccountMeta>,
    rd: RefundInstruction,
)
    requires
        program_id != system_program_id(),
        take_gate(s, d, program_id, data, vf, ef) == Ok::<Take, EscrowError>(t),
        run(s, take_plan(t)) == Ok::<Seq<AccountMeta>, EscrowError>(out),
    ensures
        is_vacant(out[crate::take::VAULT as int]),
        is_vacant(out[crate::take::ESCROW as int]),
        take_gate(out, d2, program_id, data2, vf2, ef2) is Err,
        rs.len() == crate::refund::REFUND_ACCOUNTS && rs[crate::refund::ESCROW as int] == out[crate::take::ESCROW as int]
            ==> refund_gate(rs, rd, program_id, data2, vf2, ef2) is Err,
{
    lemma_take_plan_closes(s, t, out);
    lemma_closed_record_refuses_take(out, d2, program_id, data2, vf2, ef2);
    if rs.len() == crate::refund::REFUND_ACCOUNTS && rs[crate::refund::ESCROW as int] == out[crate::take::ESCROW as int] {
        lemma_closed_record_refuses_refund(rs, rd, program_id, data2, vf2, ef2);
    }
}

/// A Take plan that runs ends with the vault and the record's account closed.
proof fn lemma_take_plan_closes(s: Seq<AccountMeta>, t: Take, out: Seq<AccountMeta>)
    requires
        run(s, take_plan(t)) == Ok::<Seq<AccountMeta>, EscrowError>(out),
    ensures
        is_vacant(out[crate::take::VAULT as int]),
        is_vacant(out[crate::take::ESCROW as int]),
{
    let p = take_plan(t);
    lemma_run4(s, p);
    let a = step(s, p[0])->Ok_0;
    let b = step(a, p[1])->Ok_0;
    let c = step(b, p[2])->Ok_0;
    assert(step(c, p[3]) == Ok::<Seq<AccountMeta>, EscrowError>(out));
    crate::address::lemma_system_key();
    assert(is_vacant(c[crate::take::VAULT as int]));
}

/// Take's checks refuse a record's account that holds nothing and belongs
/// to the system program, as one does once it was closed.
pub proof fn lemma_closed_record_refuses_take(
    s: Seq<AccountMeta>,
    d: TakeInstruction,
    program_id: Seq<u8>,
    data: Seq<u8>,
    vf: Option<(Pubkey, u8)>,
    ef: Option<(Pubkey, u8)>,
)
    requires
        program_id != system_program_id(),
        s.len() == crate::take::TAKE_ACCOUNTS ==> is_vacant(s[crate::take::ESCROW as int]),
    ensures
        take_gate(s, d, program_id, data, vf, ef) is Err,
{
}

/// A Refund that runs leaves the vault and the record's account closed: no
/// asset and no native balance left, both back with the system program.
/// Afterwards no Refund on those accounts, and no Take naming that record's
/// account, can pass the checks.
pub proof fn lemma_refund_drains(
    s: Seq<AccountMeta>,
    d: RefundInstruction,
    program_id: Seq<u8>,
    data: Seq<u8>,
    vf: Option<(Pubkey, u8)>,
    ef: Option<(Pubkey, u8)>,
    r: Refund,
    out: Seq<AccountMeta>,
    d2: RefundInstruction,
    data2: Seq<u8>,
    vf2: Option<(Pubkey, u8)>,
    ef2: Option<(Pubkey, u8)>,
    ts: Seq<AccountMeta>,
    td: TakeInstruction,
)
    requires
        program_id != system_program_id(),
        refund_gate(s, d, program_id, data, vf, ef) == Ok::<Refund, EscrowError>(r),
        run(s, refund_plan(r)) == Ok::<Seq<AccountMeta>, EscrowError>(out),
    ensures
        is_vacant(out[crate::refund::VAULT as int]),
        is_vacant(out[crate::refund::ESCROW as int]),
        refund_gate(out, d2, program_id, data2, vf2, ef2) is Err,
        ts.len() == crate::take::TAKE_ACCOUNTS && ts[crate::take::ESCROW as int] == out[crate::refund::ESCROW as int]
            ==> take_gate(ts, td, program_id, data2, vf2, ef2) is Err,
{
    let p = refund_plan(r);
    lemma_run3(s, p);
    let a = step(s, p[0])->Ok_0;
    let b = step(a, p[1])->Ok_0;
    assert(step(b, p[2]) == Ok::<Seq<AccountMeta>, EscrowError>(out));
    crate::address::lemma_system_key();
    assert(is_vacant(out[crate::refund::VAULT as int]));
    assert(is_vacant(out[crate::refund::ESCROW as int]));
    lemma_closed_record_refuses_refund(out, d2, program_id, data2, vf2, ef2);
    if ts.len() == crate::take::TAKE_ACCOUNTS && ts[crate::take::ESCROW as int] == out[crate::refund::ESCROW as int] {
        lemma_closed_record_refuses_take(ts, td, program_id, data2, vf2, ef2);
    }
}

/// Refund's checks refuse a record's account that holds nothing and belongs
/// to the system program, as one does once it was closed.
pub proof fn lemma_closed_record_refuses_refund(
    s: Seq<AccountMeta>,
    d: RefundInstruction,
    program_id: Seq<u8>,
    data: Seq<u8>,
    vf: Option<(Pubkey, u8)>,
    ef: Option<(Pubkey, u8)>,
)
    requires
        program_id != system_program_id(),
        s.len() == crate::refund::REFUND_ACCOUNTS ==> is_vacant(s[crate::refund::ESCROW as int]),
    ensures
        refund_gate(s, d, program_id, data, vf, ef) is Err,
{
}

/// Take moves both legs or neither: when its plan runs, the taker has paid
/// the asking amount of B to the maker and received the deposit of A; when
/// it fails, `execute` leaves every account as it was.
pub proof fn lemma_take_both_legs(
    s: Seq<AccountMeta>,
    d: TakeInstruction,
    program_id: Seq<u8>,
    data: Seq<u8>,
    vf: Option<(Pubkey, u8)>,
    ef: Option<(Pubkey, u8)>,
    t: Take,
    out: Seq<AccountMeta>,
)
    requires
        take_gate(s, d, program_id, data, vf, ef) == Ok::<Take, EscrowError>(t),
        run(s, take_plan(t)) == Ok::<Seq<AccountMeta>, EscrowError>(out),
    ensures
        out.len() == s.len(),
        out[crate::take::TAKER_ATA_B as int].amount == s[crate::take::TAKER_ATA_B as int].amount - d.amount,
        out[crate::take::MAKER_ATA_B as int].amount == s[crate::take::MAKER_ATA_B as int].amount + d.amount,
        out[crate::take::TAKER_ATA_A as int].amount == s[crate::take::TAKER_ATA_A as int].amount + t.record.amount,
        out[crate::take::TAKER_ATA_A as int].authority@ == s[crate::take::TAKER as int].key@,
        out[crate::take::MAKER_ATA_B as int].authority@ == s[crate::take::MAKER as int].key@,
        t.record.amount == s[crate::take::VAULT as int].amount,
{
    lemma_run4(s, take_plan(t));
}

/// Refund gives the maker back exactly the amount that Make recorded, into
/// an asset account of asset A held for that maker, and moves no other
/// asset balance but the vault's.
pub proof fn lemma_refund_returns_deposit(
    m: Make,
    s: Seq<AccountMeta>,
    d: RefundInstruction,
    program_id: Seq<u8>,
    vf: Option<(Pubkey, u8)>,
    ef: Option<(Pubkey, u8)>,
    r: Refund,
    out: Seq<AccountMeta>,
)
    requires
        refund_gate(s, d, program_id, encoding(make_record(m)), vf, ef) == Ok::<Refund, EscrowError>(r),
        run(s, refund_plan(r)) == Ok::<Seq<AccountMeta>, EscrowError>(out),
    ensures
        out.len() == s.len(),
        out[crate::refund::MAKER_ATA_A as int].amount == s[crate::refund::MAKER_ATA_A as int].amount
            + m.instruction_data.amount,
        out[crate::refund::MAKER_ATA_A as int].authority@ == m.accounts.maker.key@,
        out[crate::refund::MAKER_ATA_A as int].mint@ == m.accounts.mint_a.key@,
        out[crate::refund::MAKER_ATA_A as int].key == s[crate::refund::MAKER_ATA_A as int].key,
        forall|i: int|
            0 <= i < s.len() && i != crate::refund::VAULT && i != crate::refund::MAKER_ATA_A ==> #[trigger] out[i].amount
                == s[i].amount,
{
    lemma_run3(s, refund_plan(r));
    let data = encoding(make_record(m));
    crate::record::lemma_encode_decodes(make_record(m));
    crate::record::lemma_decodes_to_unique(data, r.record);
    lemma_decode_encoding(make_record(m), r.record);
}

/// A Take naming an escrow for which no record exists fails on the address
/// check or as not found, before any effect.
pub proof fn lemma_take_without_record(
    s: Seq<AccountMeta>,
    d: TakeInstruction,
    program_id: Seq<u8>,
    data: Seq<u8>,
    vf: Option<(Pubkey, u8)>,
    ef: Option<(Pubkey, u8)>,
)
    requires
        s.len() == crate::take::TAKE_ACCOUNTS,
        s[crate::take::TAKER as int].is_signer,
        s[crate::take::ESCROW as int].owner@ != program_id,
    ensures
        take_gate(s, d, program_id, data, vf, ef) == Err::<Take, EscrowError>(EscrowError::InvalidSeeds)
            || take_gate(s, d, program_id, data, vf, ef) == Err::<Take, EscrowError>(EscrowError::UninitializedAccount),
{
}

/// A Refund naming an escrow for which no record exists fails on the
/// address check or as not found, before any effect.
pub proof fn lemma_refund_without_record(
    s: Seq<AccountMeta>,
    d: RefundInstruction,
    program_id: Seq<u8>,
    data: Seq<u8>,
    vf: Option<(Pubkey, u8)>,
    ef: Option<(Pubkey, u8)>,
)
    requires
        s.len() == crate::refund::REFUND_ACCOUNTS,
        s[crate::refund::MAKER as int].is_signer,
        s[crate::refund::ESCROW as int].owner@ != program_id,
    ensures
        refund_gate(s, d, program_id, data, vf, ef) == Err::<Refund, EscrowError>(EscrowError::InvalidSeeds)
            || refund_gate(s, d, program_id, data, vf, ef) == Err::<Refund, EscrowError>(EscrowError::UninitializedAccount),
{
}

/// The accounts of a Refund drawn from those of a Make.
pub open spec fn refund_accounts_of(s: Seq<AccountMeta>) -> Seq<AccountMeta> {
    seq![
        s[crate::make::MAKER as int],
        s[crate::make::MINT_A as int],
        s[crate::make::MAKER_ATA_A as int],
        s[crate::make::ESCROW as int],
        s[crate::make::VAULT as int],
    ]
}

/// After a Make has run, the maker's Refund of the same seed passes every
/// check, with the derivations it finds itself, and runs: the maker holds again exactly the asset and the native
/// balance held before the Make, and the vault and the record's account are
/// closed.
pub proof fn lemma_make_then_refund(
    s: Seq<AccountMeta>,
    d: crate::make::MakeInstruction,
    vf: Option<(Pubkey, u8)>,
    ef: Option<(Pubkey, u8)>,
    m: Make,
    program_id: Pubkey,
    record_rent: u64,
    vault_rent: u64,
    made: Seq<AccountMeta>,
    vf2: Option<(Pubkey, u8)>,
    ef2: Option<(Pubkey, u8)>,
)
    requires
        make_gate(s, d, vf, ef) == Ok::<Make, EscrowError>(m),
        run(s, make_plan(m, program_id, record_rent, vault_rent)) == Ok::<Seq<AccountMeta>, EscrowError>(made),
        derivation_of(vf, Tag::Vault, s[crate::make::MAKER as int].key@, d.seed, program_id@),
        derivation_of(ef, Tag::Escrow, s[crate::make::MAKER as int].key@, d.seed, program_id@),
        vf2 is Some,
        ef2 is Some,
        derivation_of(vf2, Tag::Vault, s[crate::make::MAKER as int].key@, d.seed, program_id@),
        derivation_of(ef2, Tag::Escrow, s[crate::make::MAKER as int].key@, d.seed, program_id@),
    ensures
        ({
            let rs = refund_accounts_of(made);
            let g = refund_gate(rs, RefundInstruction { seed: d.seed }, program_id@, encoding(make_record(m)), vf2, ef2);
            &&& g is Ok
            &&& run(rs, refund_plan(g->Ok_0)) is Ok
            &&& run(rs, refund_plan(g->Ok_0))->Ok_0[crate::refund::MAKER_ATA_A as int].amount
                == s[crate::make::MAKER_ATA_A as int].amount
            &&& run(rs, refund_plan(g->Ok_0))->Ok_0[crate::refund::MAKER as int].lamports
                == s[crate::make::MAKER as int].lamports
            &&& is_vacant(run(rs, refund_plan(g->Ok_0))->Ok_0[crate::refund::VAULT as int])
            &&& is_vacant(run(rs, refund_plan(g->Ok_0))->Ok_0[crate::refund::ESCROW as int])
        }),
{
    let maker = s[crate::make::MAKER as int].key@;
    lemma_derivations_agree(vf, vf2, Tag::Vault, maker, d.seed, program_id@, s[crate::make::VAULT as int]);
    lemma_derivations_agree(ef, ef2, Tag::Escrow, maker, d.seed, program_id@, s[crate::make::ESCROW as int]);
    let mp = make_plan(m, program_id, record_rent, vault_rent);
    lemma_run3(s, mp);
    let a = step(s, mp[0])->Ok_0;
    let b = step(a, mp[1])->Ok_0;
    assert(step(b, mp[2]) == Ok::<Seq<AccountMeta>, EscrowError>(made));
    let rs = refund_accounts_of(made);
    let data = encoding(make_record(m));
    crate::record::lemma_encode_decodes(make_record(m));
    crate::record::lemma_decodes_to_unique(data, make_record(m));
    let e = choose|e: crate::record::Escrow| crate::record::decodes_to(data, e);
    assert(e == make_record(m));
    let d2 = RefundInstruction { seed: d.seed };
    let g = refund_gate(rs, d2, program_id@, data, vf2, ef2);
    assert(g is Ok);
    let r = g->Ok_0;
    assert(r.record == make_record(m));
    let rp = refund_plan(r);
    lemma_run3(rs, rp);
    let x = step(rs, rp[0])->Ok_0;
    assert(step(rs, rp[0]) is Ok);
    let y = step(x, rp[1])->Ok_0;
    assert(step(x, rp[1]) is Ok);
    assert(step(y, rp[2]) is Ok);
    crate::address::lemma_system_key();
}

/// The accounts of a Take drawn from those of a Make and the taker's own.
pub open spec fn take_accounts_of(
    s: Seq<AccountMeta>,
    taker: AccountMeta,
    taker_ata_a: AccountMeta,
    taker_ata_b: AccountMeta,
    maker_ata_b: AccountMeta,
) -> Seq<AccountMeta> {
    seq![
        taker,
        s[crate::make::MAKER as int],
        s[crate::make::MINT_A as int],
        s[crate::make::MINT_B as int],
        taker_ata_a,
        taker_ata_b,
        maker_ata_b,
        s[crate::make::ESCROW as int],
        s[crate::make::VAULT as int],
    ]
}

/// After a Make has run, a signed Take of the same seed that offers the
/// asking amount from the taker's asset account of B passes every check,
/// with the derivations it finds itself, and runs: the taker pays the asking amount of B to the maker and receives the
/// deposit of A, the maker gets back the native balance paid for the two
/// accounts, and the vault and the record's account are closed.
pub proof fn lemma_make_then_take(
    s: Seq<AccountMeta>,
    d: crate::make::MakeInstruction,
    vf: Option<(Pubkey, u8)>,
    ef: Option<(Pubkey, u8)>,
    m: Make,
    program_id: Pubkey,
    record_rent: u64,
    vault_rent: u64,
    made: Seq<AccountMeta>,
    taker: AccountMeta,
    taker_ata_a: AccountMeta,
    taker_ata_b: AccountMeta,
    maker_ata_b: AccountMeta,
    vf2: Option<(Pubkey, u8)>,
    ef2: Option<(Pubkey, u8)>,
)
    requires
        make_gate(s, d, vf, ef) == Ok::<Make, EscrowError>(m),
        derivation_of(vf, Tag::Vault, s[crate::make::MAKER as int].key@, d.seed, program_id@),
        derivation_of(ef, Tag::Escrow, s[crate::make::MAKER as int].key@, d.seed, program_id@),
        vf2 is Some,
        ef2 is Some,
        derivation_of(vf2, Tag::Vault, s[crate::make::MAKER as int].key@, d.seed, program_id@),
        derivation_of(ef2, Tag::Escrow, s[crate::make::MAKER as int].key@, d.seed, program_id@),
        run(s, make_plan(m, program_id, record_rent, vault_rent)) == Ok::<Seq<AccountMeta>, EscrowError>(made),
        taker.is_signer,
        crate::gate::holds_for(taker_ata_a, s[crate::make::MINT_A as int].key@, taker.key@),
        crate::gate::holds_for(taker_ata_b, s[crate::make::MINT_B as int].key@, taker.key@),
        crate::gate::holds_for(maker_ata_b, s[crate::make::MINT_B as int].key@, s[crate::make::MAKER as int].key@),
        taker_ata_b.amount >= d.receive,
        maker_ata_b.amount + d.receive <= u64::MAX,
        taker_ata_a.amount + d.amount <= u64::MAX,
    ensures
        ({
            let ts = take_accounts_of(made, taker, taker_ata_a, taker_ata_b, maker_ata_b);
            let g = take_gate(ts, TakeInstruction { amount: d.receive, seed: d.seed }, program_id@, encoding(make_record(m)), vf2, ef2);
            let out = run(ts, take_plan(g->Ok_0))->Ok_0;
            &&& g is Ok
            &&& run(ts, take_plan(g->Ok_0)) is Ok
            &&& out[crate::take::TAKER_ATA_B as int].amount == taker_ata_b.amount - d.receive
            &&& out[crate::take::MAKER_ATA_B as int].amount == maker_ata_b.amount + d.receive
            &&& out[crate::take::TAKER_ATA_A as int].amount == taker_ata_a.amount + d.amount
            &&& out[crate::take::MAKER as int].lamports == s[crate::make::MAKER as int].lamports
            &&& is_vacant(out[crate::take::VAULT as int])
            &&& is_vacant(out[crate::take::ESCROW as int])
        }),
{
    let maker = s[crate::make::MAKER as int].key@;
    lemma_derivations_agree(vf, vf2, Tag::Vault, maker, d.seed, program_id@, s[crate::make::VAULT as int]);
    lemma_derivations_agree(ef, ef2, Tag::Escrow, maker, d.seed, program_id@, s[crate::make::ESCROW as int]);
    let mp = make_plan(m, program_id, record_rent, vault_rent);
    lemma_run3(s, mp);
    let a = step(s, mp[0])->Ok_0;
    let b = step(a, mp[1])->Ok_0;
    assert(step(b, mp[2]) == Ok::<Seq<AccountMeta>, EscrowError>(made));
    let ts = take_accounts_of(made, taker, taker_ata_a, taker_ata_b, maker_ata_b);
    let data = encoding(make_record(m));
    crate::record::lemma_encode_decodes(make_record(m));
    crate::record::lemma_decodes_to_unique(data, make_record(m));
    let e = choose|e: crate::record::Escrow| crate::record::decodes_to(data, e);
    assert(e == make_record(m));
    let d2 = TakeInstruction { amount: d.receive, seed: d.seed };
    let g = take_gate(ts, d2, program_id@, data, vf2, ef2);
    assert(g is Ok);
    let t = g->Ok_0;
    assert(t.record == make_record(m));
    let tp = take_plan(t);
    lemma_run4(ts, tp);
    assert(step(ts, tp[0]) is Ok);
    let w = step(ts, tp[0])->Ok_0;
    assert(step(w, tp[1]) is Ok);
    let x = step(w, tp[1])->Ok_0;
    assert(step(x, tp[2]) is Ok);
    let y = step(x, tp[2])->Ok_0;
    assert(step(y, tp[3]) is Ok);
    crate::address::lemma_system_key();
}

} // verus!
