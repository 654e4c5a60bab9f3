use escrow::address::{is_system_program, is_token_program, key_bytes, key_eq, tag_seed, Pubkey, Tag};
use escrow::error::EscrowError;
use escrow::instruction::EscrowInstruction;
use escrow::ledger::{execute, AccountMeta, Action};
use escrow::make::{Make, MakeInstruction};
use escrow::record::{Escrow, ESCROW_SIZE};
use escrow::refund::{Refund, RefundInstruction};
use escrow::take::{Take, TakeInstruction};

const SYSTEM: Pubkey = [0u8; 32];
const PROGRAM: Pubkey = [9u8; 32];
const MAKER: Pubkey = [1u8; 32];
const TAKER: Pubkey = [2u8; 32];
const MINT_X: Pubkey = [3u8; 32];
const MINT_Y: Pubkey = [4u8; 32];
const MAKER_X: Pubkey = [5u8; 32];
const MAKER_Y: Pubkey = [6u8; 32];
const TAKER_X: Pubkey = [7u8; 32];
const TAKER_Y: Pubkey = [8u8; 32];
const ESCROW_KEY: Pubkey = [10u8; 32];
const VAULT_KEY: Pubkey = [11u8; 32];
const TOKEN_PROGRAM: Pubkey = pinocchio_token::ID;
const AMOUNT: u64 = 1_000_000;

fn plain(key: Pubkey, signer: bool, lamports: u64) -> AccountMeta {
    AccountMeta { key, owner: SYSTEM, is_signer: signer, lamports, mint: SYSTEM, authority: SYSTEM, amount: 0 }
}

fn holding(key: Pubkey, mint: Pubkey, authority: Pubkey, amount: u64) -> AccountMeta {
    AccountMeta { key, owner: TOKEN_PROGRAM, is_signer: false, lamports: 2_000, mint, authority, amount }
}

fn make_accounts() -> Vec<AccountMeta> {
    vec![
        plain(MAKER, true, 10_000_000),
        plain(MINT_X, false, 1),
        plain(MINT_Y, false, 1),
        holding(MAKER_X, MINT_X, MAKER, 5_000_000),
        plain(ESCROW_KEY, false, 0),
        plain(VAULT_KEY, false, 0),
        plain(TOKEN_PROGRAM, false, 1),
    ]
}

fn make_data() -> MakeInstruction {
    MakeInstruction { amount: AMOUNT, receive: AMOUNT, seed: 7 }
}

fn vault_found() -> Option<(Pubkey, u8)> {
    Some((VAULT_KEY, 254))
}

fn escrow_found() -> Option<(Pubkey, u8)> {
    Some((ESCROW_KEY, 253))
}

/// Runs a Make of 1,000,000 X for 1,000,000 Y with seed 7; returns the accounts
/// afterwards and the record's bytes.
fn made() -> (Vec<AccountMeta>, Vec<u8>) {
    let mut accounts = make_accounts();
    let m = Make::check(&accounts, make_data(), vault_found(), escrow_found()).unwrap();
    let plan = m.process(&PROGRAM, 1_500, 2_000);
    execute(&mut accounts, &plan).unwrap();
    (accounts, m.record().encode())
}

fn take_accounts(after_make: &Vec<AccountMeta>) -> Vec<AccountMeta> {
    vec![
        plain(TAKER, true, 1_000),
        after_make[0],
        after_make[1],
        after_make[2],
        holding(TAKER_X, MINT_X, TAKER, 0),
        holding(TAKER_Y, MINT_Y, TAKER, 3_000_000),
        holding(MAKER_Y, MINT_Y, MAKER, 0),
        after_make[4],
        after_make[5],
    ]
}

fn refund_accounts(after_make: &Vec<AccountMeta>) -> Vec<AccountMeta> {
    vec![after_make[0], after_make[1], after_make[3], after_make[4], after_make[5]]
}

#[test]
fn make_funds_vault_and_stores_record() {
    let (accounts, data) = made();
    assert_eq!(accounts[5].amount, AMOUNT);
    assert_eq!(accounts[5].owner, TOKEN_PROGRAM);
    assert_eq!(accounts[5].mint, MINT_X);
    assert_eq!(accounts[5].authority, VAULT_KEY);
    assert_eq!(accounts[5].lamports, 2_000);
    assert_eq!(accounts[4].owner, PROGRAM);
    assert_eq!(accounts[4].lamports, 1_500);
    assert_eq!(accounts[3].amount, 4_000_000);
    assert_eq!(accounts[0].lamports, 10_000_000 - 3_500);
    assert_eq!(data.len(), ESCROW_SIZE);
    let record = Escrow::decode(&data).unwrap();
    assert_eq!(record.maker, MAKER);
    assert_eq!(record.amount, AMOUNT);
    assert_eq!(record.receive, AMOUNT);
    assert_eq!(record.seed, 7);
    assert_eq!(record.escrow_bump, 253);
    assert_eq!(record.mint_a, MINT_X);
    assert_eq!(record.mint_b, MINT_Y);
}

#[test]
fn make_plan_creates_then_funds() {
    let m = Make::check(&make_accounts(), make_data(), vault_found(), escrow_found()).unwrap();
    assert_eq!(m.accounts.vault_bump, 254);
    let plan = m.process(&PROGRAM, 1_500, 2_000);
    assert_eq!(plan.len(), 3);
    assert_eq!(plan[2], Action::Transfer { from: 3, to: 5, amount: AMOUNT });
    assert_eq!(
        plan[1],
        Action::Create { payer: 0, account: 5, lamports: 2_000, owner: TOKEN_PROGRAM, mint: MINT_X, authority: VAULT_KEY }
    );
}

#[test]
fn take_swaps_both_legs_and_closes() {
    let (after_make, data) = made();
    let mut accounts = take_accounts(&after_make);
    let t = Take::check(&accounts, TakeInstruction { amount: AMOUNT, seed: 7 }, &PROGRAM, &data, vault_found(), escrow_found())
        .unwrap();
    let plan = t.process();
    execute(&mut accounts, &plan).unwrap();
    assert_eq!(accounts[5].amount, 3_000_000 - AMOUNT);
    assert_eq!(accounts[6].amount, AMOUNT);
    assert_eq!(accounts[4].amount, AMOUNT);
    assert_eq!(accounts[8].amount, 0);
    assert_eq!(accounts[8].lamports, 0);
    assert_eq!(accounts[8].owner, SYSTEM);
    assert_eq!(accounts[7].lamports, 0);
    assert_eq!(accounts[7].owner, SYSTEM);
    assert_eq!(accounts[1].lamports, after_make[0].lamports + 3_500);
    // The record is gone: a second Take is refused.
    let again = Take::check(&accounts, TakeInstruction { amount: AMOUNT, seed: 7 }, &PROGRAM, &data, vault_found(), escrow_found());
    assert_eq!(again, Err(EscrowError::UninitializedAccount));
}

#[test]
fn refund_returns_deposit_and_closes() {
    let (after_make, data) = made();
    let mut accounts = refund_accounts(&after_make);
    let r = Refund::check(&accounts, RefundInstruction { seed: 7 }, &PROGRAM, &data, vault_found(), escrow_found()).unwrap();
    assert_eq!(r.record.amount, AMOUNT);
    let plan = r.process();
    execute(&mut accounts, &plan).unwrap();
    assert_eq!(accounts[2].amount, 5_000_000);
    assert_eq!(accounts[4].amount, 0);
    assert_eq!(accounts[4].lamports, 0);
    assert_eq!(accounts[4].owner, SYSTEM);
    assert_eq!(accounts[3].owner, SYSTEM);
    assert_eq!(accounts[0].lamports, 10_000_000);
    let again = Refund::check(&accounts, RefundInstruction { seed: 7 }, &PROGRAM, &data, vault_found(), escrow_found());
    assert_eq!(again, Err(EscrowError::UninitializedAccount));
}

#[test]
fn take_with_wrong_vault_address_moves_nothing() {
    let (after_make, data) = made();
    let accounts = take_accounts(&after_make);
    let other_vault = Some(([42u8; 32], 250));
    let r = Take::check(&accounts, TakeInstruction { amount: AMOUNT, seed: 7 }, &PROGRAM, &data, other_vault, escrow_found());
    assert_eq!(r, Err(EscrowError::InvalidSeeds));
    let missing = Take::check(&accounts, TakeInstruction { amount: AMOUNT, seed: 7 }, &PROGRAM, &data, None, escrow_found());
    assert_eq!(missing, Err(EscrowError::InvalidSeeds));
}

#[test]
fn take_and_refund_without_record_fail() {
    let (after_make, data) = made();
    let mut take = take_accounts(&after_make);
    take[7] = plain(ESCROW_KEY, false, 0);
    let r = Take::check(&take, TakeInstruction { amount: AMOUNT, seed: 7 }, &PROGRAM, &data, vault_found(), escrow_found());
    assert_eq!(r, Err(EscrowError::UninitializedAccount));
    let mut refund = refund_accounts(&after_make);
    refund[3] = plain(ESCROW_KEY, false, 0);
    let r = Refund::check(&refund, RefundInstruction { seed: 7 }, &PROGRAM, &data, vault_found(), escrow_found());
    assert_eq!(r, Err(EscrowError::UninitializedAccount));
}

#[test]
fn take_with_other_seed_fails() {
    let (after_make, data) = made();
    let accounts = take_accounts(&after_make);
    let r = Take::check(&accounts, TakeInstruction { amount: AMOUNT, seed: 8 }, &PROGRAM, &data, vault_found(), escrow_found());
    assert_eq!(r, Err(EscrowError::InvalidAccountData));
}

#[test]
fn take_with_wrong_price_fails() {
    let (after_make, data) = made();
    let accounts = take_accounts(&after_make);
    let r = Take::check(&accounts, TakeInstruction { amount: AMOUNT - 1, seed: 7 }, &PROGRAM, &data, vault_found(), escrow_found());
    assert_eq!(r, Err(EscrowError::InvalidInstructionData));
}

#[test]
fn take_needs_taker_signature() {
    let (after_make, data) = made();
    let mut accounts = take_accounts(&after_make);
    accounts[0].is_signer = false;
    let r = Take::check(&accounts, TakeInstruction { amount: AMOUNT, seed: 7 }, &PROGRAM, &data, vault_found(), escrow_found());
    assert_eq!(r, Err(EscrowError::MissingRequiredSignature));
}

#[test]
fn take_rejects_foreign_destination() {
    let (after_make, data) = made();
    let mut accounts = take_accounts(&after_make);
    accounts[6] = holding(MAKER_Y, MINT_Y, TAKER, 0);
    let r = Take::check(&accounts, TakeInstruction { amount: AMOUNT, seed: 7 }, &PROGRAM, &data, vault_found(), escrow_found());
    assert_eq!(r, Err(EscrowError::InvalidAccountData));
}

#[test]
fn take_rejects_vault_of_other_owner() {
    let (after_make, data) = made();
    let mut accounts = take_accounts(&after_make);
    accounts[8].owner = PROGRAM;
    let r = Take::check(&accounts, TakeInstruction { amount: AMOUNT, seed: 7 }, &PROGRAM, &data, vault_found(), escrow_found());
    assert_eq!(r, Err(EscrowError::InvalidAccountOwner));
}

#[test]
fn take_and_refund_reject_vault_under_other_authority() {
    let (after_make, data) = made();
    let mut accounts = take_accounts(&after_make);
    accounts[8].authority = MAKER;
    let r = Take::check(&accounts, TakeInstruction { amount: AMOUNT, seed: 7 }, &PROGRAM, &data, vault_found(), escrow_found());
    assert_eq!(r, Err(EscrowError::InvalidAccountOwner));
    let mut accounts = refund_accounts(&after_make);
    accounts[4].authority = MAKER;
    let r = Refund::check(&accounts, RefundInstruction { seed: 7 }, &PROGRAM, &data, vault_found(), escrow_found());
    assert_eq!(r, Err(EscrowError::InvalidAccountOwner));
}

#[test]
fn take_after_refund_is_refused() {
    let (after_make, data) = made();
    let mut refund = refund_accounts(&after_make);
    let r = Refund::check(&refund, RefundInstruction { seed: 7 }, &PROGRAM, &data, vault_found(), escrow_found()).unwrap();
    execute(&mut refund, &r.process()).unwrap();
    let mut take = take_accounts(&after_make);
    take[1] = refund[0];
    take[7] = refund[3];
    take[8] = refund[4];
    let t = Take::check(&take, TakeInstruction { amount: AMOUNT, seed: 7 }, &PROGRAM, &data, vault_found(), escrow_found());
    assert_eq!(t, Err(EscrowError::UninitializedAccount));
}

#[test]
fn take_rejects_short_record() {
    let (after_make, data) = made();
    let accounts = take_accounts(&after_make);
    let r = Take::check(&accounts, TakeInstruction { amount: AMOUNT, seed: 7 }, &PROGRAM, &data[..100], vault_found(), escrow_found());
    assert_eq!(r, Err(EscrowError::InvalidAccountData));
}

#[test]
fn take_fails_whole_when_taker_cannot_pay() {
    let (after_make, data) = made();
    let mut accounts = take_accounts(&after_make);
    accounts[5].amount = 10;
    let t = Take::check(&accounts, TakeInstruction { amount: AMOUNT, seed: 7 }, &PROGRAM, &data, vault_found(), escrow_found())
        .unwrap();
    let before = accounts.clone();
    assert_eq!(execute(&mut accounts, &t.process()), Err(EscrowError::InsufficientFunds));
    assert_eq!(accounts, before);
}

#[test]
fn take_fails_whole_when_a_later_step_fails() {
    let (after_make, data) = made();
    let mut accounts = take_accounts(&after_make);
    // The maker's native balance cannot take the vault's rent back.
    accounts[1].lamports = u64::MAX;
    let t = Take::check(&accounts, TakeInstruction { amount: AMOUNT, seed: 7 }, &PROGRAM, &data, vault_found(), escrow_found())
        .unwrap();
    let before = accounts.clone();
    assert_eq!(execute(&mut accounts, &t.process()), Err(EscrowError::ArithmeticOverflow));
    assert_eq!(accounts, before);
    assert_eq!(accounts[5].amount, 3_000_000);
    assert_eq!(accounts[4].amount, 0);
}

#[test]
fn refund_needs_maker_signature() {
    let (after_make, data) = made();
    let mut accounts = refund_accounts(&after_make);
    accounts[0].is_signer = false;
    let r = Refund::check(&accounts, RefundInstruction { seed: 7 }, &PROGRAM, &data, vault_found(), escrow_found());
    assert_eq!(r, Err(EscrowError::MissingRequiredSignature));
}

#[test]
fn refund_rejects_other_maker() {
    let (after_make, data) = made();
    let mut accounts = refund_accounts(&after_make);
    accounts[0] = plain(TAKER, true, 1_000);
    let r = Refund::check(&accounts, RefundInstruction { seed: 7 }, &PROGRAM, &data, vault_found(), escrow_found());
    assert_eq!(r, Err(EscrowError::InvalidAccountData));
}

#[test]
fn make_errors() {
    let d = make_data();
    let mut five = make_accounts();
    five.pop();
    assert_eq!(Make::check(&five, d, vault_found(), escrow_found()), Err(EscrowError::NotEnoughAccountKeys));
    let mut a = make_accounts();
    a[0].is_signer = false;
    assert_eq!(Make::check(&a, d, vault_found(), escrow_found()), Err(EscrowError::MissingRequiredSignature));
    let mut a = make_accounts();
    a[0].owner = PROGRAM;
    assert_eq!(Make::check(&a, d, vault_found(), escrow_found()), Err(EscrowError::InvalidAccountOwner));
    let zero = MakeInstruction { amount: 0, receive: AMOUNT, seed: 7 };
    assert_eq!(Make::check(&make_accounts(), zero, vault_found(), escrow_found()), Err(EscrowError::InvalidInstructionData));
    let mut a = make_accounts();
    a[2] = plain(MINT_X, false, 1);
    assert_eq!(Make::check(&a, d, vault_found(), escrow_found()), Err(EscrowError::InvalidAccountData));
    assert_eq!(Make::check(&make_accounts(), d, Some(([42u8; 32], 1)), escrow_found()), Err(EscrowError::InvalidSeeds));
    assert_eq!(Make::check(&make_accounts(), d, vault_found(), None), Err(EscrowError::InvalidSeeds));
    let mut a = make_accounts();
    a[6] = plain([12u8; 32], false, 1);
    assert_eq!(Make::check(&a, d, vault_found(), escrow_found()), Err(EscrowError::IncorrectProgramId));
    let mut a = make_accounts();
    a[3] = holding(MAKER_X, MINT_X, TAKER, 5_000_000);
    assert_eq!(Make::check(&a, d, vault_found(), escrow_found()), Err(EscrowError::InvalidAccountData));
    let mut a = make_accounts();
    a[5].lamports = 5;
    assert_eq!(Make::check(&a, d, vault_found(), escrow_found()), Err(EscrowError::AccountAlreadyInitialized));
}

#[test]
fn make_without_enough_asset_moves_nothing() {
    let mut accounts = make_accounts();
    accounts[3].amount = 10;
    let m = Make::check(&accounts, make_data(), vault_found(), escrow_found()).unwrap();
    let before = accounts.clone();
    assert_eq!(execute(&mut accounts, &m.process(&PROGRAM, 1_500, 2_000)), Err(EscrowError::InsufficientFunds));
    assert_eq!(accounts, before);
}

#[test]
fn derivation_is_checked_before_acting() {
    // Off the ledger no derived address is found, so a valid-looking call
    // stops at the address check; earlier checks still come first.
    let mut a = make_accounts();
    assert_eq!(Make::try_from(&a, make_data(), &PROGRAM), Err(EscrowError::InvalidSeeds));
    a[0].is_signer = false;
    assert_eq!(Make::try_from(&a, make_data(), &PROGRAM), Err(EscrowError::MissingRequiredSignature));
    a.pop();
    assert_eq!(Make::try_from(&a, make_data(), &PROGRAM), Err(EscrowError::NotEnoughAccountKeys));
    let (after_make, data) = made();
    let t = take_accounts(&after_make);
    assert_eq!(Take::try_from(&t, TakeInstruction { amount: AMOUNT, seed: 7 }, &PROGRAM, &data), Err(EscrowError::InvalidSeeds));
    let r = refund_accounts(&after_make);
    assert_eq!(Refund::try_from(&r, RefundInstruction { seed: 7 }, &PROGRAM, &data), Err(EscrowError::InvalidSeeds));
}

#[test]
fn executor_rejects_bad_actions() {
    let mut accounts = make_accounts();
    let before = accounts.clone();
    assert_eq!(execute(&mut accounts, &vec![Action::Transfer { from: 3, to: 3, amount: 1 }]), Err(EscrowError::InvalidArgument));
    assert_eq!(execute(&mut accounts, &vec![Action::Close { account: 9, destination: 0 }]), Err(EscrowError::InvalidArgument));
    assert_eq!(
        execute(&mut accounts, &vec![Action::Close { account: 3, destination: 0 }]),
        Err(EscrowError::InvalidAccountData)
    );
    assert_eq!(
        execute(&mut accounts, &vec![Action::Transfer { from: 3, to: 0, amount: 1 }]),
        Err(EscrowError::InvalidAccountData)
    );
    assert_eq!(
        execute(
            &mut accounts,
            &vec![Action::Create { payer: 0, account: 3, lamports: 1, owner: PROGRAM, mint: MINT_X, authority: MAKER }]
        ),
        Err(EscrowError::AccountAlreadyInitialized)
    );
    assert_eq!(execute(&mut accounts, &vec![Action::Pay { from: 4, to: 0, lamports: 1 }]), Err(EscrowError::InsufficientFunds));
    assert_eq!(accounts, before);
    assert_eq!(execute(&mut accounts, &vec![Action::Pay { from: 0, to: 4, lamports: 7 }]), Ok(()));
    assert_eq!(accounts[4].lamports, 7);
    assert_eq!(accounts[0].lamports, 10_000_000 - 7);
}

#[test]
fn record_round_trip() {
    let e = Escrow { maker: MAKER, mint_a: MINT_X, mint_b: MINT_Y, amount: 0x0102_0304_0506_0708, receive: 5, seed: 7, escrow_bump: 200 };
    let bytes = e.encode();
    assert_eq!(bytes.len(), 114);
    assert_eq!(&bytes[96..104], &[8, 7, 6, 5, 4, 3, 2, 1]);
    assert_eq!(bytes[112], 7);
    assert_eq!(bytes[113], 200);
    assert_eq!(Escrow::decode(&bytes), Ok(e));
    assert_eq!(Escrow::decode(&bytes[..113]), Err(EscrowError::InvalidAccountData));
}

#[test]
fn addresses_and_tags() {
    assert_eq!(tag_seed(Tag::Vault), b"vault".to_vec());
    assert_eq!(tag_seed(Tag::Escrow), b"escrow".to_vec());
    assert!(is_system_program(&[0u8; 32]));
    assert!(!is_system_program(&PROGRAM));
    assert!(is_token_program(&TOKEN_PROGRAM));
    assert!(!is_token_program(&SYSTEM));
    assert_eq!(TOKEN_PROGRAM[0], 6);
    assert_eq!(TOKEN_PROGRAM[31], 169);
    assert!(key_eq(&MAKER, &[1u8; 32]));
    assert!(!key_eq(&MAKER, &TAKER));
    assert_eq!(key_bytes(&MAKER), vec![1u8; 32]);
}

#[test]
fn instruction_decoding() {
    let mut make = vec![0u8];
    make.extend_from_slice(&1_000_000u64.to_le_bytes());
    make.extend_from_slice(&2_000_000u64.to_le_bytes());
    make.push(7);
    assert_eq!(
        EscrowInstruction::decode(&make),
        Ok(EscrowInstruction::Make(MakeInstruction { amount: 1_000_000, receive: 2_000_000, seed: 7 }))
    );
    let mut take = vec![1u8];
    take.extend_from_slice(&1_000_000u64.to_le_bytes());
    take.push(7);
    assert_eq!(EscrowInstruction::decode(&take), Ok(EscrowInstruction::Take(TakeInstruction { amount: 1_000_000, seed: 7 })));
    assert_eq!(EscrowInstruction::decode(&[2u8, 7]), Ok(EscrowInstruction::Refund(RefundInstruction { seed: 7 })));
    assert_eq!(EscrowInstruction::decode(&[2u8, 7, 0]), Err(EscrowError::InvalidInstructionData));
    assert_eq!(EscrowInstruction::decode(&[3u8, 7]), Err(EscrowError::InvalidInstructionData));
    assert_eq!(EscrowInstruction::decode(&[]), Err(EscrowError::InvalidInstructionData));
}
