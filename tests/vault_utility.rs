use escrow::error::EscrowError;
use escrow::ledger::{execute, AccountMeta, Action};
use escrow::vault::{DepositAccounts, DepositInstructions, Withdraw, WithdrawAccounts, Deposit};

const SYSTEM: [u8; 32] = [0u8; 32];
const PROGRAM: [u8; 32] = [9u8; 32];

fn plain(key: [u8; 32], signer: bool, lamports: u64) -> AccountMeta {
    AccountMeta { key, owner: SYSTEM, is_signer: signer, lamports, mint: SYSTEM, authority: SYSTEM, amount: 0 }
}

#[test]
fn deposit_amount_is_read_little_endian() {
    let d = DepositInstructions::try_from(&500u64.to_le_bytes()).unwrap();
    assert_eq!(d.amount, 500);
    assert_eq!(DepositInstructions::try_from(&0u64.to_le_bytes()), Err(EscrowError::InvalidAccountData));
    assert_eq!(DepositInstructions::try_from(&[1u8]), Err(EscrowError::InvalidAccountData));
    assert_eq!(DepositInstructions::try_from(&[1u8, 0, 0, 0, 0, 0, 0, 0, 0]), Err(EscrowError::InvalidAccountData));
}

#[test]
fn deposit_checks_and_pays() {
    let owner = plain([1u8; 32], true, 1_000);
    let vault = plain([2u8; 32], false, 0);
    let mut accounts = vec![owner, vault];
    let a = DepositAccounts::check(&accounts, Some(([2u8; 32], 255))).unwrap();
    let d = Deposit { accounts: a, instruction_data: DepositInstructions { amount: 300 } };
    let plan = d.process0();
    assert_eq!(plan, vec![Action::Pay { from: 0, to: 1, lamports: 300 }]);
    execute(&mut accounts, &plan).unwrap();
    assert_eq!(accounts[0].lamports, 700);
    assert_eq!(accounts[1].lamports, 300);
}

#[test]
fn deposit_errors() {
    let owner = plain([1u8; 32], true, 1_000);
    let vault = plain([2u8; 32], false, 0);
    let found = Some(([2u8; 32], 255));
    assert_eq!(DepositAccounts::check(&vec![owner], found), Err(EscrowError::NotEnoughAccountKeys));
    let mut unsigned = owner;
    unsigned.is_signer = false;
    assert_eq!(DepositAccounts::check(&vec![unsigned, vault], found), Err(EscrowError::MissingRequiredSignature));
    let mut taken = vault;
    taken.owner = PROGRAM;
    assert_eq!(DepositAccounts::check(&vec![owner, taken], found), Err(EscrowError::InvalidAccountOwner));
    assert_eq!(DepositAccounts::check(&vec![owner, vault], Some(([3u8; 32], 255))), Err(EscrowError::InvalidAccountData));
    let mut funded = vault;
    funded.lamports = 1;
    assert_eq!(DepositAccounts::check(&vec![owner, funded], found), Err(EscrowError::InvalidAccountData));
    assert_eq!(Deposit::try_from(&300u64.to_le_bytes(), &vec![owner, vault], &PROGRAM), Err(EscrowError::InvalidAccountData));
}

#[test]
fn withdraw_accepts_empty_program_vault() {
    let mut vault = plain([2u8; 32], false, 0);
    vault.owner = PROGRAM;
    let owner = plain([1u8; 32], true, 700);
    let mut accounts = vec![vault, owner];
    let a = WithdrawAccounts::check(&accounts, Some(([2u8; 32], 254))).unwrap();
    assert_eq!(a.bump, 254);
    assert_eq!(a.vault, vault);
    assert_eq!(a.owner, owner);
    let w = Withdraw { accounts: a };
    let plan = w.process();
    assert_eq!(plan, vec![Action::Pay { from: 0, to: 1, lamports: 0 }]);
    execute(&mut accounts, &plan).unwrap();
    assert_eq!(accounts[0].lamports, 0);
    assert_eq!(accounts[1].lamports, 700);
}

#[test]
fn withdraw_errors() {
    let mut vault = plain([2u8; 32], false, 0);
    vault.owner = PROGRAM;
    let owner = plain([1u8; 32], true, 700);
    let found = Some(([2u8; 32], 254));
    assert_eq!(WithdrawAccounts::check(&vec![vault], found), Err(EscrowError::NotEnoughAccountKeys));
    let mut unsigned = owner;
    unsigned.is_signer = false;
    assert_eq!(WithdrawAccounts::check(&vec![vault, unsigned], found), Err(EscrowError::MissingRequiredSignature));
    let system_vault = plain([2u8; 32], false, 0);
    assert_eq!(WithdrawAccounts::check(&vec![system_vault, owner], found), Err(EscrowError::InvalidAccountOwner));
    let mut funded = vault;
    funded.lamports = 300;
    assert_eq!(WithdrawAccounts::check(&vec![funded, owner], found), Err(EscrowError::AccountAlreadyInitialized));
    assert_eq!(WithdrawAccounts::check(&vec![vault, owner], Some(([3u8; 32], 254))), Err(EscrowError::InvalidAccountData));
    assert_eq!(WithdrawAccounts::check(&vec![vault, owner], None), Err(EscrowError::InvalidAccountData));
    assert_eq!(Withdraw::try_from(&vec![vault], &PROGRAM), Err(EscrowError::NotEnoughAccountKeys));
    assert_eq!(Withdraw::try_from(&vec![vault, owner], &PROGRAM), Err(EscrowError::InvalidAccountData));
    assert_eq!(Withdraw::try_from(&vec![system_vault, owner], &PROGRAM), Err(EscrowError::InvalidAccountOwner));
}
