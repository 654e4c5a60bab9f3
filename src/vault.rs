use vstd::bytes::{spec_u64_from_le_bytes, u64_from_le_bytes};
use vstd::prelude::*;

use crate::address::{derive_owner_vault, is_system_program, owner_vault_seeds, program_address, system_program_id, Pubkey};
use crate::error::EscrowError;
use crate::gate::{at_derived, bump_of};
use crate::ledger::{AccountMeta, Action};

verus! {

// A single-owner vault: the owner deposits native balance into an account
// at the address derived from the vault tag and the owner's key, and takes
// it all back later.

/// Whether `found` is the derivation of `owner`'s vault, if it was found at all.
pub open spec fn owner_vault_of(found: Option<(Pubkey, u8)>, owner: Seq<u8>, program_id: Seq<u8>) -> bool {
    found matches Some((k, b)) ==> program_address(owner_vault_seeds(owner), program_id) == (k@, b)
}

/// The amount of a deposit: one `u64` in little endian, not zero.
#[derive(Clone, Copy, Debug, PartialEq, Eq, Structural)]
pub struct DepositInstructions {
    pub amount: u64,
}

impl DepositInstructions {
    /// Reads a deposit's amount from the instruction's data.
    pub fn try_from(data: &[u8]) -> (r: Result<DepositInstructions, EscrowError>)
        ensures
            data@.len() == 8 && spec_u64_from_le_bytes(data@) != 0 <==> r is Ok,
            r matches Ok(d) ==> d.amount == spec_u64_from_le_bytes(data@),
            r matches Err(e) ==> e == EscrowError::InvalidAccountData,
    {
        if data.len() != 8 {
            return Err(EscrowError::InvalidAccountData);
        }
        let amount = u64_from_le_bytes(data);
        if amount == 0 {
            return Err(EscrowError::InvalidAccountData);
        }
        Ok(DepositInstructions { amount })
    }
}

/// Accounts of a deposit, in this order.
pub const DEPOSIT_OWNER: usize = 0;
pub const DEPOSIT_VAULT: usize = 1;

/// The accounts of a deposit that passed every check.
#[derive(Clone, Copy, Debug, PartialEq, Eq)]
pub struct DepositAccounts {
    pub owner: AccountMeta,
    pub vault: AccountMeta,
}

/// What a deposit's account checks decide, given the vault's derivation.
pub open spec fn deposit_gate(s: Seq<AccountMeta>, found: Option<(Pubkey, u8)>) -> Result<DepositAccounts, EscrowError> {
    if s.len() != 2 {
        Err(EscrowError::NotEnoughAccountKeys)
    } else if !s[DEPOSIT_OWNER as int].is_signer {
        Err(EscrowError::MissingRequiredSignature)
    } else if s[DEPOSIT_VAULT as int].owner@ != system_program_id() {
        Err(EscrowError::InvalidAccountOwner)
    } else if s[DEPOSIT_VAULT as int].lamports != 0 || !at_derived(s[DEPOSIT_VAULT as int], found) {
        Err(EscrowError::InvalidAccountData)
    } else {
        Ok(DepositAccounts { owner: s[DEPOSIT_OWNER as int], vault: s[DEPOSIT_VAULT as int] })
    }
}

impl DepositAccounts {
    /// Runs a deposit's account checks, given the vault's derivation.
    pub fn check(accounts: &Vec<AccountMeta>, found: Option<(Pubkey, u8)>) -> (r: Result<DepositAccounts, EscrowError>)
        ensures
            r == deposit_gate(accounts@, found),
    {
        if accounts.len() != 2 {
            return Err(EscrowError::NotEnoughAccountKeys);
        }
        let owner = accounts[DEPOSIT_OWNER];
        let vault = accounts[DEPOSIT_VAULT];
        if !owner.is_signer {
            return Err(EscrowError::MissingRequiredSignature);
        }
        if !is_system_program(&vault.owner) {
            return Err(EscrowError::InvalidAccountOwner);
        }
        if vault.lamports != 0 || crate::gate::check_derived(&vault, found).is_err() {
            return Err(EscrowError::InvalidAccountData);
        }
        Ok(DepositAccounts { owner, vault })
    }

    /// Derives the owner's vault address under `program_id` and runs a
    /// deposit's account checks against it.
    pub fn try_from(accounts: &Vec<AccountMeta>, program_id: &Pubkey) -> (r: Result<DepositAccounts, EscrowError>)
        ensures
            accounts@.len() != 2 ==> r == Err::<DepositAccounts, EscrowError>(EscrowError::NotEnoughAccountKeys),
            accounts@.len() == 2 ==> exists|f: Option<(Pubkey, u8)>|
                owner_vault_of(f, accounts@[DEPOSIT_OWNER as int].key@, program_id@) && r == deposit_gate(accounts@, f),
    {
        if accounts.len() != 2 {
            return Err(EscrowError::NotEnoughAccountKeys);
        }
        let owner_key = accounts[DEPOSIT_OWNER].key;
        let found = derive_owner_vault(&owner_key, program_id);
        DepositAccounts::check(accounts, found)
    }
}

/// A validated deposit.
#[derive(Clone, Copy, Debug, PartialEq, Eq)]
pub struct Deposit {
    pub accounts: DepositAccounts,
    pub instruction_data: DepositInstructions,
}

impl Deposit {
    /// Checks a deposit's accounts, then reads its amount.
    pub fn try_from(data: &[u8], accounts: &Vec<AccountMeta>, program_id: &Pubkey) -> (r: Result<Deposit, EscrowError>)
        ensures
            accounts@.len() != 2 ==> r == Err::<Deposit, EscrowError>(EscrowError::NotEnoughAccountKeys),
            accounts@.len() == 2 ==> exists|f: Option<(Pubkey, u8)>|
                owner_vault_of(f, accounts@[DEPOSIT_OWNER as int].key@, program_id@) && match deposit_gate(accounts@, f) {
                    Err(e) => r == Err::<Deposit, EscrowError>(e),
                    Ok(a) => if data@.len() == 8 && spec_u64_from_le_bytes(data@) != 0 {
                        r == Ok::<Deposit, EscrowError>(
                            Deposit { accounts: a, instruction_data: DepositInstructions { amount: spec_u64_from_le_bytes(data@) } },
                        )
                    } else {
                        r == Err::<Deposit, EscrowError>(EscrowError::InvalidAccountData)
                    },
                },
    {
        let accounts = DepositAccounts::try_from(accounts, program_id)?;
        let data = DepositInstructions::try_from(data)?;
        Ok(Deposit { accounts, instruction_data: data })
    }

    /// The effect of this deposit: the owner pays the amount into the vault.
    pub fn process0(&self) -> (r: Vec<Action>)
        ensures
            r@ == seq![Action::Pay { from: DEPOSIT_OWNER, to: DEPOSIT_VAULT, lamports: self.instruction_data.amount }],
    {
        let r = vec![Action::Pay { from: DEPOSIT_OWNER, to: DEPOSIT_VAULT, lamports: self.instruction_data.amount }];
        assert(r@ =~= seq![Action::Pay { from: DEPOSIT_OWNER, to: DEPOSIT_VAULT, lamports: self.instruction_data.amount }]);
        r
    }
}

/// Accounts of a withdrawal, in this order.
pub const WITHDRAW_VAULT: usize = 0;
pub const WITHDRAW_OWNER: usize = 1;

/// The accounts of a withdrawal that passed every check, with the bump of
/// the vault's address.
#[derive(Clone, Copy, Debug, PartialEq, Eq)]
pub struct WithdrawAccounts {
    pub vault: AccountMeta,
    pub owner: AccountMeta,
    pub bump: u8,
}

/// What a withdrawal's account checks decide, in the order they run, given
/// the vault's derivation: the owner signs, and the vault is an account that
/// the system program does not own, holds no native balance, and sits at
/// the owner's derived vault address.
pub open spec fn withdraw_gate(s: Seq<AccountMeta>, found: Option<(Pubkey, u8)>) -> Result<WithdrawAccounts, EscrowError> {
    if s.len() != 2 {
        Err(EscrowError::NotEnoughAccountKeys)
    } else if !s[WITHDRAW_OWNER as int].is_signer {
        Err(EscrowError::MissingRequiredSignature)
    } else if s[WITHDRAW_VAULT as int].owner@ == system_program_id() {
        Err(EscrowError::InvalidAccountOwner)
    } else if s[WITHDRAW_VAULT as int].lamports != 0 {
        Err(EscrowError::AccountAlreadyInitialized)
    } else if !at_derived(s[WITHDRAW_VAULT as int], found) {
        Err(EscrowError::InvalidAccountData)
    } else {
        Ok(WithdrawAccounts { vault: s[WITHDRAW_VAULT as int], owner: s[WITHDRAW_OWNER as int], bump: bump_of(found) })
    }
}

impl WithdrawAccounts {
    /// Runs a withdrawal's account checks, given the vault's derivation.
    pub fn check(accounts: &Vec<AccountMeta>, found: Option<(Pubkey, u8)>) -> (r: Result<WithdrawAccounts, EscrowError>)
        ensures
            r == withdraw_gate(accounts@, found),
    {
        if accounts.len() != 2 {
            return Err(EscrowError::NotEnoughAccountKeys);
        }
        let vault = accounts[WITHDRAW_VAULT];
        let owner = accounts[WITHDRAW_OWNER];
        if !owner.is_signer {
            return Err(EscrowError::MissingRequiredSignature);
        }
        if is_system_program(&vault.owner) {
            return Err(EscrowError::InvalidAccountOwner);
        }
        if vault.lamports != 0 {
            return Err(EscrowError::AccountAlreadyInitialized);
        }
        match crate::gate::check_derived(&vault, found) {
            Ok(bump) => Ok(WithdrawAccounts { vault, owner, bump }),
            Err(_) => Err(EscrowError::InvalidAccountData),
        }
    }

    /// Derives the owner's vault address under `program_id` and runs a
    /// withdrawal's account checks against it.
    pub fn try_from(accounts: &Vec<AccountMeta>, program_id: &Pubkey) -> (r: Result<WithdrawAccounts, EscrowError>)
        ensures
            accounts@.len() != 2 ==> r == Err::<WithdrawAccounts, EscrowError>(EscrowError::NotEnoughAccountKeys),
            accounts@.len() == 2 ==> exists|f: Option<(Pubkey, u8)>|
                owner_vault_of(f, accounts@[WITHDRAW_OWNER as int].key@, program_id@) && r == withdraw_gate(accounts@, f),
    {
        if accounts.len() != 2 {
            return Err(EscrowError::NotEnoughAccountKeys);
        }
        let owner_key = accounts[WITHDRAW_OWNER].key;
        let found = derive_owner_vault(&owner_key, program_id);
        WithdrawAccounts::check(accounts, found)
    }
}

/// A validated withdrawal.
#[derive(Clone, Copy, Debug, PartialEq, Eq)]
pub struct Withdraw {
    pub accounts: WithdrawAccounts,
}

impl Withdraw {
    /// Checks a withdrawal's accounts.
    pub fn try_from(accounts: &Vec<AccountMeta>, program_id: &Pubkey) -> (r: Result<Withdraw, EscrowError>)
        ensures
            accounts@.len() != 2 ==> r == Err::<Withdraw, EscrowError>(EscrowError::NotEnoughAccountKeys),
            accounts@.len() == 2 ==> exists|f: Option<(Pubkey, u8)>|
                owner_vault_of(f, accounts@[WITHDRAW_OWNER as int].key@, program_id@) && match withdraw_gate(accounts@, f) {
                    Ok(a) => r == Ok::<Withdraw, EscrowError>(Withdraw { accounts: a }),
                    Err(e) => r == Err::<Withdraw, EscrowError>(e),
                },
    {
        let accounts = WithdrawAccounts::try_from(accounts, program_id)?;
        Ok(Withdraw { accounts })
    }

    /// The effect of this withdrawal: the vault's whole native balance goes
    /// back to the owner, under the vault's derived address.
    pub fn process(&self) -> (r: Vec<Action>)
        ensures
            r@ == seq![Action::Pay { from: WITHDRAW_VAULT, to: WITHDRAW_OWNER, lamports: self.accounts.vault.lamports }],
    {
        let r = vec![Action::Pay { from: WITHDRAW_VAULT, to: WITHDRAW_OWNER, lamports: self.accounts.vault.lamports }];
        assert(r@ =~= seq![Action::Pay { from: WITHDRAW_VAULT, to: WITHDRAW_OWNER, lamports: self.accounts.vault.lamports }]);
        r
    }
}

} // verus!
