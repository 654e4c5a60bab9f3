use vstd::prelude::*;

use crate::address::{
    derive_custody, is_system_program, is_token_program, key_eq, system_key, system_program_id, token_program_id, Pubkey, Tag,
};
use crate::error::EscrowError;
use crate::gate::{at_derived, bump_of, check_derived, check_holds_for, derivation_of, holds_for};
use crate::ledger::{is_vacant, system_account_key, vacant, AccountMeta, Action};
use crate::record::Escrow;

verus! {

/// Accounts of a Make, in this order.
pub const MAKER: usize = 0;
pub const MINT_A: usize = 1;
pub const MINT_B: usize = 2;
pub const MAKER_ATA_A: usize = 3;
pub const ESCROW: usize = 4;
pub const VAULT: usize = 5;
pub const TOKEN_PROGRAM: usize = 6;
pub const MAKE_ACCOUNTS: usize = 7;

/// The terms the maker offers.
#[derive(Clone, Copy, Debug, PartialEq, Eq, Structural)]
pub struct MakeInstruction {
    /// Units of asset A deposited in the vault.
    pub amount: u64,
    /// Units of asset B the maker asks for.
    pub receive: u64,
    /// The maker's discriminator for this escrow.
    pub seed: u8,
}

/// The accounts of a Make that passed every check.
#[derive(Clone, Copy, Debug, PartialEq, Eq)]
pub struct MakeAccount {
    pub maker: AccountMeta,
    pub mint_a: AccountMeta,
    pub mint_b: AccountMeta,
    pub maker_ata_a: AccountMeta,
    pub escrow: AccountMeta,
    pub vault: AccountMeta,
    pub token_program: AccountMeta,
    pub escrow_bump: u8,
    pub vault_bump: u8,
}

/// A validated Make: creates the record and the vault and funds the vault.
#[derive(Clone, Copy, Debug, PartialEq, Eq)]
pub struct Make {
    pub accounts: MakeAccount,
    pub instruction_data: MakeInstruction,
}

/// What Make's checks decide, in the order they run, given the derivations
/// of the vault and the record that the ledger found.
pub open spec fn make_gate(
    s: Seq<AccountMeta>,
    d: MakeInstruction,
    vault_found: Option<(Pubkey, u8)>,
    escrow_found: Option<(Pubkey, u8)>,
) -> Result<Make, EscrowError> {
    if s.len() != MAKE_ACCOUNTS {
        Err(EscrowError::NotEnoughAccountKeys)
    } else if !s[MAKER as int].is_signer {
        Err(EscrowError::MissingRequiredSignature)
    } else if s[MAKER as int].owner@ != system_program_id() {
        Err(EscrowError::InvalidAccountOwner)
    } else if s[TOKEN_PROGRAM as int].key@ != token_program_id() {
        Err(EscrowError::IncorrectProgramId)
    } else if d.amount == 0 || d.receive == 0 {
        Err(EscrowError::InvalidInstructionData)
    } else if s[MINT_A as int].key@ == s[MINT_B as int].key@
        || !holds_for(s[MAKER_ATA_A as int], s[MINT_A as int].key@, s[MAKER as int].key@) {
        Err(EscrowError::InvalidAccountData)
    } else if !at_derived(s[VAULT as int], vault_found) || !at_derived(s[ESCROW as int], escrow_found) {
        Err(EscrowError::InvalidSeeds)
    } else if !is_vacant(s[VAULT as int]) || !is_vacant(s[ESCROW as int]) {
        Err(EscrowError::AccountAlreadyInitialized)
    } else {
        Ok(
            Make {
                accounts: MakeAccount {
                    maker: s[MAKER as int],
                    mint_a: s[MINT_A as int],
                    mint_b: s[MINT_B as int],
                    maker_ata_a: s[MAKER_ATA_A as int],
                    escrow: s[ESCROW as int],
                    vault: s[VAULT as int],
                    token_program: s[TOKEN_PROGRAM as int],
                    escrow_bump: bump_of(escrow_found),
                    vault_bump: bump_of(vault_found),
                },
                instruction_data: d,
            },
        )
    }
}

/// The record a validated Make stores.
pub open spec fn make_record(m: Make) -> Escrow {
    Escrow {
        maker: m.accounts.maker.key,
        mint_a: m.accounts.mint_a.key,
        mint_b: m.accounts.mint_b.key,
        amount: m.instruction_data.amount,
        receive: m.instruction_data.receive,
        seed: m.instruction_data.seed,
        escrow_bump: m.accounts.escrow_bump,
    }
}

/// The effects of a validated Make: the record's account is created for
/// this program and the vault as an asset account of A whose authority is
/// its own derived address, both paid by the maker; then the deposit moves
/// from the maker's asset account into the vault.
pub open spec fn make_plan(m: Make, program_id: Pubkey, record_rent: u64, vault_rent: u64) -> Seq<Action> {
    seq![
        Action::Create {
            payer: MAKER,
            account: ESCROW,
            lamports: record_rent,
            owner: program_id,
            mint: system_key(),
            authority: program_id,
        },
        Action::Create {
            payer: MAKER,
            account: VAULT,
            lamports: vault_rent,
            owner: m.accounts.token_program.key,
            mint: m.accounts.mint_a.key,
            authority: m.accounts.vault.key,
        },
        Action::Transfer { from: MAKER_ATA_A, to: VAULT, amount: m.instruction_data.amount },
    ]
}

impl Make {
    /// Runs Make's checks, given the derivations of the vault and the record
    /// under the maker's key and the seed.
    pub fn check(
        accounts: &Vec<AccountMeta>,
        data: MakeInstruction,
        vault_found: Option<(Pubkey, u8)>,
        escrow_found: Option<(Pubkey, u8)>,
    ) -> (r: Result<Make, EscrowError>)
        ensures
            r == make_gate(accounts@, data, vault_found, escrow_found),
    {
        if accounts.len() != MAKE_ACCOUNTS {
            return Err(EscrowError::NotEnoughAccountKeys);
        }
        let maker = accounts[MAKER];
        let mint_a = accounts[MINT_A];
        let mint_b = accounts[MINT_B];
        let maker_ata_a = accounts[MAKER_ATA_A];
        let escrow = accounts[ESCROW];
        let vault = accounts[VAULT];
        let token_program = accounts[TOKEN_PROGRAM];
        if !maker.is_signer {
            return Err(EscrowError::MissingRequiredSignature);
        }
        if !is_system_program(&maker.owner) {
            return Err(EscrowError::InvalidAccountOwner);
        }
        if !is_token_program(&token_program.key) {
            return Err(EscrowError::IncorrectProgramId);
        }
        if data.amount == 0 || data.receive == 0 {
            return Err(EscrowError::InvalidInstructionData);
        }
        if key_eq(&mint_a.key, &mint_b.key) || !check_holds_for(&maker_ata_a, &mint_a.key, &maker.key) {
            return Err(EscrowError::InvalidAccountData);
        }
        let vault_bump = check_derived(&vault, vault_found)?;
        let escrow_bump = check_derived(&escrow, escrow_found)?;
        if !vacant(&vault) || !vacant(&escrow) {
            return Err(EscrowError::AccountAlreadyInitialized);
        }
        Ok(
            Make {
                accounts: MakeAccount { maker, mint_a, mint_b, maker_ata_a, escrow, vault, token_program, escrow_bump, vault_bump },
                instruction_data: data,
            },
        )
    }

    /// Derives the vault's and the record's addresses from the maker's key and
    /// the seed under `program_id`, and runs Make's checks against them.
    pub fn try_from(accounts: &Vec<AccountMeta>, data: MakeInstruction, program_id: &Pubkey) -> (r: Result<Make, EscrowError>)
        ensures
            accounts@.len() != MAKE_ACCOUNTS ==> r == Err::<Make, EscrowError>(EscrowError::NotEnoughAccountKeys),
            accounts@.len() == MAKE_ACCOUNTS ==> exists|vf: Option<(Pubkey, u8)>, ef: Option<(Pubkey, u8)>|
                derivation_of(vf, Tag::Vault, accounts@[MAKER as int].key@, data.seed, program_id@)
                && derivation_of(ef, Tag::Escrow, accounts@[MAKER as int].key@, data.seed, program_id@)
                && r == make_gate(accounts@, data, vf, ef),
    {
        if accounts.len() != MAKE_ACCOUNTS {
            return Err(EscrowError::NotEnoughAccountKeys);
        }
        let maker_key = accounts[MAKER].key;
        let vault_found = derive_custody(Tag::Vault, &maker_key, data.seed, program_id);
        let escrow_found = derive_custody(Tag::Escrow, &maker_key, data.seed, program_id);
        Make::check(accounts, data, vault_found, escrow_found)
    }

    /// The record this Make stores in the escrow account.
    pub fn record(&self) -> (r: Escrow)
        ensures
            r == make_record(*self),
    {
        Escrow {
            maker: self.accounts.maker.key,
            mint_a: self.accounts.mint_a.key,
            mint_b: self.accounts.mint_b.key,
            amount: self.instruction_data.amount,
            receive: self.instruction_data.receive,
            seed: self.instruction_data.seed,
            escrow_bump: self.accounts.escrow_bump,
        }
    }

    /// The effects of this Make, to be done as one unit; `record_rent` and
    /// `vault_rent` are the ledger's minimum balances for the two accounts.
    pub fn process(&self, program_id: &Pubkey, record_rent: u64, vault_rent: u64) -> (r: Vec<Action>)
        ensures
            r@ == make_plan(*self, *program_id, record_rent, vault_rent),
    {
        let r = vec![
            Action::Create {
                payer: MAKER,
                account: ESCROW,
                lamports: record_rent,
                owner: *program_id,
                mint: system_account_key(),
                authority: *program_id,
            },
            Action::Create {
                payer: MAKER,
                account: VAULT,
                lamports: vault_rent,
                owner: self.accounts.token_program.key,
                mint: self.accounts.mint_a.key,
                authority: self.accounts.vault.key,
            },
            Action::Transfer { from: MAKER_ATA_A, to: VAULT, amount: self.instruction_data.amount },
        ];
        assert(r@ =~= make_plan(*self, *program_id, record_rent, vault_rent));
        r
    }
}

} // verus!
