use vstd::prelude::*;

use crate::address::{derive_custody, is_token_program, key_eq, token_program_id, Pubkey, Tag};
use crate::error::EscrowError;
use crate::gate::{at_derived, bump_of, check_derived, check_holds_for, derivation_of, holds_for};
use crate::ledger::{AccountMeta, Action};
use crate::record::{decodes_to, Escrow, ESCROW_SIZE};

verus! {

/// Accounts of a Refund, in this order.
pub const MAKER: usize = 0;
pub const MINT_A: usize = 1;
pub const MAKER_ATA_A: usize = 2;
pub const ESCROW: usize = 3;
pub const VAULT: usize = 4;
pub const REFUND_ACCOUNTS: usize = 5;

/// Which escrow the maker cancels.
#[derive(Clone, Copy, Debug, PartialEq, Eq, Structural)]
pub struct RefundInstruction {
    /// The maker's discriminator of the escrow.
    pub seed: u8,
}

/// The accounts of a Refund that passed every check.
#[derive(Clone, Copy, Debug, PartialEq, Eq)]
pub struct RefundAccounts {
    pub maker: AccountMeta,
    pub mint_a: AccountMeta,
    pub maker_ata_a: AccountMeta,
    pub escrow: AccountMeta,
    pub vault: AccountMeta,
    pub escrow_bump: u8,
    pub vault_bump: u8,
}

/// A validated Refund: the deposit goes back to the maker, then the vault and
/// the record are closed.
#[derive(Clone, Copy, Debug, PartialEq, Eq)]
pub struct Refund {
    pub accounts: RefundAccounts,
    pub instruction_data: RefundInstruction,
    /// The record found at the escrow's address.
    pub record: Escrow,
}

/// What Refund's checks decide, in the order they run, given the escrow
/// account's data and the derivations the ledger found.
pub open spec fn refund_gate(
    s: Seq<AccountMeta>,
    d: RefundInstruction,
    program_id: Seq<u8>,
    data: Seq<u8>,
    vault_found: Option<(Pubkey, u8)>,
    escrow_found: Option<(Pubkey, u8)>,
) -> Result<Refund, EscrowError> {
    if s.len() != REFUND_ACCOUNTS {
        Err(EscrowError::NotEnoughAccountKeys)
    } else if !s[MAKER as int].is_signer {
        Err(EscrowError::MissingRequiredSignature)
    } else if !at_derived(s[VAULT as int], vault_found) || !at_derived(s[ESCROW as int], escrow_found) {
        Err(EscrowError::InvalidSeeds)
    } else if s[ESCROW as int].owner@ != program_id {
        Err(EscrowError::UninitializedAccount)
    } else if data.len() != ESCROW_SIZE {
        Err(EscrowError::InvalidAccountData)
    } else {
        let e = choose|e: Escrow| decodes_to(data, e);
        let maker = s[MAKER as int].key@;
        let mint_a = s[MINT_A as int].key@;
        let vault = s[VAULT as int];
        if !(e.maker@ == maker && e.seed == d.seed && e.mint_a@ == mint_a) {
            Err(EscrowError::InvalidAccountData)
        } else if vault.owner@ != token_program_id() || vault.authority@ != vault.key@ {
            Err(EscrowError::InvalidAccountOwner)
        } else if !holds_for(vault, mint_a, vault.key@) || vault.amount != e.amount
            || !holds_for(s[MAKER_ATA_A as int], mint_a, maker) {
            Err(EscrowError::InvalidAccountData)
        } else {
            Ok(
                Refund {
                    accounts: RefundAccounts {
                        maker: s[MAKER as int],
                        mint_a: s[MINT_A as int],
                        maker_ata_a: s[MAKER_ATA_A as int],
                        escrow: s[ESCROW as int],
                        vault: s[VAULT as int],
                        escrow_bump: bump_of(escrow_found),
                        vault_bump: bump_of(vault_found),
                    },
                    instruction_data: d,
                    record: e,
                },
            )
        }
    }
}

/// The effects of a validated Refund: the vault pays the recorded deposit
/// back to the maker's asset account under its custody address, and the
/// vault and the record are closed to the maker.
pub open spec fn refund_plan(r: Refund) -> Seq<Action> {
    seq![
        Action::Transfer { from: VAULT, to: MAKER_ATA_A, amount: r.record.amount },
        Action::Close { account: VAULT, destination: MAKER },
        Action::Close { account: ESCROW, destination: MAKER },
    ]
}

impl Refund {
    /// Runs Refund's checks, given the escrow account's data and the
    /// derivations of the vault and the record under the maker's key and the
    /// seed.
    pub fn check(
        accounts: &Vec<AccountMeta>,
        data: RefundInstruction,
        program_id: &Pubkey,
        record_data: &[u8],
        vault_found: Option<(Pubkey, u8)>,
        escrow_found: Option<(Pubkey, u8)>,
    ) -> (r: Result<Refund, EscrowError>)
        ensures
            r == refund_gate(accounts@, data, program_id@, record_data@, vault_found, escrow_found),
    {
        if accounts.len() != REFUND_ACCOUNTS {
            return Err(EscrowError::NotEnoughAccountKeys);
        }
        let maker = accounts[MAKER];
        let mint_a = accounts[MINT_A];
        let maker_ata_a = accounts[MAKER_ATA_A];
        let escrow = accounts[ESCROW];
        let vault = accounts[VAULT];
        if !maker.is_signer {
            return Err(EscrowError::MissingRequiredSignature);
        }
        let vault_bump = check_derived(&vault, vault_found)?;
        let escrow_bump = check_derived(&escrow, escrow_found)?;
        if !key_eq(&escrow.owner, program_id) {
            return Err(EscrowError::UninitializedAccount);
        }
        let record = Escrow::decode(record_data)?;
        proof {
            crate::record::lemma_decodes_to_unique(record_data@, record);
        }
        if !(key_eq(&record.maker, &maker.key) && record.seed == data.seed && key_eq(&record.mint_a, &mint_a.key)) {
            return Err(EscrowError::InvalidAccountData);
        }
        if !is_token_program(&vault.owner) || !key_eq(&vault.authority, &vault.key) {
            return Err(EscrowError::InvalidAccountOwner);
        }
        if !check_holds_for(&vault, &mint_a.key, &vault.key) || vault.amount != record.amount
            || !check_holds_for(&maker_ata_a, &mint_a.key, &maker.key) {
            return Err(EscrowError::InvalidAccountData);
        }
        Ok(
            Refund {
                accounts: RefundAccounts { maker, mint_a, maker_ata_a, escrow, vault, escrow_bump, vault_bump },
                instruction_data: data,
                record,
            },
        )
    }

    /// Derives the vault's and the record's addresses from the maker's key and
    /// the seed under `program_id`, and runs Refund's checks against them.
    pub fn try_from(accounts: &Vec<AccountMeta>, data: RefundInstruction, program_id: &Pubkey, record_data: &[u8]) -> (r: Result<Refund, EscrowError>)
        ensures
            accounts@.len() != REFUND_ACCOUNTS ==> r == Err::<Refund, EscrowError>(EscrowError::NotEnoughAccountKeys),
            accounts@.len() == REFUND_ACCOUNTS ==> exists|vf: Option<(Pubkey, u8)>, ef: Option<(Pubkey, u8)>|
                derivation_of(vf, Tag::Vault, accounts@[MAKER as int].key@, data.seed, program_id@)
                && derivation_of(ef, Tag::Escrow, accounts@[MAKER as int].key@, data.seed, program_id@)
                && r == refund_gate(accounts@, data, program_id@, record_data@, vf, ef),
    {
        if accounts.len() != REFUND_ACCOUNTS {
            return Err(EscrowError::NotEnoughAccountKeys);
        }
        let maker_key = accounts[MAKER].key;
        let vault_found = derive_custody(Tag::Vault, &maker_key, data.seed, program_id);
        let escrow_found = derive_custody(Tag::Escrow, &maker_key, data.seed, program_id);
        Refund::check(accounts, data, program_id, record_data, vault_found, escrow_found)
    }

    /// The effects of this Refund, to be done as one unit.
    pub fn process(&self) -> (r: Vec<Action>)
        ensures
            r@ == refund_plan(*self),
    {
        let r = vec![
            Action::Transfer { from: VAULT, to: MAKER_ATA_A, amount: self.record.amount },
            Action::Close { account: VAULT, destination: MAKER },
            Action::Close { account: ESCROW, destination: MAKER },
        ];
        assert(r@ =~= refund_plan(*self));
        r
    }
}

} // verus!
