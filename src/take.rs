use vstd::prelude::*;

use crate::address::{derive_custody, is_token_program, key_eq, token_program_id, Pubkey, Tag};
use crate::error::EscrowError;
use crate::gate::{at_derived, bump_of, check_derived, check_holds_for, derivation_of, holds_for};
use crate::ledger::{AccountMeta, Action};
use crate::record::{decodes_to, Escrow, ESCROW_SIZE};

verus! {

/// Accounts of a Take, in this order.
pub const TAKER: usize = 0;
pub const MAKER: usize = 1;
pub const MINT_A: usize = 2;
pub const MINT_B: usize = 3;
pub const TAKER_ATA_A: usize = 4;
pub const TAKER_ATA_B: usize = 5;
pub const MAKER_ATA_B: usize = 6;
pub const ESCROW: usize = 7;
pub const VAULT: usize = 8;
pub const TAKE_ACCOUNTS: usize = 9;

/// What the taker accepts.
#[derive(Clone, Copy, Debug, PartialEq, Eq, Structural)]
pub struct TakeInstruction {
    /// Units of asset B the taker pays: the escrow's asking amount.
    pub amount: u64,
    /// The maker's discriminator of the escrow taken.
    pub seed: u8,
}

/// The accounts of a Take that passed every check.
#[derive(Clone, Copy, Debug, PartialEq, Eq)]
pub struct TakeAccounts {
    pub taker: AccountMeta,
    pub maker: AccountMeta,
    pub mint_a: AccountMeta,
    pub mint_b: AccountMeta,
    pub taker_ata_a: AccountMeta,
    pub taker_ata_b: AccountMeta,
    pub maker_ata_b: AccountMeta,
    pub escrow: AccountMeta,
    pub vault: AccountMeta,
    pub escrow_bump: u8,
    pub vault_bump: u8,
}

/// A validated Take: the two legs of the swap, then the vault and the
/// record closed.
#[derive(Clone, Copy, Debug, PartialEq, Eq)]
pub struct Take {
    pub accounts: TakeAccounts,
    pub instruction_data: TakeInstruction,
    /// The record found at the escrow's address.
    pub record: Escrow,
}

/// Whether `e` is the live record of `maker`'s escrow `seed` trading `mint_a`
/// for `mint_b`.
pub open spec fn record_matches(e: Escrow, maker: Seq<u8>, seed: u8, mint_a: Seq<u8>, mint_b: Seq<u8>) -> bool {
    e.maker@ == maker && e.seed == seed && e.mint_a@ == mint_a && e.mint_b@ == mint_b
}

/// What Take's checks decide, in the order they run, given the escrow
/// account's data and the derivations the ledger found.
pub open spec fn take_gate(
    s: Seq<AccountMeta>,
    d: TakeInstruction,
    program_id: Seq<u8>,
    data: Seq<u8>,
    vault_found: Option<(Pubkey, u8)>,
    escrow_found: Option<(Pubkey, u8)>,
) -> Result<Take, EscrowError> {
    if s.len() != TAKE_ACCOUNTS {
        Err(EscrowError::NotEnoughAccountKeys)
    } else if !s[TAKER as int].is_signer {
        Err(EscrowError::MissingRequiredSignature)
    } else if !at_derived(s[VAULT as int], vault_found) || !at_derived(s[ESCROW as int], escrow_found) {
        Err(EscrowError::InvalidSeeds)
    } else if s[ESCROW as int].owner@ != program_id {
        Err(EscrowError::UninitializedAccount)
    } else if data.len() != ESCROW_SIZE {
        Err(EscrowError::InvalidAccountData)
    } else {
        let e = choose|e: Escrow| decodes_to(data, e);
        let taker = s[TAKER as int].key@;
        let maker = s[MAKER as int].key@;
        let mint_a = s[MINT_A as int].key@;
        let mint_b = s[MINT_B as int].key@;
        let vault = s[VAULT as int];
        if !record_matches(e, maker, d.seed, mint_a, mint_b) {
            Err(EscrowError::InvalidAccountData)
        } else if vault.owner@ != token_program_id() || vault.authority@ != vault.key@ {
            Err(EscrowError::InvalidAccountOwner)
        } else if !holds_for(vault, mint_a, vault.key@) || vault.amount != e.amount
            || !holds_for(s[TAKER_ATA_A as int], mint_a, taker)
            || !holds_for(s[TAKER_ATA_B as int], mint_b, taker)
            || !holds_for(s[MAKER_ATA_B as int], mint_b, maker) {
            Err(EscrowError::InvalidAccountData)
        } else if d.amount != e.receive {
            Err(EscrowError::InvalidInstructionData)
        } else {
            Ok(
                Take {
                    accounts: TakeAccounts {
                        taker: s[TAKER as int],
                        maker: s[MAKER as int],
                        mint_a: s[MINT_A as int],
                        mint_b: s[MINT_B as int],
                        taker_ata_a: s[TAKER_ATA_A as int],
                        taker_ata_b: s[TAKER_ATA_B as int],
                        maker_ata_b: s[MAKER_ATA_B as int],
                        escrow: s[ESCROW as int],
                        vault: s[VAULT as int],
                        escrow_bump: bump_of(escrow_found),
                        vault_bump: bump_of(vault_found),
                    },
                    instruction_data: d,
                    record: e,
                },
            )
        }
    }
}

/// The effects of a validated Take: the taker pays the asking amount of B to
/// the maker, the vault pays its deposit of A to the taker under its custody
/// address, and the vault and the record are closed to the maker.
pub open spec fn take_plan(t: Take) -> Seq<Action> {
    seq![
        Action::Transfer { from: TAKER_ATA_B, to: MAKER_ATA_B, amount: t.record.receive },
        Action::Transfer { from: VAULT, to: TAKER_ATA_A, amount: t.record.amount },
        Action::Close { account: VAULT, destination: MAKER },
        Action::Close { account: ESCROW, destination: MAKER },
    ]
}

impl Take {
    /// Runs Take's checks, given the escrow account's data and the
    /// derivations of the vault and the record under the maker's key and the
    /// seed.
    pub fn check(
        accounts: &Vec<AccountMeta>,
        data: TakeInstruction,
        program_id: &Pubkey,
        record_data: &[u8],
        vault_found: Option<(Pubkey, u8)>,
        escrow_found: Option<(Pubkey, u8)>,
    ) -> (r: Result<Take, EscrowError>)
        ensures
            r == take_gate(accounts@, data, program_id@, record_data@, vault_found, escrow_found),
    {
        if accounts.len() != TAKE_ACCOUNTS {
            return Err(EscrowError::NotEnoughAccountKeys);
        }
        let taker = accounts[TAKER];
        let maker = accounts[MAKER];
        let mint_a = accounts[MINT_A];
        let mint_b = accounts[MINT_B];
        let taker_ata_a = accounts[TAKER_ATA_A];
        let taker_ata_b = accounts[TAKER_ATA_B];
        let maker_ata_b = accounts[MAKER_ATA_B];
        let escrow = accounts[ESCROW];
        let vault = accounts[VAULT];
        if !taker.is_signer {
            return Err(EscrowError::MissingRequiredSignature);
        }
        let vault_bump = check_derived(&vault, vault_found)?;
        let escrow_bump = check_derived(&escrow, escrow_found)?;
        if !key_eq(&escrow.owner, program_id) {
            return Err(EscrowError::UninitializedAccount);
        }
        let record = Escrow::decode(record_data)?;
        proof {
            crate::record::lemma_decodes_to_unique(record_data@, record);
        }
        if !(key_eq(&record.maker, &maker.key) && record.seed == data.seed && key_eq(&record.mint_a, &mint_a.key)
            && key_eq(&record.mint_b, &mint_b.key)) {
            return Err(EscrowError::InvalidAccountData);
        }
        if !is_token_program(&vault.owner) || !key_eq(&vault.authority, &vault.key) {
            return Err(EscrowError::InvalidAccountOwner);
        }
        if !check_holds_for(&vault, &mint_a.key, &vault.key) || vault.amount != record.amount
            || !check_holds_for(&taker_ata_a, &mint_a.key, &taker.key)
            || !check_holds_for(&taker_ata_b, &mint_b.key, &taker.key)
            || !check_holds_for(&maker_ata_b, &mint_b.key, &maker.key) {
            return Err(EscrowError::InvalidAccountData);
        }
        if data.amount != record.receive {
            return Err(EscrowError::InvalidInstructionData);
        }
        Ok(
            Take {
                accounts: TakeAccounts {
                    taker,
                    maker,
                    mint_a,
                    mint_b,
                    taker_ata_a,
                    taker_ata_b,
                    maker_ata_b,
                    escrow,
                    vault,
                    escrow_bump,
                    vault_bump,
                },
                instruction_data: data,
                record,
            },
        )
    }

    /// Derives the vault's and the record's addresses from the maker's key and
    /// the seed under `program_id`, and runs Take's checks against them.
    pub fn try_from(accounts: &Vec<AccountMeta>, data: TakeInstruction, program_id: &Pubkey, record_data: &[u8]) -> (r: Result<Take, EscrowError>)
        ensures
            accounts@.len() != TAKE_ACCOUNTS ==> r == Err::<Take, EscrowError>(EscrowError::NotEnoughAccountKeys),
            accounts@.len() == TAKE_ACCOUNTS ==> exists|vf: Option<(Pubkey, u8)>, ef: Option<(Pubkey, u8)>|
                derivation_of(vf, Tag::Vault, accounts@[MAKER as int].key@, data.seed, program_id@)
                && derivation_of(ef, Tag::Escrow, accounts@[MAKER as int].key@, data.seed, program_id@)
                && r == take_gate(accounts@, data, program_id@, record_data@, vf, ef),
    {
        if accounts.len() != TAKE_ACCOUNTS {
            return Err(EscrowError::NotEnoughAccountKeys);
        }
        let maker_key = accounts[MAKER].key;
        let vault_found = derive_custody(Tag::Vault, &maker_key, data.seed, program_id);
        let escrow_found = derive_custody(Tag::Escrow, &maker_key, data.seed, program_id);
        Take::check(accounts, data, program_id, record_data, vault_found, escrow_found)
    }

    /// The effects of this Take, to be done as one unit.
    pub fn process(&self) -> (r: Vec<Action>)
        ensures
            r@ == take_plan(*self),
    {
        let r = vec![
            Action::Transfer { from: TAKER_ATA_B, to: MAKER_ATA_B, amount: self.record.receive },
            Action::Transfer { from: VAULT, to: TAKER_ATA_A, amount: self.record.amount },
            Action::Close { account: VAULT, destination: MAKER },
            Action::Close { account: ESCROW, destination: MAKER },
        ];
        assert(r@ =~= take_plan(*self));
        r
    }
}

} // verus!
