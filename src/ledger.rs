use vstd::prelude::*;

use crate::address::{system_key, system_program_id, Pubkey};
use crate::error::EscrowError;

verus! {

/// What the engine reads of one account named by an operation.
#[derive(Clone, Copy, Debug, PartialEq, Eq)]
pub struct AccountMeta {
    /// The account's address.
    pub key: Pubkey,
    /// The program that controls the account.
    pub owner: Pubkey,
    /// Whether the account's key signed the call.
    pub is_signer: bool,
    /// Native balance, which pays the account's rent.
    pub lamports: u64,
    /// For an asset account: the asset type it holds.
    pub mint: Pubkey,
    /// For an asset account: the principal that may spend from it.
    pub authority: Pubkey,
    /// For an asset account: the units of `mint` it holds.
    pub amount: u64,
}

/// One effect on the accounts of an operation. Accounts are named by their
/// position in the operation's account list.
#[derive(Clone, Copy, Debug, PartialEq, Eq)]
pub enum Action {
    /// Allocates `account`, funded by `payer` with `lamports`, and hands it
    /// to `owner`; as an asset account it holds `mint` for `authority`.
    Create { payer: usize, account: usize, lamports: u64, owner: Pubkey, mint: Pubkey, authority: Pubkey },
    /// Moves `amount` units of an asset from `from` to `to`.
    Transfer { from: usize, to: usize, amount: u64 },
    /// Moves `lamports` of native balance from `from` to `to`.
    Pay { from: usize, to: usize, lamports: u64 },
    /// Releases an empty asset account's native balance to `destination`
    /// and gives the account back to the system program.
    Close { account: usize, destination: usize },
}

/// `a` with its native balance set to `l`.
pub open spec fn with_lamports(a: AccountMeta, l: u64) -> AccountMeta {
    AccountMeta { lamports: l, ..a }
}

/// `a` with its asset balance set to `n`.
pub open spec fn with_amount(a: AccountMeta, n: u64) -> AccountMeta {
    AccountMeta { amount: n, ..a }
}

/// `a` after it was closed: no balance, no asset, back with the system program.
pub open spec fn closed(a: AccountMeta) -> AccountMeta {
    AccountMeta {
        key: a.key,
        owner: system_key(),
        is_signer: a.is_signer,
        lamports: 0,
        mint: a.mint,
        authority: a.authority,
        amount: 0,
    }
}

/// Whether `a` holds nothing and is controlled by the system program: an
/// account not yet created, or one that was closed.
pub open spec fn is_vacant(a: AccountMeta) -> bool {
    a.owner@ == system_program_id() && a.lamports == 0 && a.amount == 0
}

/// Whether `a` holds nothing and is controlled by the system program.
pub fn vacant(a: &AccountMeta) -> (r: bool)
    ensures
        r == is_vacant(*a),
{
    crate::address::is_system_program(&a.owner) && a.lamports == 0 && a.amount == 0
}

/// The accounts after one action, or why the action cannot be done.
pub open spec fn step(s: Seq<AccountMeta>, a: Action) -> Result<Seq<AccountMeta>, EscrowError> {
    match a {
        Action::Create { payer, account, lamports, owner, mint, authority } => {
            if payer >= s.len() || account >= s.len() || payer == account {
                Err(EscrowError::InvalidArgument)
            } else if s[account as int].owner@ != system_program_id() || s[account as int].lamports != 0 {
                Err(EscrowError::AccountAlreadyInitialized)
            } else if s[payer as int].lamports < lamports {
                Err(EscrowError::InsufficientFunds)
            } else {
                let p = s[payer as int];
                let c = s[account as int];
                Ok(
                    s.update(payer as int, with_lamports(p, (p.lamports - lamports) as u64)).update(
                        account as int,
                        AccountMeta { owner, lamports, mint, authority, amount: 0, ..c },
                    ),
                )
            }
        },
        Action::Transfer { from, to, amount } => {
            if from >= s.len() || to >= s.len() || from == to {
                Err(EscrowError::InvalidArgument)
            } else if s[from as int].mint@ != s[to as int].mint@ {
                Err(EscrowError::InvalidAccountData)
            } else if s[from as int].amount < amount {
                Err(EscrowError::InsufficientFunds)
            } else if s[to as int].amount + amount > u64::MAX {
                Err(EscrowError::ArithmeticOverflow)
            } else {
                let f = s[from as int];
                let t = s[to as int];
                Ok(
                    s.update(from as int, with_amount(f, (f.amount - amount) as u64)).update(
                        to as int,
                        with_amount(t, (t.amount + amount) as u64),
                    ),
                )
            }
        },
        Action::Pay { from, to, lamports } => {
            if from >= s.len() || to >= s.len() || from == to {
                Err(EscrowError::InvalidArgument)
            } else if s[from as int].lamports < lamports {
                Err(EscrowError::InsufficientFunds)
            } else if s[to as int].lamports + lamports > u64::MAX {
                Err(EscrowError::ArithmeticOverflow)
            } else {
                let f = s[from as int];
                let t = s[to as int];
                Ok(
                    s.update(from as int, with_lamports(f, (f.lamports - lamports) as u64)).update(
                        to as int,
                        with_lamports(t, (t.lamports + lamports) as u64),
                    ),
                )
            }
        },
        Action::Close { account, destination } => {
            if account >= s.len() || destination >= s.len() || account == destination {
                Err(EscrowError::InvalidArgument)
            } else if s[account as int].amount != 0 {
                Err(EscrowError::InvalidAccountData)
            } else if s[destination as int].lamports + s[account as int].lamports > u64::MAX {
                Err(EscrowError::ArithmeticOverflow)
            } else {
                let c = s[account as int];
                let d = s[destination as int];
                Ok(
                    s.update(destination as int, with_lamports(d, (d.lamports + c.lamports) as u64)).update(
                        account as int,
                        closed(c),
                    ),
                )
            }
        },
    }
}

/// The accounts after a plan of actions done in order, or the first error.
pub open spec fn run(s: Seq<AccountMeta>, plan: Seq<Action>) -> Result<Seq<AccountMeta>, EscrowError>
    decreases plan.len(),
{
    if plan.len() == 0 {
        Ok(s)
    } else {
        match run(s, plan.drop_last()) {
            Ok(t) => step(t, plan.last()),
            Err(e) => Err(e),
        }
    }
}

/// The key of the system program.
pub fn system_account_key() -> (r: Pubkey)
    ensures
        r == system_key(),
        r@ == system_program_id(),
{
    proof {
        crate::address::lemma_system_key();
    }
    [0u8; 32]
}

/// Does one action on `s`; on an error `s` is left as it was.
pub fn apply(s: &mut Vec<AccountMeta>, a: Action) -> (r: Result<(), EscrowError>)
    ensures
        match step(old(s)@, a) {
            Ok(t) => r is Ok && final(s)@ == t,
            Err(e) => r == Err::<(), EscrowError>(e) && final(s)@ == old(s)@,
        },
{
    let n = s.len();
    match a {
        Action::Create { payer, account, lamports, owner, mint, authority } => {
            if payer >= n || account >= n || payer == account {
                return Err(EscrowError::InvalidArgument);
            }
            let p = s[payer];
            let c = s[account];
            if !crate::address::is_system_program(&c.owner) || c.lamports != 0 {
                return Err(EscrowError::AccountAlreadyInitialized);
            }
            if p.lamports < lamports {
                return Err(EscrowError::InsufficientFunds);
            }
            s.set(payer, AccountMeta { lamports: p.lamports - lamports, ..p });
            s.set(account, AccountMeta { owner, lamports, mint, authority, amount: 0, ..c });
            Ok(())
        },
        Action::Transfer { from, to, amount } => {
            if from >= n || to >= n || from == to {
                return Err(EscrowError::InvalidArgument);
            }
            let f = s[from];
            let t = s[to];
            if !crate::address::key_eq(&f.mint, &t.mint) {
                return Err(EscrowError::InvalidAccountData);
            }
            if f.amount < amount {
                return Err(EscrowError::InsufficientFunds);
            }
            if t.amount > u64::MAX - amount {
                return Err(EscrowError::ArithmeticOverflow);
            }
            s.set(from, AccountMeta { amount: f.amount - amount, ..f });
            s.set(to, AccountMeta { amount: t.amount + amount, ..t });
            Ok(())
        },
        Action::Pay { from, to, lamports } => {
            if from >= n || to >= n || from == to {
                return Err(EscrowError::InvalidArgument);
            }
            let f = s[from];
            let t = s[to];
            if f.lamports < lamports {
                return Err(EscrowError::InsufficientFunds);
            }
            if t.lamports > u64::MAX - lamports {
                return Err(EscrowError::ArithmeticOverflow);
            }
            s.set(from, AccountMeta { lamports: f.lamports - lamports, ..f });
            s.set(to, AccountMeta { lamports: t.lamports + lamports, ..t });
            Ok(())
        },
        Action::Close { account, destination } => {
            if account >= n || destination >= n || account == destination {
                return Err(EscrowError::InvalidArgument);
            }
            let c = s[account];
            let d = s[destination];
            if c.amount != 0 {
                return Err(EscrowError::InvalidAccountData);
            }
            if d.lamports > u64::MAX - c.lamports {
                return Err(EscrowError::ArithmeticOverflow);
            }
            s.set(destination, AccountMeta { lamports: d.lamports + c.lamports, ..d });
            s.set(account, AccountMeta { owner: system_account_key(), lamports: 0, amount: 0, ..c });
            Ok(())
        },
    }
}

/// Does every action of `plan` in order, as one unit: either all of them
/// take effect, or, where one fails, none does and its error is returned.
pub fn execute(accounts: &mut Vec<AccountMeta>, plan: &Vec<Action>) -> (r: Result<(), EscrowError>)
    ensures
        match run(old(accounts)@, plan@) {
            Ok(t) => r is Ok && final(accounts)@ == t,
            Err(e) => r == Err::<(), EscrowError>(e) && final(accounts)@ == old(accounts)@,
        },
{
    let mut work: Vec<AccountMeta> = Vec::new();
    let mut k: usize = 0;
    while k < accounts.len()
        invariant
            k <= accounts@.len(),
            work@ == accounts@.take(k as int),
        decreases accounts@.len() - k,
    {
        work.push(accounts[k]);
        k += 1;
        assert(work@ =~= accounts@.take(k as int));
    }
    assert(work@ =~= accounts@);
    let mut i: usize = 0;
    while i < plan.len()
        invariant
            i <= plan@.len(),
            run(accounts@, plan@.take(i as int)) == Ok::<Seq<AccountMeta>, EscrowError>(work@),
        decreases plan@.len() - i,
    {
        let a = plan[i];
        assert(plan@.take(i + 1).drop_last() =~= plan@.take(i as int));
        let r = apply(&mut work, a);
        match r {
            Ok(()) => {},
            Err(e) => {
                proof {
                    lemma_run_stops(accounts@, plan@, i as int + 1);
                    assert(plan@.take(plan@.len() as int) =~= plan@);
                }
                return Err(e);
            },
        }
        i += 1;
    }
    assert(plan@.take(plan@.len() as int) =~= plan@);
    *accounts = work;
    Ok(())
}

/// Once a prefix of a plan fails, the whole plan fails with the same error.
pub proof fn lemma_run_stops(s: Seq<AccountMeta>, plan: Seq<Action>, n: int)
    requires
        0 <= n <= plan.len(),
        run(s, plan.take(n)) is Err,
    ensures
        run(s, plan) == run(s, plan.take(n)),
    decreases plan.len() - n,
{
    if n < plan.len() {
        assert(plan.take(n + 1).drop_last() =~= plan.take(n));
        lemma_run_stops(s, plan, n + 1);
    } else {
        assert(plan.take(n) =~= plan);
    }
}

} // verus!
