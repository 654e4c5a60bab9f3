use vstd::prelude::*;

verus! {

/// Why an operation was refused. Every check runs before any effect, so an
/// error always means that nothing moved.
#[derive(Clone, Copy, Debug, PartialEq, Eq, Structural)]
pub enum EscrowError {
    /// Fewer (or more) accounts than the operation names.
    NotEnoughAccountKeys,
    /// The principal that must authorise the call did not sign it.
    MissingRequiredSignature,
    /// An account is not controlled by the program that should control it.
    InvalidAccountOwner,
    /// An account's contents do not match what the operation expects.
    InvalidAccountData,
    /// A supplied address differs from the one derived for `(maker, seed)`.
    InvalidSeeds,
    /// An account that must be fresh already holds value.
    AccountAlreadyInitialized,
    /// No escrow record lives at the derived address.
    UninitializedAccount,
    /// The instruction's own data is malformed or out of range.
    InvalidInstructionData,
    /// An account that must be the token program is another.
    IncorrectProgramId,
    /// A transfer asks for more than the source holds.
    InsufficientFunds,
    /// A balance would exceed what a `u64` holds.
    ArithmeticOverflow,
    /// An action names an account that is not in the account list, or names
    /// one account twice.
    InvalidArgument,
}

} // verus!
