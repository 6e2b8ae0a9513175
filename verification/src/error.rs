//! The ways in which an instruction fails.

use vstd::prelude::*;

verus! {

/// Why an instruction was aborted. An aborted instruction changes no account.
#[derive(Clone, Copy, Debug, PartialEq, Eq, Structural)]
pub enum ProgramError {
    /// The payer did not sign the transaction.
    MissingSignature,
    /// An account was given at an address other than the one derived from
    /// its seeds, or no address can be derived from them.
    SeedsMismatch,
    /// The address of an account that is about to be created is occupied.
    AccountAlreadyInUse,
    /// There is no mint at the derived mint address.
    MintNotInitialized,
    /// The token account belongs to another mint or another owner.
    InvalidTokenAccount,
    /// The amount, scaled by the mint's decimals, does not fit in 64 bits.
    ArithmeticOverflow,
    /// The payer cannot fund the rent of an account that must be created.
    InsufficientFunds,
    /// The program that was called refused the request.
    DownstreamRejected,
}

} // verus!
