//! The accounts that the instructions read and write.

use vstd::prelude::*;
use crate::address::Address;

verus! {

/// What an instruction runs on: the address of the running program and
/// the accounts that the transaction hands to it.
#[derive(Clone, Debug, PartialEq, Eq)]
pub struct Context<T> {
    pub program_id: Address,
    pub accounts: T,
}

/// An address on the ledger and what is stored there; `None` while nothing
/// has been created at the address.
#[derive(Clone, Debug, PartialEq, Eq)]
pub struct Account<T> {
    pub address: Address,
    pub data: Option<T>,
}

/// The account that pays for an instruction, and whether it signed.
#[derive(Clone, Copy, Debug, PartialEq, Eq)]
pub struct Signer {
    pub address: Address,
    pub is_signer: bool,
}

/// A fungible token: its precision, who may mint and freeze, and how much
/// of it exists.
#[derive(Clone, Copy, Debug, PartialEq, Eq)]
pub struct Mint {
    pub decimals: u8,
    pub mint_authority: Address,
    pub freeze_authority: Address,
    pub supply: u64,
}

/// The balance that `owner` holds of the token `mint`.
#[derive(Clone, Copy, Debug, PartialEq, Eq)]
pub struct TokenAccount {
    pub mint: Address,
    pub owner: Address,
    pub amount: u64,
}

/// Someone named in a metadata record as a creator of the token, with the
/// share of the royalty that falls to them.
#[derive(Clone, Copy, Debug, PartialEq, Eq)]
pub struct Creator {
    pub address: Address,
    pub verified: bool,
    pub share: u8,
}

/// The descriptive record attached to a mint.
#[derive(Clone, Debug, PartialEq, Eq)]
pub struct Metadata {
    pub mint: Address,
    pub update_authority: Address,
    pub name: String,
    pub symbol: String,
    pub uri: String,
    pub seller_fee_basis_points: u16,
    pub creators: Option<Vec<Creator>>,
    pub is_mutable: bool,
}

/// The accounts of `initialize`: none.
#[derive(Clone, Copy, Debug, PartialEq, Eq)]
pub struct Initialize {}

/// The accounts of `create_token`.
#[derive(Clone, Debug, PartialEq, Eq)]
pub struct CreateToken {
    pub payer: Signer,
    pub mint: Account<Mint>,
    pub metadata: Account<Metadata>,
    pub token_metadata_program: Address,
}

/// The accounts of `mint_token`.
#[derive(Clone, Debug, PartialEq, Eq)]
pub struct MintToken {
    pub payer: Signer,
    pub mint: Account<Mint>,
    pub token_account: Account<TokenAccount>,
    pub token_program: Address,
    pub associated_token_program: Address,
}

/// What the ledger and the programs that were called answered to the
/// requests of an instruction.
#[derive(Clone, Copy, Debug, PartialEq, Eq)]
pub enum Verdict {
    /// Every request was carried out.
    Accepted,
    /// The payer could not fund an account that had to be created.
    InsufficientFunds,
    /// A called program refused its request.
    Rejected,
}

impl Account<TokenAccount> {
    /// The balance held at a token account's address: nothing while the
    /// account does not exist.
    pub open spec fn balance(self) -> nat {
        match self.data {
            Some(held) => held.amount as nat,
            None => 0,
        }
    }
}

} // verus!
