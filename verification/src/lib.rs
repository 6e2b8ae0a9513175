//! A verified model of a token-minting ledger program.
//!
//! The program owns one fungible-token mint whose address is derived from a
//! fixed seed, attaches a metadata record to it, and mints tokens into the
//! payer's associated token account. Every instruction is a function from
//! the accounts it is given to the accounts it leaves behind; an instruction
//! that fails leaves every account as it found it.

pub mod accounts;
pub mod address;
pub mod amount;
pub mod derive;
pub mod error;
pub mod instructions;
pub mod laws;
pub mod text;

pub use accounts::{
    Account, Context, CreateToken, Creator, Initialize, Metadata, Mint, MintToken, Signer,
    TokenAccount, Verdict,
};
pub use address::Address;
pub use amount::{scale_amount, MINT_DECIMALS};
pub use error::ProgramError;
pub use instructions::{
    create_token, create_token_with, initialize, metadata_record, mint_token, mint_token_with,
};
