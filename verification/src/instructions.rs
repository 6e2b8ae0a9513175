//! The program's instructions.
//!
//! Each instruction checks the accounts it is given, in a fixed order, and
//! either fails with the first error it meets, leaving every account as it
//! was, or carries out its effect in full.

use vstd::prelude::*;
use crate::accounts::{
    Account, Context, CreateToken, Initialize, Metadata, Mint, MintToken, TokenAccount, Verdict,
};
use crate::address::Address;
use crate::amount::{scale_amount, scaled, MINT_DECIMALS};
use crate::derive::{
    associated_token_address, find_associated_token_address, find_metadata_address,
    find_mint_address, found_view, metadata_address, mint_address,
};
use crate::error::ProgramError;
use crate::text::{greeting, greeting_text};

verus! {

/// Logs a greeting from the running program. It reads no account and
/// writes none, and it always succeeds; the result is the line to log.
pub fn initialize(ctx: Context<Initialize>) -> (r: Result<String, ProgramError>)
    ensures
        r matches Ok(line) && line@ == greeting_text(ctx.program_id@),
{
    Ok(greeting(&ctx.program_id))
}

/// Whether a search found exactly `address`.
pub open spec fn found_at(found: Option<(Seq<u8>, u8)>, address: Address) -> bool {
    found matches Some((derived, _)) && derived == address@
}

/// The mint that `create_token` creates at `address`: nine decimals,
/// nothing minted yet, and the mint's own address as the one authority to
/// mint and to freeze.
pub open spec fn new_mint(address: Address) -> Mint {
    Mint {
        decimals: MINT_DECIMALS,
        mint_authority: address,
        freeze_authority: address,
        supply: 0,
    }
}

/// The record that `create_token` attaches to the mint at `mint`: the given
/// texts, no royalty, no creators, closed to later changes, with the mint's
/// own address kept as update authority.
pub open spec fn new_metadata(mint: Address, name: String, symbol: String, uri: String) -> Metadata {
    Metadata {
        mint,
        update_authority: mint,
        name,
        symbol,
        uri,
        seller_fee_basis_points: 0,
        creators: None,
        is_mutable: false,
    }
}

/// Builds the record that `create_token` attaches to the mint at `mint`.
pub fn metadata_record(mint: Address, name: String, symbol: String, uri: String) -> (r: Metadata)
    ensures
        r == new_metadata(mint, name, symbol, uri),
{
    Metadata {
        mint,
        update_authority: mint,
        name,
        symbol,
        uri,
        seller_fee_basis_points: 0,
        creators: None,
        is_mutable: false,
    }
}

/// The first of `create_token`'s checks on its accounts that fails, if any:
/// the payer signed; the mint is given at the address found for it and
/// nothing is stored there; the metadata is given at the address found for
/// it and nothing is stored there.
pub open spec fn create_token_refusal(
    ctx: Context<CreateToken>,
    mint_pda: Option<(Seq<u8>, u8)>,
    metadata_pda: Option<(Seq<u8>, u8)>,
) -> Option<ProgramError> {
    let accounts = ctx.accounts;
    if !accounts.payer.is_signer {
        Some(ProgramError::MissingSignature)
    } else if !found_at(mint_pda, accounts.mint.address) {
        Some(ProgramError::SeedsMismatch)
    } else if accounts.mint.data is Some {
        Some(ProgramError::AccountAlreadyInUse)
    } else if !found_at(metadata_pda, accounts.metadata.address) {
        Some(ProgramError::SeedsMismatch)
    } else if accounts.metadata.data is Some {
        Some(ProgramError::AccountAlreadyInUse)
    } else {
        None
    }
}

/// The accounts as a successful `create_token` leaves them: the mint and
/// its metadata exist, and nothing else has changed.
pub open spec fn token_created(
    ctx: Context<CreateToken>,
    name: String,
    symbol: String,
    uri: String,
) -> Context<CreateToken> {
    let mint = ctx.accounts.mint.address;
    Context {
        program_id: ctx.program_id,
        accounts: CreateToken {
            payer: ctx.accounts.payer,
            mint: Account { address: mint, data: Some(new_mint(mint)) },
            metadata: Account {
                address: ctx.accounts.metadata.address,
                data: Some(new_metadata(mint, name, symbol, uri)),
            },
            token_metadata_program: ctx.accounts.token_metadata_program,
        },
    }
}

/// What `create_token` does: the first error among its checks, or the
/// accounts as it leaves them. `mint_pda` and `metadata_pda` are the
/// addresses found for the mint and for its metadata.
pub open spec fn create_token_spec(
    ctx: Context<CreateToken>,
    mint_pda: Option<(Seq<u8>, u8)>,
    metadata_pda: Option<(Seq<u8>, u8)>,
    name: String,
    symbol: String,
    uri: String,
    verdict: Verdict,
) -> Result<Context<CreateToken>, ProgramError> {
    match create_token_refusal(ctx, mint_pda, metadata_pda) {
        Some(error) => Err(error),
        None => match verdict {
            Verdict::InsufficientFunds => Err(ProgramError::InsufficientFunds),
            Verdict::Rejected => Err(ProgramError::DownstreamRejected),
            Verdict::Accepted => Ok(token_created(ctx, name, symbol, uri)),
        },
    }
}

/// The first of `mint_token`'s checks on its accounts that fails, if any:
/// the payer signed; the mint is given at the address found for it and
/// exists; the token account is given at the address found for it and,
/// where it exists, holds this mint for the payer.
pub open spec fn mint_token_refusal(
    ctx: Context<MintToken>,
    mint_pda: Option<(Seq<u8>, u8)>,
    token_pda: Option<(Seq<u8>, u8)>,
) -> Option<ProgramError> {
    let accounts = ctx.accounts;
    if !accounts.payer.is_signer {
        Some(ProgramError::MissingSignature)
    } else if !found_at(mint_pda, accounts.mint.address) {
        Some(ProgramError::SeedsMismatch)
    } else if accounts.mint.data is None {
        Some(ProgramError::MintNotInitialized)
    } else if !found_at(token_pda, accounts.token_account.address) {
        Some(ProgramError::SeedsMismatch)
    } else if accounts.token_account.data matches Some(held) && (held.mint@
        != accounts.mint.address@ || held.owner@ != accounts.payer.address@) {
        Some(ProgramError::InvalidTokenAccount)
    } else {
        None
    }
}

/// The accounts as a successful `mint_token` leaves them once `minted` base
/// units have been minted: the payer's token account exists and holds
/// `minted` more than before, the supply has grown by `minted`, and nothing
/// else has changed.
pub open spec fn token_minted(ctx: Context<MintToken>, minted: nat) -> Context<MintToken> {
    let accounts = ctx.accounts;
    let mint = accounts.mint.data.unwrap();
    Context {
        program_id: ctx.program_id,
        accounts: MintToken {
            payer: accounts.payer,
            mint: Account {
                address: accounts.mint.address,
                data: Some(Mint { supply: (mint.supply + minted) as u64, ..mint }),
            },
            token_account: Account {
                address: accounts.token_account.address,
                data: Some(
                    TokenAccount {
                        mint: accounts.mint.address,
                        owner: accounts.payer.address,
                        amount: (accounts.token_account.balance() + minted) as u64,
                    },
                ),
            },
            token_program: accounts.token_program,
            associated_token_program: accounts.associated_token_program,
        },
    }
}

/// Whether the token program refuses to mint `minted` base units: the
/// mint's authority is not the mint itself, or the balance or the supply
/// would outgrow 64 bits.
pub open spec fn minting_refused(ctx: Context<MintToken>, minted: nat) -> bool {
    let mint = ctx.accounts.mint.data.unwrap();
    ||| mint.mint_authority@ != ctx.accounts.mint.address@
    ||| ctx.accounts.token_account.balance() + minted > u64::MAX
    ||| mint.supply + minted > u64::MAX
}

/// What `mint_token` does: the first error among its checks, or the
/// accounts as it leaves them. `mint_pda` and `token_pda` are the addresses
/// found for the mint and for the payer's token account.
pub open spec fn mint_token_spec(
    ctx: Context<MintToken>,
    mint_pda: Option<(Seq<u8>, u8)>,
    token_pda: Option<(Seq<u8>, u8)>,
    amount: u64,
    verdict: Verdict,
) -> Result<Context<MintToken>, ProgramError> {
    match mint_token_refusal(ctx, mint_pda, token_pda) {
        Some(error) => Err(error),
        None => {
            let minted = scaled(amount, ctx.accounts.mint.data.unwrap().decimals);
            if minted > u64::MAX {
                Err(ProgramError::ArithmeticOverflow)
            } else {
                match verdict {
                    Verdict::InsufficientFunds => Err(ProgramError::InsufficientFunds),
                    Verdict::Rejected => Err(ProgramError::DownstreamRejected),
                    Verdict::Accepted => if minting_refused(ctx, minted) {
                        Err(ProgramError::DownstreamRejected)
                    } else {
                        Ok(token_minted(ctx, minted))
                    },
                }
            }
        },
    }
}

/// What `create_token` does on `ctx`, with the addresses that a search
/// finds for the mint and for its metadata.
pub open spec fn create_token_outcome(
    ctx: Context<CreateToken>,
    name: String,
    symbol: String,
    uri: String,
    verdict: Verdict,
) -> Result<Context<CreateToken>, ProgramError> {
    create_token_spec(
        ctx,
        mint_address(ctx.program_id@),
        metadata_address(ctx.accounts.token_metadata_program@, ctx.accounts.mint.address@),
        name,
        symbol,
        uri,
        verdict,
    )
}

/// What `mint_token` does on `ctx`, with the addresses that a search finds
/// for the mint and for the payer's token account.
pub open spec fn mint_token_outcome(ctx: Context<MintToken>, amount: u64, verdict: Verdict) -> Result<
    Context<MintToken>,
    ProgramError,
> {
    mint_token_spec(
        ctx,
        mint_address(ctx.program_id@),
        associated_token_address(
            ctx.accounts.payer.address@,
            ctx.accounts.mint.address@,
            ctx.accounts.token_program@,
            ctx.accounts.associated_token_program@,
        ),
        amount,
        verdict,
    )
}

/// An instruction that returned `r` and left `after` behind met `outcome`:
/// on success the accounts are those of `outcome`, on failure the error is
/// that of `outcome` and the accounts are as they were `before`.
pub open spec fn carried_out<T>(
    outcome: Result<Context<T>, ProgramError>,
    before: Context<T>,
    after: Context<T>,
    r: Result<(), ProgramError>,
) -> bool {
    match outcome {
        Ok(expected) => r is Ok && after == expected,
        Err(error) => r == Err::<(), ProgramError>(error) && after == before,
    }
}

/// Creates the mint and its metadata, given the addresses that were found
/// for them and the ledger's verdict on the requests.
///
/// The checks, in order: the payer signed; the mint is given at the address
/// found for it and nothing is stored there; the metadata is given at the
/// address found for it and nothing is stored there; the verdict accepts.
/// On success the mint holds `new_mint` and the metadata `new_metadata`.
pub fn create_token_with(
    ctx: &mut Context<CreateToken>,
    mint_pda: Option<(Address, u8)>,
    metadata_pda: Option<(Address, u8)>,
    token_name: String,
    token_symbol: String,
    token_uri: String,
    verdict: Verdict,
) -> (r: Result<(), ProgramError>)
    ensures
        carried_out(
            create_token_spec(
                *old(ctx),
                found_view(mint_pda),
                found_view(metadata_pda),
                token_name,
                token_symbol,
                token_uri,
                verdict,
            ),
            *old(ctx),
            *final(ctx),
            r,
        ),
{
    if !ctx.accounts.payer.is_signer {
        return Err(ProgramError::MissingSignature);
    }
    let mint = ctx.accounts.mint.address;
    match mint_pda {
        Some((derived, _)) => {
            if !(derived == mint) {
                return Err(ProgramError::SeedsMismatch);
            }
        },
        None => {
            return Err(ProgramError::SeedsMismatch);
        },
    }
    if ctx.accounts.mint.data.is_some() {
        return Err(ProgramError::AccountAlreadyInUse);
    }
    match metadata_pda {
        Some((derived, _)) => {
            if !(derived == ctx.accounts.metadata.address) {
                return Err(ProgramError::SeedsMismatch);
            }
        },
        None => {
            return Err(ProgramError::SeedsMismatch);
        },
    }
    if ctx.accounts.metadata.data.is_some() {
        return Err(ProgramError::AccountAlreadyInUse);
    }
    match verdict {
        Verdict::InsufficientFunds => Err(ProgramError::InsufficientFunds),
        Verdict::Rejected => Err(ProgramError::DownstreamRejected),
        Verdict::Accepted => {
            ctx.accounts.mint.data = Some(
                Mint {
                    decimals: MINT_DECIMALS,
                    mint_authority: mint,
                    freeze_authority: mint,
                    supply: 0,
                },
            );
            ctx.accounts.metadata.data = Some(
                metadata_record(mint, token_name, token_symbol, token_uri),
            );
            Ok(())
        },
    }
}

/// Creates the program's mint, with nine decimals and its own address as
/// mint and freeze authority, and attaches the metadata record made of
/// `token_name`, `token_symbol` and `token_uri` to it.
///
/// The mint's address is the one found under the running program for the
/// seed `mint`; the metadata's is the one found under the metadata program
/// for that program and the mint. `verdict` is what the ledger answers to
/// the creation of the two accounts. The instruction does what
/// `create_token_outcome` says; whenever it fails, no account changes.
pub fn create_token(
    ctx: &mut Context<CreateToken>,
    token_name: String,
    token_symbol: String,
    token_uri: String,
    verdict: Verdict,
) -> (r: Result<(), ProgramError>)
    ensures
        carried_out(
            create_token_outcome(*old(ctx), token_name, token_symbol, token_uri, verdict),
            *old(ctx),
            *final(ctx),
            r,
        ),
{
    let mint_pda = find_mint_address(&ctx.program_id);
    let metadata_pda = find_metadata_address(
        &ctx.accounts.token_metadata_program,
        &ctx.accounts.mint.address,
    );
    create_token_with(ctx, mint_pda, metadata_pda, token_name, token_symbol, token_uri, verdict)
}

/// Mints `amount` whole tokens to the payer, given the addresses that were
/// found for the mint and for the payer's token account and the ledger's
/// verdict on the requests.
///
/// The checks, in order: the payer signed; the mint is given at the address
/// found for it and exists; the token account is given at the address found
/// for it and, where it exists, holds this mint for the payer; the amount
/// scaled by the mint's decimals fits in 64 bits; the verdict accepts; the
/// mint's authority is the mint itself, and neither the balance nor the
/// supply outgrows 64 bits. On success the token account exists and holds
/// the scaled amount more than before, and the supply has grown as much.
pub fn mint_token_with(
    ctx: &mut Context<MintToken>,
    mint_pda: Option<(Address, u8)>,
    token_pda: Option<(Address, u8)>,
    amount: u64,
    verdict: Verdict,
) -> (r: Result<(), ProgramError>)
    ensures
        carried_out(
            mint_token_spec(*old(ctx), found_view(mint_pda), found_view(token_pda), amount, verdict),
            *old(ctx),
            *final(ctx),
            r,
        ),
{
    if !ctx.accounts.payer.is_signer {
        return Err(ProgramError::MissingSignature);
    }
    let mint_address = ctx.accounts.mint.address;
    let owner = ctx.accounts.payer.address;
    match mint_pda {
        Some((derived, _)) => {
            if !(derived == mint_address) {
                return Err(ProgramError::SeedsMismatch);
            }
        },
        None => {
            return Err(ProgramError::SeedsMismatch);
        },
    }
    let mint = match ctx.accounts.mint.data {
        Some(mint) => mint,
        None => {
            return Err(ProgramError::MintNotInitialized);
        },
    };
    match token_pda {
        Some((derived, _)) => {
            if !(derived == ctx.accounts.token_account.address) {
                return Err(ProgramError::SeedsMismatch);
            }
        },
        None => {
            return Err(ProgramError::SeedsMismatch);
        },
    }
    let balance: u64 = match ctx.accounts.token_account.data {
        Some(held) => {
            if !(held.mint == mint_address) || !(held.owner == owner) {
                return Err(ProgramError::InvalidTokenAccount);
            }
            held.amount
        },
        None => 0,
    };
    let minted: u64 = match scale_amount(amount, mint.decimals) {
        Ok(minted) => minted,
        Err(error) => {
            return Err(error);
        },
    };
    match verdict {
        Verdict::InsufficientFunds => Err(ProgramError::InsufficientFunds),
        Verdict::Rejected => Err(ProgramError::DownstreamRejected),
        Verdict::Accepted => {
            if !(mint.mint_authority == mint_address) {
                return Err(ProgramError::DownstreamRejected);
            }
            let new_balance: u64 = match balance.checked_add(minted) {
                Some(sum) => sum,
                None => {
                    return Err(ProgramError::DownstreamRejected);
                },
            };
            let new_supply: u64 = match mint.supply.checked_add(minted) {
                Some(sum) => sum,
                None => {
                    return Err(ProgramError::DownstreamRejected);
                },
            };
            ctx.accounts.mint.data = Some(
                Mint {
                    decimals: mint.decimals,
                    mint_authority: mint.mint_authority,
                    freeze_authority: mint.freeze_authority,
                    supply: new_supply,
                },
            );
            ctx.accounts.token_account.data = Some(
                TokenAccount { mint: mint_address, owner, amount: new_balance },
            );
            Ok(())
        },
    }
}

/// Mints `amount` whole tokens of the program's mint to the payer: the
/// payer's token account is created if it does not exist, and its balance
/// and the mint's supply grow by `amount * 10^decimals`, with the decimals
/// that the mint holds.
///
/// The mint's address is the one found under the running program for the
/// seed `mint`; the token account's is the one found under the
/// associated-token-account program for the payer, the token program and
/// the mint. `verdict` is what the ledger answers to the creation of the
/// token account and to the minting. The instruction does what
/// `mint_token_outcome` says; whenever it fails, no account changes.
pub fn mint_token(ctx: &mut Context<MintToken>, amount: u64, verdict: Verdict) -> (r: Result<
    (),
    ProgramError,
>)
    ensures
        carried_out(mint_token_outcome(*old(ctx), amount, verdict), *old(ctx), *final(ctx), r),
{
    let mint_pda = find_mint_address(&ctx.program_id);
    let token_pda = find_associated_token_address(
        &ctx.accounts.payer.address,
        &ctx.accounts.mint.address,
        &ctx.accounts.token_program,
        &ctx.accounts.associated_token_program,
    );
    mint_token_with(ctx, mint_pda, token_pda, amount, verdict)
}

} // verus!
