//! What holds of the instructions, whatever the accounts they are given.

use vstd::prelude::*;
use crate::accounts::{Context, CreateToken, MintToken, Verdict};
use crate::amount::{pow10, scaled};
use crate::derive::{associated_token_address, mint_address};
use crate::error::ProgramError;
use crate::instructions::{
    carried_out, create_token_outcome, found_at, mint_token_outcome, mint_token_refusal,
};

verus! {

/// The mint is created once: after `create_token` has succeeded, a second
/// `create_token` on the accounts it left behind fails with
/// `AccountAlreadyInUse`, whatever texts and verdict it is given, and
/// changes nothing.
pub proof fn create_token_twice_fails(
    before: Context<CreateToken>,
    name: String,
    symbol: String,
    uri: String,
    verdict: Verdict,
    created: Context<CreateToken>,
    first: Result<(), ProgramError>,
    other_name: String,
    other_symbol: String,
    other_uri: String,
    other_verdict: Verdict,
    after: Context<CreateToken>,
    second: Result<(), ProgramError>,
)
    requires
        carried_out(create_token_outcome(before, name, symbol, uri, verdict), before, created, first),
        first is Ok,
        carried_out(
            create_token_outcome(created, other_name, other_symbol, other_uri, other_verdict),
            created,
            after,
            second,
        ),
    ensures
        second == Err::<(), ProgramError>(ProgramError::AccountAlreadyInUse),
        after == created,
{
}

/// After `create_token` has succeeded the mint exists at the address found
/// for the seed `mint` under the running program; that address is its mint
/// authority and its freeze authority, it has nine decimals, and nothing of
/// it has been minted.
pub proof fn create_token_sets_authorities(
    before: Context<CreateToken>,
    name: String,
    symbol: String,
    uri: String,
    verdict: Verdict,
    after: Context<CreateToken>,
    r: Result<(), ProgramError>,
)
    requires
        carried_out(create_token_outcome(before, name, symbol, uri, verdict), before, after, r),
        r is Ok,
    ensures
        ({
            &&& mint_address(before.program_id@) matches Some((derived, _))
            &&& after.accounts.mint.address@ == derived
            &&& after.accounts.mint.data matches Some(mint)
            &&& mint.mint_authority@ == derived
            &&& mint.freeze_authority@ == derived
            &&& mint.decimals == 9
            &&& mint.supply == 0
        }),
{
}

/// After `create_token` has succeeded the metadata holds the texts it was
/// given, no royalty and no creators; it cannot be changed later, and its
/// update authority is the mint's address.
pub proof fn create_token_attaches_metadata(
    before: Context<CreateToken>,
    name: String,
    symbol: String,
    uri: String,
    verdict: Verdict,
    after: Context<CreateToken>,
    r: Result<(), ProgramError>,
)
    requires
        carried_out(create_token_outcome(before, name, symbol, uri, verdict), before, after, r),
        r is Ok,
    ensures
        ({
            &&& after.accounts.metadata.data matches Some(record)
            &&& record.name == name
            &&& record.symbol == symbol
            &&& record.uri == uri
            &&& record.seller_fee_basis_points == 0
            &&& record.creators is None
            &&& !record.is_mutable
            &&& record.mint == after.accounts.mint.address
            &&& record.update_authority == after.accounts.mint.address
        }),
{
}

/// After `mint_token(amount)` has succeeded the payer's token account holds
/// exactly `amount * 10^decimals` more than before, with the decimals of
/// the mint, and the supply has grown by as much.
pub proof fn mint_token_adds_scaled_amount(
    before: Context<MintToken>,
    amount: u64,
    verdict: Verdict,
    after: Context<MintToken>,
    r: Result<(), ProgramError>,
)
    requires
        carried_out(mint_token_outcome(before, amount, verdict), before, after, r),
        r is Ok,
    ensures
        ({
            &&& before.accounts.mint.data matches Some(mint)
            &&& after.accounts.mint.data matches Some(minted)
            &&& after.accounts.token_account.balance() == before.accounts.token_account.balance()
                + amount * pow10(mint.decimals as nat)
            &&& minted.supply == mint.supply + amount * pow10(mint.decimals as nat)
        }),
{
}

/// While no mint exists `mint_token` fails and changes nothing; where the
/// payer signed and the mint is given at the address found for it, the
/// error is `MintNotInitialized`.
pub proof fn mint_token_needs_mint(
    before: Context<MintToken>,
    amount: u64,
    verdict: Verdict,
    after: Context<MintToken>,
    r: Result<(), ProgramError>,
)
    requires
        carried_out(mint_token_outcome(before, amount, verdict), before, after, r),
        before.accounts.mint.data is None,
    ensures
        r is Err,
        after == before,
        before.accounts.payer.is_signer && found_at(
            mint_address(before.program_id@),
            before.accounts.mint.address,
        ) ==> r == Err::<(), ProgramError>(ProgramError::MintNotInitialized),
{
}

/// Where `amount * 10^decimals` does not fit in 64 bits `mint_token` fails
/// and alters no balance; where none of its checks on the accounts fails,
/// the error is `ArithmeticOverflow`.
pub proof fn mint_token_overflow_fails(
    before: Context<MintToken>,
    amount: u64,
    verdict: Verdict,
    after: Context<MintToken>,
    r: Result<(), ProgramError>,
)
    requires
        carried_out(mint_token_outcome(before, amount, verdict), before, after, r),
        before.accounts.mint.data matches Some(mint) && scaled(amount, mint.decimals) > u64::MAX,
    ensures
        r is Err,
        after == before,
        mint_token_refusal(
            before,
            mint_address(before.program_id@),
            associated_token_address(
                before.accounts.payer.address@,
                before.accounts.mint.address@,
                before.accounts.token_program@,
                before.accounts.associated_token_program@,
            ),
        ) is None ==> r == Err::<(), ProgramError>(ProgramError::ArithmeticOverflow),
{
}

/// An instruction that fails changes no account.
pub proof fn failure_changes_nothing<T>(
    outcome: Result<Context<T>, ProgramError>,
    before: Context<T>,
    after: Context<T>,
    r: Result<(), ProgramError>,
)
    requires
        carried_out(outcome, before, after, r),
        r is Err,
    ensures
        after == before,
{
}

} // verus!
