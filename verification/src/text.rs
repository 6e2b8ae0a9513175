//! The text that the program logs.

use vstd::prelude::*;
use vstd::string::*;
use anchor_lang::prelude::Pubkey;
use crate::address::Address;

verus! {

/// An address written in base 58, as the ledger's tools print it.
pub uninterp spec fn base58_text(bytes: Seq<u8>) -> Seq<char>;

/// Formats a `Pubkey` made of the address's bytes with `{:?}`, which writes
/// the bytes in base 58: a function of the bytes alone that `base58_text`
/// names.
#[verifier::external_body]
fn address_text(address: &Address) -> (r: String)
    ensures
        r@ == base58_text(address@),
{
    format!("{:?}", Pubkey::new_from_array(address.bytes))
}

/// The line that `initialize` logs under the program at `program`.
pub open spec fn greeting_text(program: Seq<u8>) -> Seq<char> {
    "Greetings from: "@ + base58_text(program)
}

/// Writes the line that `initialize` logs.
pub fn greeting(program_id: &Address) -> (r: String)
    ensures
        r@ == greeting_text(program_id@),
{
    let text = address_text(program_id);
    String::from_str("Greetings from: ").concat(text.as_str())
}

} // verus!
