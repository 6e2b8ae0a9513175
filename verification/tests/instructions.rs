use anchor_lang::prelude::Pubkey;
use std::str::FromStr;
use will_sol::address::program_id;
use will_sol::{
    create_token, create_token_with, initialize, metadata_record, mint_token, mint_token_with,
    Account, Address, Context, CreateToken, Initialize, Metadata, Mint, MintToken, ProgramError,
    Signer, TokenAccount, Verdict,
};

fn address(text: &str) -> Address {
    Address::new(Pubkey::from_str(text).unwrap().to_bytes())
}

fn mint_key() -> Address {
    address("9HYbMftg8YeK59kHRHqYtA8AzRNswpqSpuw34MrLgtZs")
}

fn metadata_key() -> Address {
    address("7mWKkubEcP9MLvDVDb7pomG5qGco9pY1NC2KJjFX5G2Q")
}

fn token_key() -> Address {
    address("BMs4puKb534hukMqqGFwydtoALS9SZ74Na1wWJG63aqS")
}

fn payer() -> Signer {
    Signer { address: Address::new([7; 32]), is_signer: true }
}

fn creation() -> Context<CreateToken> {
    Context {
        program_id: program_id(),
        accounts: CreateToken {
            payer: payer(),
            mint: Account { address: mint_key(), data: None },
            metadata: Account { address: metadata_key(), data: None },
            token_metadata_program: address("metaqbxxUerdq28cj1RbAWkYQm3ybzjb6a8bt518x1s"),
        },
    }
}

fn fresh_mint(decimals: u8, supply: u64) -> Mint {
    Mint { decimals, mint_authority: mint_key(), freeze_authority: mint_key(), supply }
}

fn minting(mint: Option<Mint>, held: Option<u64>) -> Context<MintToken> {
    Context {
        program_id: program_id(),
        accounts: MintToken {
            payer: payer(),
            mint: Account { address: mint_key(), data: mint },
            token_account: Account {
                address: token_key(),
                data: held.map(|amount| TokenAccount {
                    mint: mint_key(),
                    owner: payer().address,
                    amount,
                }),
            },
            token_program: address("TokenkegQfeZyiNwAJbNbGKPFXCWuBvf9Ss623VQ5DA"),
            associated_token_program: address("ATokenGPvbdGVxr1b2hvZbsiqW5xWH25efTNsLJA8knL"),
        },
    }
}

fn create(ctx: &mut Context<CreateToken>, verdict: Verdict) -> Result<(), ProgramError> {
    create_token(
        ctx,
        "Will".to_string(),
        "WILL".to_string(),
        "https://example.com/will.json".to_string(),
        verdict,
    )
}

#[test]
fn initialize_always_succeeds() {
    let line = initialize(Context { program_id: program_id(), accounts: Initialize {} });
    assert_eq!(
        line,
        Ok("Greetings from: 7rqSkHiGHGJEbTNsQsDKEfkdxdqcx9EyTPdKW3Vju7um".to_string())
    );
    for byte in [0u8, 1, 127, 255] {
        let ctx = Context { program_id: Address::new([byte; 32]), accounts: Initialize {} };
        assert!(initialize(ctx).is_ok());
    }
}

#[test]
fn create_token_creates_the_mint() {
    let mut ctx = creation();
    assert_eq!(create(&mut ctx, Verdict::Accepted), Ok(()));
    let mint = ctx.accounts.mint.data.unwrap();
    assert_eq!(mint.decimals, 9);
    assert_eq!(mint.mint_authority, mint_key());
    assert_eq!(mint.freeze_authority, mint_key());
    assert_eq!(mint.supply, 0);
    assert_eq!(ctx.accounts.mint.address, mint_key());
}

#[test]
fn create_token_attaches_the_metadata() {
    let mut ctx = creation();
    assert_eq!(create(&mut ctx, Verdict::Accepted), Ok(()));
    assert_eq!(
        ctx.accounts.metadata.data,
        Some(Metadata {
            mint: mint_key(),
            update_authority: mint_key(),
            name: "Will".to_string(),
            symbol: "WILL".to_string(),
            uri: "https://example.com/will.json".to_string(),
            seller_fee_basis_points: 0,
            creators: None,
            is_mutable: false,
        })
    );
    assert_eq!(ctx.accounts.payer, payer());
    assert_eq!(ctx.program_id, program_id());
}

#[test]
fn metadata_record_has_no_royalty_and_no_creators() {
    let record =
        metadata_record(mint_key(), "a".to_string(), "b".to_string(), "c".to_string());
    assert_eq!(record.name, "a");
    assert_eq!(record.symbol, "b");
    assert_eq!(record.uri, "c");
    assert_eq!(record.seller_fee_basis_points, 0);
    assert_eq!(record.creators, None);
    assert!(!record.is_mutable);
    assert_eq!(record.mint, mint_key());
    assert_eq!(record.update_authority, mint_key());
}

#[test]
fn create_token_twice_fails_the_second_time() {
    let mut ctx = creation();
    assert_eq!(create(&mut ctx, Verdict::Accepted), Ok(()));
    let created = ctx.clone();
    assert_eq!(create(&mut ctx, Verdict::Accepted), Err(ProgramError::AccountAlreadyInUse));
    assert_eq!(ctx, created);
    let again = create_token(
        &mut ctx,
        "Other".to_string(),
        "OTH".to_string(),
        String::new(),
        Verdict::Rejected,
    );
    assert_eq!(again, Err(ProgramError::AccountAlreadyInUse));
    assert_eq!(ctx, created);
}

#[test]
fn create_token_needs_the_payers_signature() {
    let mut ctx = creation();
    ctx.accounts.payer.is_signer = false;
    let before = ctx.clone();
    assert_eq!(create(&mut ctx, Verdict::Accepted), Err(ProgramError::MissingSignature));
    assert_eq!(ctx, before);
}

#[test]
fn create_token_refuses_a_mint_at_another_address() {
    let mut ctx = creation();
    ctx.accounts.mint.address = Address::new([9; 32]);
    let before = ctx.clone();
    assert_eq!(create(&mut ctx, Verdict::Accepted), Err(ProgramError::SeedsMismatch));
    assert_eq!(ctx, before);
}

#[test]
fn create_token_refuses_a_mint_of_another_program() {
    let mut ctx = creation();
    ctx.program_id = Address::new([1; 32]);
    let before = ctx.clone();
    assert_eq!(create(&mut ctx, Verdict::Accepted), Err(ProgramError::SeedsMismatch));
    assert_eq!(ctx, before);
}

#[test]
fn create_token_refuses_metadata_at_another_address() {
    let mut ctx = creation();
    ctx.accounts.metadata.address = token_key();
    let before = ctx.clone();
    assert_eq!(create(&mut ctx, Verdict::Accepted), Err(ProgramError::SeedsMismatch));
    assert_eq!(ctx, before);
}

#[test]
fn create_token_refuses_occupied_metadata() {
    let mut ctx = creation();
    ctx.accounts.metadata.data =
        Some(metadata_record(mint_key(), String::new(), String::new(), String::new()));
    let before = ctx.clone();
    assert_eq!(create(&mut ctx, Verdict::Accepted), Err(ProgramError::AccountAlreadyInUse));
    assert_eq!(ctx, before);
}

#[test]
fn create_token_fails_without_funds() {
    let mut ctx = creation();
    assert_eq!(create(&mut ctx, Verdict::InsufficientFunds), Err(ProgramError::InsufficientFunds));
    assert_eq!(ctx, creation());
}

#[test]
fn create_token_fails_when_the_metadata_program_refuses() {
    let mut ctx = creation();
    assert_eq!(create(&mut ctx, Verdict::Rejected), Err(ProgramError::DownstreamRejected));
    assert_eq!(ctx, creation());
}

#[test]
fn create_token_reports_the_first_failing_check() {
    let mut ctx = creation();
    ctx.accounts.payer.is_signer = false;
    ctx.accounts.mint.address = Address::new([9; 32]);
    assert_eq!(create(&mut ctx, Verdict::Rejected), Err(ProgramError::MissingSignature));
    let mut ctx = creation();
    ctx.accounts.mint.data = Some(fresh_mint(9, 0));
    ctx.accounts.metadata.address = Address::new([9; 32]);
    assert_eq!(create(&mut ctx, Verdict::Rejected), Err(ProgramError::AccountAlreadyInUse));
    let mut ctx = creation();
    ctx.accounts.mint.address = Address::new([9; 32]);
    ctx.accounts.mint.data = Some(fresh_mint(9, 0));
    assert_eq!(create(&mut ctx, Verdict::Accepted), Err(ProgramError::SeedsMismatch));
}

#[test]
fn create_token_with_takes_the_found_addresses() {
    let mut ctx = creation();
    let r = create_token_with(
        &mut ctx,
        None,
        Some((metadata_key(), 255)),
        String::new(),
        String::new(),
        String::new(),
        Verdict::Accepted,
    );
    assert_eq!(r, Err(ProgramError::SeedsMismatch));
    let r = create_token_with(
        &mut ctx,
        Some((mint_key(), 255)),
        None,
        String::new(),
        String::new(),
        String::new(),
        Verdict::Accepted,
    );
    assert_eq!(r, Err(ProgramError::SeedsMismatch));
    assert_eq!(ctx, creation());
    let r = create_token_with(
        &mut ctx,
        Some((mint_key(), 255)),
        Some((metadata_key(), 255)),
        "n".to_string(),
        "s".to_string(),
        "u".to_string(),
        Verdict::Accepted,
    );
    assert_eq!(r, Ok(()));
    assert_eq!(ctx.accounts.mint.data, Some(fresh_mint(9, 0)));
    assert_eq!(ctx.accounts.metadata.data.unwrap().name, "n");
}

#[test]
fn mint_token_adds_the_scaled_amount() {
    let mut ctx = minting(Some(fresh_mint(9, 0)), None);
    assert_eq!(mint_token(&mut ctx, 5, Verdict::Accepted), Ok(()));
    assert_eq!(
        ctx.accounts.token_account.data,
        Some(TokenAccount { mint: mint_key(), owner: payer().address, amount: 5_000_000_000 })
    );
    assert_eq!(ctx.accounts.mint.data, Some(fresh_mint(9, 5_000_000_000)));
    assert_eq!(mint_token(&mut ctx, 2, Verdict::Accepted), Ok(()));
    assert_eq!(ctx.accounts.token_account.data.unwrap().amount, 7_000_000_000);
    assert_eq!(ctx.accounts.mint.data, Some(fresh_mint(9, 7_000_000_000)));
}

#[test]
fn mint_token_adds_to_an_existing_balance() {
    let mut ctx = minting(Some(fresh_mint(9, 1_000)), Some(250));
    assert_eq!(mint_token(&mut ctx, 3, Verdict::Accepted), Ok(()));
    assert_eq!(ctx.accounts.token_account.data.unwrap().amount, 3_000_000_250);
    assert_eq!(ctx.accounts.mint.data.unwrap().supply, 3_000_001_000);
    assert_eq!(ctx.accounts.token_account.address, token_key());
    assert_eq!(ctx.accounts.payer, payer());
}

#[test]
fn mint_token_reads_the_decimals_from_the_mint() {
    let mut ctx = minting(Some(fresh_mint(2, 0)), None);
    assert_eq!(mint_token(&mut ctx, 3, Verdict::Accepted), Ok(()));
    assert_eq!(ctx.accounts.token_account.data.unwrap().amount, 300);
    let mut ctx = minting(Some(fresh_mint(0, 0)), Some(1));
    assert_eq!(mint_token(&mut ctx, 3, Verdict::Accepted), Ok(()));
    assert_eq!(ctx.accounts.token_account.data.unwrap().amount, 4);
}

#[test]
fn mint_token_of_nothing_creates_the_token_account() {
    let mut ctx = minting(Some(fresh_mint(9, 0)), None);
    assert_eq!(mint_token(&mut ctx, 0, Verdict::Accepted), Ok(()));
    assert_eq!(
        ctx.accounts.token_account.data,
        Some(TokenAccount { mint: mint_key(), owner: payer().address, amount: 0 })
    );
    assert_eq!(ctx.accounts.mint.data, Some(fresh_mint(9, 0)));
}

#[test]
fn mint_token_before_create_token_fails() {
    let mut ctx = minting(None, None);
    let before = ctx.clone();
    assert_eq!(mint_token(&mut ctx, 1, Verdict::Accepted), Err(ProgramError::MintNotInitialized));
    assert_eq!(ctx, before);
}

#[test]
fn mint_token_after_create_token_succeeds() {
    let mut created = creation();
    assert_eq!(create(&mut created, Verdict::Accepted), Ok(()));
    let mut ctx = minting(created.accounts.mint.data, None);
    assert_eq!(mint_token(&mut ctx, 10, Verdict::Accepted), Ok(()));
    assert_eq!(ctx.accounts.token_account.data.unwrap().amount, 10_000_000_000);
    assert_eq!(ctx.accounts.mint.data.unwrap().supply, 10_000_000_000);
}

#[test]
fn mint_token_overflow_alters_no_balance() {
    let mut ctx = minting(Some(fresh_mint(9, 40)), Some(40));
    let before = ctx.clone();
    assert_eq!(
        mint_token(&mut ctx, 18_446_744_074, Verdict::Accepted),
        Err(ProgramError::ArithmeticOverflow)
    );
    assert_eq!(ctx, before);
    assert_eq!(
        mint_token(&mut ctx, u64::MAX, Verdict::Accepted),
        Err(ProgramError::ArithmeticOverflow)
    );
    assert_eq!(ctx, before);
    assert_eq!(ctx.accounts.token_account.data.unwrap().amount, 40);
}

#[test]
fn mint_token_fails_when_the_supply_would_overflow() {
    let mut ctx = minting(Some(fresh_mint(0, u64::MAX - 1)), Some(0));
    let before = ctx.clone();
    assert_eq!(mint_token(&mut ctx, 2, Verdict::Accepted), Err(ProgramError::DownstreamRejected));
    assert_eq!(ctx, before);
    assert_eq!(mint_token(&mut ctx, 1, Verdict::Accepted), Ok(()));
    assert_eq!(ctx.accounts.mint.data.unwrap().supply, u64::MAX);
}

#[test]
fn mint_token_fails_when_the_balance_would_overflow() {
    let mut ctx = minting(Some(fresh_mint(0, 0)), Some(u64::MAX));
    let before = ctx.clone();
    assert_eq!(mint_token(&mut ctx, 1, Verdict::Accepted), Err(ProgramError::DownstreamRejected));
    assert_eq!(ctx, before);
}

#[test]
fn mint_token_needs_the_mint_as_its_own_authority() {
    let mut mint = fresh_mint(9, 0);
    mint.mint_authority = payer().address;
    let mut ctx = minting(Some(mint), None);
    let before = ctx.clone();
    assert_eq!(mint_token(&mut ctx, 1, Verdict::Accepted), Err(ProgramError::DownstreamRejected));
    assert_eq!(ctx, before);
}

#[test]
fn mint_token_needs_the_payers_signature() {
    let mut ctx = minting(Some(fresh_mint(9, 0)), None);
    ctx.accounts.payer.is_signer = false;
    let before = ctx.clone();
    assert_eq!(mint_token(&mut ctx, 1, Verdict::Accepted), Err(ProgramError::MissingSignature));
    assert_eq!(ctx, before);
}

#[test]
fn mint_token_refuses_a_mint_at_another_address() {
    let mut ctx = minting(Some(fresh_mint(9, 0)), None);
    ctx.accounts.mint.address = metadata_key();
    let before = ctx.clone();
    assert_eq!(mint_token(&mut ctx, 1, Verdict::Accepted), Err(ProgramError::SeedsMismatch));
    assert_eq!(ctx, before);
}

#[test]
fn mint_token_refuses_a_token_account_at_another_address() {
    let mut ctx = minting(Some(fresh_mint(9, 0)), None);
    ctx.accounts.token_account.address = metadata_key();
    let before = ctx.clone();
    assert_eq!(mint_token(&mut ctx, 1, Verdict::Accepted), Err(ProgramError::SeedsMismatch));
    assert_eq!(ctx, before);
    let mut ctx = minting(Some(fresh_mint(9, 0)), None);
    ctx.accounts.payer.address = Address::new([8; 32]);
    assert_eq!(mint_token(&mut ctx, 1, Verdict::Accepted), Err(ProgramError::SeedsMismatch));
}

#[test]
fn mint_token_refuses_a_token_account_of_another_owner_or_mint() {
    let mut ctx = minting(Some(fresh_mint(9, 0)), Some(1));
    ctx.accounts.token_account.data =
        Some(TokenAccount { mint: mint_key(), owner: Address::new([8; 32]), amount: 1 });
    let before = ctx.clone();
    assert_eq!(mint_token(&mut ctx, 1, Verdict::Accepted), Err(ProgramError::InvalidTokenAccount));
    assert_eq!(ctx, before);
    ctx.accounts.token_account.data =
        Some(TokenAccount { mint: metadata_key(), owner: payer().address, amount: 1 });
    assert_eq!(mint_token(&mut ctx, 1, Verdict::Accepted), Err(ProgramError::InvalidTokenAccount));
}

#[test]
fn mint_token_fails_without_funds_for_the_token_account() {
    let mut ctx = minting(Some(fresh_mint(9, 0)), None);
    let before = ctx.clone();
    assert_eq!(
        mint_token(&mut ctx, 1, Verdict::InsufficientFunds),
        Err(ProgramError::InsufficientFunds)
    );
    assert_eq!(ctx, before);
}

#[test]
fn mint_token_fails_when_the_token_program_refuses() {
    let mut ctx = minting(Some(fresh_mint(9, 0)), Some(5));
    let before = ctx.clone();
    assert_eq!(mint_token(&mut ctx, 1, Verdict::Rejected), Err(ProgramError::DownstreamRejected));
    assert_eq!(ctx, before);
}

#[test]
fn mint_token_reports_the_first_failing_check() {
    let mut ctx = minting(None, None);
    ctx.accounts.payer.is_signer = false;
    assert_eq!(mint_token(&mut ctx, 1, Verdict::Accepted), Err(ProgramError::MissingSignature));
    let mut ctx = minting(None, None);
    ctx.accounts.token_account.address = metadata_key();
    assert_eq!(mint_token(&mut ctx, 1, Verdict::Accepted), Err(ProgramError::MintNotInitialized));
    let mut ctx = minting(Some(fresh_mint(9, 0)), None);
    assert_eq!(
        mint_token(&mut ctx, u64::MAX, Verdict::Rejected),
        Err(ProgramError::ArithmeticOverflow)
    );
}

#[test]
fn mint_token_with_takes_the_found_addresses() {
    let mut ctx = minting(Some(fresh_mint(9, 0)), None);
    let before = ctx.clone();
    let r = mint_token_with(&mut ctx, None, Some((token_key(), 246)), 1, Verdict::Accepted);
    assert_eq!(r, Err(ProgramError::SeedsMismatch));
    let r = mint_token_with(&mut ctx, Some((mint_key(), 255)), None, 1, Verdict::Accepted);
    assert_eq!(r, Err(ProgramError::SeedsMismatch));
    assert_eq!(ctx, before);
    let r = mint_token_with(
        &mut ctx,
        Some((mint_key(), 255)),
        Some((token_key(), 246)),
        1,
        Verdict::Accepted,
    );
    assert_eq!(r, Ok(()));
    assert_eq!(ctx.accounts.token_account.data.unwrap().amount, 1_000_000_000);
}
