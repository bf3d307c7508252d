use token2022::{
    create_mint_with_metadata, create_token_account, mint_tokens, transfer_tokens,
    CreateMintWithMetadata, CreateTokenAccount, Ledger, MintTokens, TokenError, TransferTokens,
    MINT_DECIMALS,
};

const PAYER: u64 = 1;
const OTHER: u64 = 2;
const MINT: u64 = 10;
const ACCOUNT_A: u64 = 20;
const ACCOUNT_B: u64 = 30;

fn new_mint(ledger: &mut Ledger, payer: u64, mint: u64) -> Result<(), TokenError> {
    create_mint_with_metadata(
        ledger,
        CreateMintWithMetadata { payer, mint },
        MINT_DECIMALS,
        "Example".to_string(),
        "XMP".to_string(),
        "https://example.com/meta.json".to_string(),
    )
}

#[test]
fn created_mint_has_payer_authorities() {
    let mut ledger = Ledger::new();
    assert!(new_mint(&mut ledger, PAYER, MINT).is_ok());
    let mint = ledger.mint_of(MINT).unwrap();
    assert_eq!(mint.decimals, 6);
    assert_eq!(mint.supply, 0);
    assert_eq!(mint.mint_authority, PAYER);
    assert_eq!(mint.metadata_pointer_authority, Some(PAYER));
    assert_eq!(mint.metadata_pointer_address, Some(MINT));
    assert_eq!(mint.close_authority, Some(PAYER));
}

#[test]
fn mint_address_cannot_be_reused() {
    let mut ledger = Ledger::new();
    assert!(new_mint(&mut ledger, PAYER, MINT).is_ok());
    assert_eq!(
        new_mint(&mut ledger, OTHER, MINT),
        Err(TokenError::AccountAlreadyInitialized)
    );
}

#[test]
fn token_account_starts_empty() {
    let mut ledger = Ledger::new();
    new_mint(&mut ledger, PAYER, MINT).unwrap();
    let accounts = CreateTokenAccount { payer: PAYER, mint: MINT, token_account: ACCOUNT_A };
    assert!(create_token_account(&mut ledger, accounts).is_ok());
    let account = ledger.account_of(ACCOUNT_A).unwrap();
    assert_eq!(account.mint, MINT);
    assert_eq!(account.owner, PAYER);
    assert_eq!(account.balance, 0);
}

#[test]
fn second_token_account_for_same_pair_fails() {
    let mut ledger = Ledger::new();
    new_mint(&mut ledger, PAYER, MINT).unwrap();
    let first = CreateTokenAccount { payer: PAYER, mint: MINT, token_account: ACCOUNT_A };
    assert!(create_token_account(&mut ledger, first).is_ok());
    // The same derived address a second time.
    assert_eq!(
        create_token_account(&mut ledger, first),
        Err(TokenError::AccountAlreadyInitialized)
    );
    // Even under another address the (mint, payer) pair is taken.
    let elsewhere = CreateTokenAccount { payer: PAYER, mint: MINT, token_account: ACCOUNT_B };
    assert_eq!(
        create_token_account(&mut ledger, elsewhere),
        Err(TokenError::AccountAlreadyInitialized)
    );
    assert!(ledger.account_of(ACCOUNT_B).is_none());
}

#[test]
fn token_account_needs_existing_mint() {
    let mut ledger = Ledger::new();
    let accounts = CreateTokenAccount { payer: PAYER, mint: MINT, token_account: ACCOUNT_A };
    assert_eq!(create_token_account(&mut ledger, accounts), Err(TokenError::MintNotFound));
}

#[test]
fn minting_credits_balance_and_supply() {
    let mut ledger = Ledger::new();
    new_mint(&mut ledger, PAYER, MINT).unwrap();
    let accounts = CreateTokenAccount { payer: PAYER, mint: MINT, token_account: ACCOUNT_A };
    create_token_account(&mut ledger, accounts).unwrap();
    let mint_accounts = MintTokens { mint_authority: PAYER, mint: MINT, token_account: ACCOUNT_A };
    assert!(mint_tokens(&mut ledger, mint_accounts, 1000).is_ok());
    assert_eq!(ledger.account_of(ACCOUNT_A).unwrap().balance, 1000);
    assert_eq!(ledger.mint_of(MINT).unwrap().supply, 1000);
    // Minting zero tokens succeeds and moves nothing.
    assert!(mint_tokens(&mut ledger, mint_accounts, 0).is_ok());
    assert_eq!(ledger.account_of(ACCOUNT_A).unwrap().balance, 1000);
    assert_eq!(ledger.mint_of(MINT).unwrap().supply, 1000);
}

#[test]
fn minting_requires_the_mint_authority() {
    let mut ledger = Ledger::new();
    new_mint(&mut ledger, PAYER, MINT).unwrap();
    let accounts = CreateTokenAccount { payer: PAYER, mint: MINT, token_account: ACCOUNT_A };
    create_token_account(&mut ledger, accounts).unwrap();
    let forged = MintTokens { mint_authority: OTHER, mint: MINT, token_account: ACCOUNT_A };
    assert_eq!(mint_tokens(&mut ledger, forged, 5), Err(TokenError::Unauthorized));
    assert_eq!(ledger.account_of(ACCOUNT_A).unwrap().balance, 0);
    assert_eq!(ledger.mint_of(MINT).unwrap().supply, 0);
}

#[test]
fn minting_checks_accounts_and_mint_field() {
    let mut ledger = Ledger::new();
    new_mint(&mut ledger, PAYER, MINT).unwrap();
    let accounts = CreateTokenAccount { payer: PAYER, mint: MINT, token_account: ACCOUNT_A };
    create_token_account(&mut ledger, accounts).unwrap();
    let missing_mint = MintTokens { mint_authority: PAYER, mint: 99, token_account: ACCOUNT_A };
    assert_eq!(mint_tokens(&mut ledger, missing_mint, 5), Err(TokenError::MintNotFound));
    let missing_account = MintTokens { mint_authority: PAYER, mint: MINT, token_account: 99 };
    assert_eq!(mint_tokens(&mut ledger, missing_account, 5), Err(TokenError::AccountNotFound));
    new_mint(&mut ledger, PAYER, 11).unwrap();
    let wrong_mint = MintTokens { mint_authority: PAYER, mint: 11, token_account: ACCOUNT_A };
    assert_eq!(mint_tokens(&mut ledger, wrong_mint, 5), Err(TokenError::MintMismatch));
}

#[test]
fn minting_past_u64_max_overflows() {
    let mut ledger = Ledger::new();
    new_mint(&mut ledger, PAYER, MINT).unwrap();
    let accounts = CreateTokenAccount { payer: PAYER, mint: MINT, token_account: ACCOUNT_A };
    create_token_account(&mut ledger, accounts).unwrap();
    let mint_accounts = MintTokens { mint_authority: PAYER, mint: MINT, token_account: ACCOUNT_A };
    assert!(mint_tokens(&mut ledger, mint_accounts, u64::MAX).is_ok());
    assert_eq!(ledger.mint_of(MINT).unwrap().supply, u64::MAX);
    assert_eq!(mint_tokens(&mut ledger, mint_accounts, 1), Err(TokenError::Overflow));
    assert_eq!(ledger.account_of(ACCOUNT_A).unwrap().balance, u64::MAX);
    assert_eq!(ledger.mint_of(MINT).unwrap().supply, u64::MAX);
}

#[test]
fn transfer_moves_exactly_the_amount() {
    let mut ledger = Ledger::new();
    new_mint(&mut ledger, PAYER, MINT).unwrap();
    let a = CreateTokenAccount { payer: PAYER, mint: MINT, token_account: ACCOUNT_A };
    create_token_account(&mut ledger, a).unwrap();
    let b = CreateTokenAccount { payer: OTHER, mint: MINT, token_account: ACCOUNT_B };
    create_token_account(&mut ledger, b).unwrap();
    let mint_accounts = MintTokens { mint_authority: PAYER, mint: MINT, token_account: ACCOUNT_A };
    mint_tokens(&mut ledger, mint_accounts, 1000).unwrap();
    let transfer = TransferTokens {
        authority: PAYER,
        from_token_account: ACCOUNT_A,
        to_token_account: ACCOUNT_B,
    };
    assert!(transfer_tokens(&mut ledger, transfer, 400).is_ok());
    assert_eq!(ledger.account_of(ACCOUNT_A).unwrap().balance, 600);
    assert_eq!(ledger.account_of(ACCOUNT_B).unwrap().balance, 400);
    // The supply is untouched by a transfer.
    assert_eq!(ledger.mint_of(MINT).unwrap().supply, 1000);
}

#[test]
fn transfer_of_whole_balance_and_of_zero() {
    let mut ledger = Ledger::new();
    new_mint(&mut ledger, PAYER, MINT).unwrap();
    let a = CreateTokenAccount { payer: PAYER, mint: MINT, token_account: ACCOUNT_A };
    create_token_account(&mut ledger, a).unwrap();
    let b = CreateTokenAccount { payer: OTHER, mint: MINT, token_account: ACCOUNT_B };
    create_token_account(&mut ledger, b).unwrap();
    let mint_accounts = MintTokens { mint_authority: PAYER, mint: MINT, token_account: ACCOUNT_A };
    mint_tokens(&mut ledger, mint_accounts, 7).unwrap();
    let transfer = TransferTokens {
        authority: PAYER,
        from_token_account: ACCOUNT_A,
        to_token_account: ACCOUNT_B,
    };
    assert!(transfer_tokens(&mut ledger, transfer, 0).is_ok());
    assert_eq!(ledger.account_of(ACCOUNT_A).unwrap().balance, 7);
    assert!(transfer_tokens(&mut ledger, transfer, 7).is_ok());
    assert_eq!(ledger.account_of(ACCOUNT_A).unwrap().balance, 0);
    assert_eq!(ledger.account_of(ACCOUNT_B).unwrap().balance, 7);
}

#[test]
fn transfer_beyond_balance_fails_without_partial_debit() {
    let mut ledger = Ledger::new();
    new_mint(&mut ledger, PAYER, MINT).unwrap();
    let a = CreateTokenAccount { payer: PAYER, mint: MINT, token_account: ACCOUNT_A };
    create_token_account(&mut ledger, a).unwrap();
    let b = CreateTokenAccount { payer: OTHER, mint: MINT, token_account: ACCOUNT_B };
    create_token_account(&mut ledger, b).unwrap();
    let mint_accounts = MintTokens { mint_authority: PAYER, mint: MINT, token_account: ACCOUNT_A };
    mint_tokens(&mut ledger, mint_accounts, 100).unwrap();
    let transfer = TransferTokens {
        authority: PAYER,
        from_token_account: ACCOUNT_A,
        to_token_account: ACCOUNT_B,
    };
    assert_eq!(
        transfer_tokens(&mut ledger, transfer, 101),
        Err(TokenError::InsufficientBalance)
    );
    assert_eq!(ledger.account_of(ACCOUNT_A).unwrap().balance, 100);
    assert_eq!(ledger.account_of(ACCOUNT_B).unwrap().balance, 0);
}

#[test]
fn transfer_checks_owner_mint_and_existence() {
    let mut ledger = Ledger::new();
    new_mint(&mut ledger, PAYER, MINT).unwrap();
    new_mint(&mut ledger, PAYER, 11).unwrap();
    let a = CreateTokenAccount { payer: PAYER, mint: MINT, token_account: ACCOUNT_A };
    create_token_account(&mut ledger, a).unwrap();
    let b = CreateTokenAccount { payer: OTHER, mint: 11, token_account: ACCOUNT_B };
    create_token_account(&mut ledger, b).unwrap();
    let mint_accounts = MintTokens { mint_authority: PAYER, mint: MINT, token_account: ACCOUNT_A };
    mint_tokens(&mut ledger, mint_accounts, 10).unwrap();
    let missing = TransferTokens {
        authority: PAYER,
        from_token_account: ACCOUNT_A,
        to_token_account: 99,
    };
    assert_eq!(transfer_tokens(&mut ledger, missing, 1), Err(TokenError::AccountNotFound));
    let across_mints = TransferTokens {
        authority: PAYER,
        from_token_account: ACCOUNT_A,
        to_token_account: ACCOUNT_B,
    };
    assert_eq!(transfer_tokens(&mut ledger, across_mints, 1), Err(TokenError::MintMismatch));
    let c = CreateTokenAccount { payer: OTHER, mint: MINT, token_account: 40 };
    create_token_account(&mut ledger, c).unwrap();
    let forged = TransferTokens {
        authority: OTHER,
        from_token_account: ACCOUNT_A,
        to_token_account: 40,
    };
    assert_eq!(transfer_tokens(&mut ledger, forged, 1), Err(TokenError::Unauthorized));
    assert_eq!(ledger.account_of(ACCOUNT_A).unwrap().balance, 10);
}

#[test]
fn self_transfer_moves_nothing() {
    let mut ledger = Ledger::new();
    new_mint(&mut ledger, PAYER, MINT).unwrap();
    let a = CreateTokenAccount { payer: PAYER, mint: MINT, token_account: ACCOUNT_A };
    create_token_account(&mut ledger, a).unwrap();
    let mint_accounts = MintTokens { mint_authority: PAYER, mint: MINT, token_account: ACCOUNT_A };
    mint_tokens(&mut ledger, mint_accounts, 50).unwrap();
    let loopback = TransferTokens {
        authority: PAYER,
        from_token_account: ACCOUNT_A,
        to_token_account: ACCOUNT_A,
    };
    assert!(transfer_tokens(&mut ledger, loopback, 20).is_ok());
    assert_eq!(ledger.account_of(ACCOUNT_A).unwrap().balance, 50);
    assert_eq!(
        transfer_tokens(&mut ledger, loopback, 51),
        Err(TokenError::InsufficientBalance)
    );
}

#[test]
fn full_lifecycle_scenario() {
    let mut ledger = Ledger::new();
    assert!(new_mint(&mut ledger, PAYER, MINT).is_ok());
    assert_eq!(ledger.mint_of(MINT).unwrap().decimals, 6);
    let a = CreateTokenAccount { payer: PAYER, mint: MINT, token_account: ACCOUNT_A };
    assert!(create_token_account(&mut ledger, a).is_ok());
    assert_eq!(ledger.account_of(ACCOUNT_A).unwrap().balance, 0);
    let mint_accounts = MintTokens { mint_authority: PAYER, mint: MINT, token_account: ACCOUNT_A };
    assert!(mint_tokens(&mut ledger, mint_accounts, 1000).is_ok());
    assert_eq!(ledger.account_of(ACCOUNT_A).unwrap().balance, 1000);
    assert_eq!(ledger.mint_of(MINT).unwrap().supply, 1000);
    let b = CreateTokenAccount { payer: OTHER, mint: MINT, token_account: ACCOUNT_B };
    assert!(create_token_account(&mut ledger, b).is_ok());
    let transfer = TransferTokens {
        authority: PAYER,
        from_token_account: ACCOUNT_A,
        to_token_account: ACCOUNT_B,
    };
    assert!(transfer_tokens(&mut ledger, transfer, 400).is_ok());
    assert_eq!(ledger.account_of(ACCOUNT_A).unwrap().balance, 600);
    assert_eq!(ledger.account_of(ACCOUNT_B).unwrap().balance, 400);
}
