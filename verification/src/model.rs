use vstd::prelude::*;

use crate::error::TokenError;
use crate::state::{
    CreateMintWithMetadata, CreateTokenAccount, MintRecord, MintTokens, TokenAccountRecord,
    TransferTokens, MINT_DECIMALS,
};

verus! {

/// The ledger as mathematics: every mint and every token account the
/// token program has created, keyed by address.
#[verifier::ext_equal]
pub struct LedgerModel {
    pub mints: Map<u64, MintRecord>,
    pub accounts: Map<u64, TokenAccountRecord>,
}

/// No address is both a mint and a token account.
pub open spec fn model_wf(l: LedgerModel) -> bool {
    forall|a: u64|
        !(#[trigger] l.mints.contains_key(a) && #[trigger] l.accounts.contains_key(a))
}

/// Nothing lives at `a` yet, so an account may be allocated there.
pub open spec fn address_free(l: LedgerModel, a: u64) -> bool {
    !l.mints.contains_key(a) && !l.accounts.contains_key(a)
}

/// Some token account of `mint` owned by `owner` exists: the associated
/// address derived for the pair is already allocated.
pub open spec fn has_associated(
    accounts: Map<u64, TokenAccountRecord>,
    mint: u64,
    owner: u64,
) -> bool {
    exists|a: u64|
        #[trigger] accounts.contains_key(a) && accounts[a].mint == mint && accounts[a].owner
            == owner
}

/// The record written for a freshly created mint: fixed decimals, the
/// payer as mint authority, a metadata pointer aimed at the mint itself
/// with the payer as its authority, and the payer as close authority.
pub open spec fn new_mint_record(payer: u64, mint: u64) -> MintRecord {
    MintRecord {
        decimals: MINT_DECIMALS,
        mint_authority: payer,
        supply: 0,
        metadata_pointer_authority: Some(payer),
        metadata_pointer_address: Some(mint),
        close_authority: Some(payer),
    }
}

/// Creating a mint allocates `accounts.mint` and writes
/// [`new_mint_record`] there; it fails exactly when the address is
/// already in use, leaving the ledger unchanged.
pub open spec fn create_mint_spec(l: LedgerModel, accounts: CreateMintWithMetadata) -> (
    LedgerModel,
    Result<(), TokenError>,
) {
    if !address_free(l, accounts.mint) {
        (l, Err(TokenError::AccountAlreadyInitialized))
    } else {
        (
            LedgerModel {
                mints: l.mints.insert(
                    accounts.mint,
                    new_mint_record(accounts.payer, accounts.mint),
                ),
                ..l
            },
            Ok(()),
        )
    }
}

/// Creating a token account allocates `accounts.token_account` with a
/// zero balance, owned by the payer and tied to the mint. It fails when
/// the mint does not exist, when the address is already in use, or when
/// an associated account for `(mint, payer)` already exists.
pub open spec fn create_token_account_spec(l: LedgerModel, accounts: CreateTokenAccount) -> (
    LedgerModel,
    Result<(), TokenError>,
) {
    if !l.mints.contains_key(accounts.mint) {
        (l, Err(TokenError::MintNotFound))
    } else if !address_free(l, accounts.token_account) || has_associated(
        l.accounts,
        accounts.mint,
        accounts.payer,
    ) {
        (l, Err(TokenError::AccountAlreadyInitialized))
    } else {
        (
            LedgerModel {
                accounts: l.accounts.insert(
                    accounts.token_account,
                    TokenAccountRecord { mint: accounts.mint, owner: accounts.payer, balance: 0 },
                ),
                ..l
            },
            Ok(()),
        )
    }
}

/// Minting credits the destination and grows the supply by exactly
/// `amount`. It fails when an account is missing, when the destination
/// belongs to another mint, when the signer is not the mint authority,
/// or when a balance or the supply would pass `u64::MAX`; every failure
/// leaves the ledger unchanged.
pub open spec fn mint_tokens_spec(l: LedgerModel, accounts: MintTokens, amount: u64) -> (
    LedgerModel,
    Result<(), TokenError>,
) {
    if !l.mints.contains_key(accounts.mint) {
        (l, Err(TokenError::MintNotFound))
    } else if !l.accounts.contains_key(accounts.token_account) {
        (l, Err(TokenError::AccountNotFound))
    } else if l.accounts[accounts.token_account].mint != accounts.mint {
        (l, Err(TokenError::MintMismatch))
    } else if accounts.mint_authority != l.mints[accounts.mint].mint_authority {
        (l, Err(TokenError::Unauthorized))
    } else if l.mints[accounts.mint].supply + amount > u64::MAX || l.accounts[accounts.token_account].balance
        + amount > u64::MAX {
        (l, Err(TokenError::Overflow))
    } else {
        let m = l.mints[accounts.mint];
        let t = l.accounts[accounts.token_account];
        (
            LedgerModel {
                mints: l.mints.insert(
                    accounts.mint,
                    MintRecord { supply: (m.supply + amount) as u64, ..m },
                ),
                accounts: l.accounts.insert(
                    accounts.token_account,
                    TokenAccountRecord { balance: (t.balance + amount) as u64, ..t },
                ),
            },
            Ok(()),
        )
    }
}

/// Transferring debits the source and credits the destination by exactly
/// `amount`, atomically. It fails when an account is missing, when the
/// two accounts belong to different mints, when the signer does not own
/// the source, when the source balance is short, or when the destination
/// balance would pass `u64::MAX`; every failure leaves the ledger
/// unchanged. A transfer from an account to itself checks the same
/// conditions and moves nothing.
pub open spec fn transfer_tokens_spec(l: LedgerModel, accounts: TransferTokens, amount: u64) -> (
    LedgerModel,
    Result<(), TokenError>,
) {
    if !l.accounts.contains_key(accounts.from_token_account) || !l.accounts.contains_key(
        accounts.to_token_account,
    ) {
        (l, Err(TokenError::AccountNotFound))
    } else if l.accounts[accounts.from_token_account].mint != l.accounts[accounts.to_token_account].mint {
        (l, Err(TokenError::MintMismatch))
    } else if accounts.authority != l.accounts[accounts.from_token_account].owner {
        (l, Err(TokenError::Unauthorized))
    } else if amount > l.accounts[accounts.from_token_account].balance {
        (l, Err(TokenError::InsufficientBalance))
    } else if accounts.from_token_account == accounts.to_token_account {
        (l, Ok(()))
    } else if l.accounts[accounts.to_token_account].balance + amount > u64::MAX {
        (l, Err(TokenError::Overflow))
    } else {
        let f = l.accounts[accounts.from_token_account];
        let t = l.accounts[accounts.to_token_account];
        (
            LedgerModel {
                accounts: l.accounts.insert(
                    accounts.from_token_account,
                    TokenAccountRecord { balance: (f.balance - amount) as u64, ..f },
                ).insert(
                    accounts.to_token_account,
                    TokenAccountRecord { balance: (t.balance + amount) as u64, ..t },
                ),
                ..l
            },
            Ok(()),
        )
    }
}

} // verus!
