use vstd::prelude::*;

use crate::error::TokenError;
use crate::ledger::Ledger;
use crate::model::{
    create_mint_spec, create_token_account_spec, mint_tokens_spec, transfer_tokens_spec,
};
use crate::state::{
    CreateMintWithMetadata, CreateTokenAccount, MintRecord, MintTokens, TokenAccountRecord,
    TransferTokens, MINT_DECIMALS,
};

verus! {

/// Creates a new mint at `accounts.mint`, funded by the payer, with the
/// metadata-pointer extension aimed at the mint itself. The payer
/// becomes mint authority, metadata-pointer authority and close
/// authority, and the decimals are fixed at [`MINT_DECIMALS`]. The
/// `decimals` argument and the metadata strings are accepted by the
/// instruction but not persisted anywhere on the ledger.
#[allow(unused_variables)]
pub fn create_mint_with_metadata(
    ledger: &mut Ledger,
    accounts: CreateMintWithMetadata,
    decimals: u8,
    name: String,
    symbol: String,
    uri: String,
) -> (r: Result<(), TokenError>)
    requires
        old(ledger).wf(),
    ensures
        final(ledger).wf(),
        (final(ledger)@, r) == create_mint_spec(old(ledger)@, accounts),
{
    if ledger.mints.contains(accounts.mint) || ledger.accounts.contains(accounts.mint) {
        return Err(TokenError::AccountAlreadyInitialized);
    }
    ledger.mints.insert(
        accounts.mint,
        MintRecord {
            decimals: MINT_DECIMALS,
            mint_authority: accounts.payer,
            supply: 0,
            metadata_pointer_authority: Some(accounts.payer),
            metadata_pointer_address: Some(accounts.mint),
            close_authority: Some(accounts.payer),
        },
    );
    proof {
        assert(ledger@ =~= create_mint_spec(old(ledger)@, accounts).0);
        assert forall|a: u64|
            !(#[trigger] ledger@.mints.contains_key(a)
                && #[trigger] ledger@.accounts.contains_key(a)) by {
            assert(!(old(ledger)@.mints.contains_key(a) && old(
                ledger,
            )@.accounts.contains_key(a)));
        }
    }
    Ok(())
}

/// Creates the associated token account for `(accounts.mint,
/// accounts.payer)` at `accounts.token_account`, owned by the payer with
/// a zero balance. Fails when the mint is missing, or when the address
/// or the pair is already taken.
pub fn create_token_account(ledger: &mut Ledger, accounts: CreateTokenAccount) -> (r: Result<
    (),
    TokenError,
>)
    requires
        old(ledger).wf(),
    ensures
        final(ledger).wf(),
        (final(ledger)@, r) == create_token_account_spec(old(ledger)@, accounts),
{
    if !ledger.mints.contains(accounts.mint) {
        return Err(TokenError::MintNotFound);
    }
    if ledger.mints.contains(accounts.token_account) || ledger.accounts.contains(
        accounts.token_account,
    ) || ledger.find_associated(accounts.mint, accounts.payer) {
        return Err(TokenError::AccountAlreadyInitialized);
    }
    ledger.accounts.insert(
        accounts.token_account,
        TokenAccountRecord { mint: accounts.mint, owner: accounts.payer, balance: 0 },
    );
    proof {
        assert(ledger@ =~= create_token_account_spec(old(ledger)@, accounts).0);
        assert forall|a: u64|
            !(#[trigger] ledger@.mints.contains_key(a)
                && #[trigger] ledger@.accounts.contains_key(a)) by {
            assert(!(old(ledger)@.mints.contains_key(a) && old(
                ledger,
            )@.accounts.contains_key(a)));
        }
    }
    Ok(())
}

/// Mints `amount` tokens: credits the destination account and grows the
/// mint's supply by exactly `amount`. Only the mint's configured
/// authority may mint, the destination must belong to the mint, and the
/// new balance and supply must fit in a `u64`.
pub fn mint_tokens(ledger: &mut Ledger, accounts: MintTokens, amount: u64) -> (r: Result<
    (),
    TokenError,
>)
    requires
        old(ledger).wf(),
    ensures
        final(ledger).wf(),
        (final(ledger)@, r) == mint_tokens_spec(old(ledger)@, accounts, amount),
{
    let m = match ledger.mints.get(accounts.mint) {
        Some(m) => m,
        None => { return Err(TokenError::MintNotFound) },
    };
    let t = match ledger.accounts.get(accounts.token_account) {
        Some(t) => t,
        None => { return Err(TokenError::AccountNotFound) },
    };
    if t.mint != accounts.mint {
        return Err(TokenError::MintMismatch);
    }
    if accounts.mint_authority != m.mint_authority {
        return Err(TokenError::Unauthorized);
    }
    let new_supply = match m.supply.checked_add(amount) {
        Some(s) => s,
        None => { return Err(TokenError::Overflow) },
    };
    let new_balance = match t.balance.checked_add(amount) {
        Some(b) => b,
        None => { return Err(TokenError::Overflow) },
    };
    ledger.mints.set(accounts.mint, MintRecord { supply: new_supply, ..m });
    ledger.accounts.set(accounts.token_account, TokenAccountRecord { balance: new_balance, ..t });
    proof {
        assert(ledger@ =~= mint_tokens_spec(old(ledger)@, accounts, amount).0);
        assert forall|a: u64|
            !(#[trigger] ledger@.mints.contains_key(a)
                && #[trigger] ledger@.accounts.contains_key(a)) by {
            assert(!(old(ledger)@.mints.contains_key(a) && old(
                ledger,
            )@.accounts.contains_key(a)));
        }
    }
    Ok(())
}

/// Transfers `amount` tokens from the source to the destination account:
/// debits one and credits the other by exactly `amount`, as one atomic
/// step. Only the source's owner may transfer, the two accounts must
/// belong to one mint, and the source balance must cover the amount.
pub fn transfer_tokens(ledger: &mut Ledger, accounts: TransferTokens, amount: u64) -> (r: Result<
    (),
    TokenError,
>)
    requires
        old(ledger).wf(),
    ensures
        final(ledger).wf(),
        (final(ledger)@, r) == transfer_tokens_spec(old(ledger)@, accounts, amount),
{
    let f = match ledger.accounts.get(accounts.from_token_account) {
        Some(f) => f,
        None => { return Err(TokenError::AccountNotFound) },
    };
    let t = match ledger.accounts.get(accounts.to_token_account) {
        Some(t) => t,
        None => { return Err(TokenError::AccountNotFound) },
    };
    if f.mint != t.mint {
        return Err(TokenError::MintMismatch);
    }
    if accounts.authority != f.owner {
        return Err(TokenError::Unauthorized);
    }
    if amount > f.balance {
        return Err(TokenError::InsufficientBalance);
    }
    if accounts.from_token_account == accounts.to_token_account {
        return Ok(());
    }
    let new_to_balance = match t.balance.checked_add(amount) {
        Some(b) => b,
        None => { return Err(TokenError::Overflow) },
    };
    ledger.accounts.set(
        accounts.from_token_account,
        TokenAccountRecord { balance: f.balance - amount, ..f },
    );
    ledger.accounts.set(
        accounts.to_token_account,
        TokenAccountRecord { balance: new_to_balance, ..t },
    );
    proof {
        assert(ledger@ =~= transfer_tokens_spec(old(ledger)@, accounts, amount).0);
        assert forall|a: u64|
            !(#[trigger] ledger@.mints.contains_key(a)
                && #[trigger] ledger@.accounts.contains_key(a)) by {
            assert(!(old(ledger)@.mints.contains_key(a) && old(
                ledger,
            )@.accounts.contains_key(a)));
        }
    }
    Ok(())
}

} // verus!
