use vstd::prelude::*;

use crate::error::TokenError;
use crate::model::{
    create_mint_spec, create_token_account_spec, has_associated, mint_tokens_spec,
    transfer_tokens_spec, LedgerModel,
};
use crate::state::{CreateMintWithMetadata, CreateTokenAccount, MintTokens, TransferTokens};

verus! {

/// Whenever mint creation succeeds, the new mint's authority and its
/// metadata-pointer authority both equal the payer.
pub proof fn lemma_created_mint_authorities(l: LedgerModel, accounts: CreateMintWithMetadata)
    requires
        create_mint_spec(l, accounts).1 is Ok,
    ensures
        ({
            let m = create_mint_spec(l, accounts).0.mints[accounts.mint];
            &&& m.mint_authority == accounts.payer
            &&& m.metadata_pointer_authority == Some(accounts.payer)
        }),
{
}

/// Creating the associated token account a second time for the same
/// `(payer, mint)` pair fails, whatever address the repeat names, and
/// leaves the ledger unchanged.
pub proof fn lemma_create_token_account_duplicate_fails(
    l: LedgerModel,
    first: CreateTokenAccount,
    second: CreateTokenAccount,
)
    requires
        create_token_account_spec(l, first).1 is Ok,
        second.payer == first.payer,
        second.mint == first.mint,
    ensures
        ({
            let l1 = create_token_account_spec(l, first).0;
            &&& create_token_account_spec(l1, second).1 == Err::<(), TokenError>(
                TokenError::AccountAlreadyInitialized,
            )
            &&& create_token_account_spec(l1, second).0 == l1
        }),
{
    let l1 = create_token_account_spec(l, first).0;
    assert(l1.accounts.contains_key(first.token_account));
    assert(has_associated(l1.accounts, second.mint, second.payer));
}

/// Whenever minting succeeds, the destination balance and the mint
/// supply each grow by exactly the amount, and no other account moves.
pub proof fn lemma_mint_tokens_exact_increase(l: LedgerModel, accounts: MintTokens, amount: u64)
    requires
        mint_tokens_spec(l, accounts, amount).1 is Ok,
    ensures
        ({
            let l1 = mint_tokens_spec(l, accounts, amount).0;
            &&& l1.accounts[accounts.token_account].balance == l.accounts[accounts.token_account].balance
                + amount
            &&& l1.mints[accounts.mint].supply == l.mints[accounts.mint].supply + amount
            &&& forall|a: u64|
                a != accounts.token_account && #[trigger] l.accounts.contains_key(a)
                    ==> l1.accounts[a] == l.accounts[a]
        }),
{
}

/// Minting fails, and moves nothing, when the signer is not the mint's
/// configured authority.
pub proof fn lemma_mint_tokens_requires_authority(l: LedgerModel, accounts: MintTokens, amount: u64)
    requires
        l.mints.contains_key(accounts.mint),
        accounts.mint_authority != l.mints[accounts.mint].mint_authority,
    ensures
        mint_tokens_spec(l, accounts, amount).1 is Err,
        mint_tokens_spec(l, accounts, amount).0 == l,
{
}

/// Whenever a transfer between two distinct accounts succeeds, the
/// source loses and the destination gains exactly the amount, and no
/// other account moves. Success is only possible when the source
/// balance covers the amount.
pub proof fn lemma_transfer_tokens_exact_move(l: LedgerModel, accounts: TransferTokens, amount: u64)
    requires
        transfer_tokens_spec(l, accounts, amount).1 is Ok,
        accounts.from_token_account != accounts.to_token_account,
    ensures
        ({
            let l1 = transfer_tokens_spec(l, accounts, amount).0;
            &&& amount <= l.accounts[accounts.from_token_account].balance
            &&& l1.accounts[accounts.from_token_account].balance == l.accounts[accounts.from_token_account].balance
                - amount
            &&& l1.accounts[accounts.to_token_account].balance == l.accounts[accounts.to_token_account].balance
                + amount
            &&& forall|a: u64|
                a != accounts.from_token_account && a != accounts.to_token_account
                    && #[trigger] l.accounts.contains_key(a) ==> l1.accounts[a] == l.accounts[a]
        }),
{
}

/// A transfer of more than the source balance fails and leaves the
/// ledger unchanged: there is no partial debit.
pub proof fn lemma_transfer_tokens_insufficient_fails(
    l: LedgerModel,
    accounts: TransferTokens,
    amount: u64,
)
    requires
        l.accounts.contains_key(accounts.from_token_account),
        amount > l.accounts[accounts.from_token_account].balance,
    ensures
        transfer_tokens_spec(l, accounts, amount).1 is Err,
        transfer_tokens_spec(l, accounts, amount).0 == l,
{
}

} // verus!
