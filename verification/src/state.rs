use vstd::prelude::*;

verus! {

/// Decimals fixed by the mint-creation account constraints: whatever the
/// instruction argument says, a new mint is configured with this value.
pub const MINT_DECIMALS: u8 = 6;

/// A mint: one fungible token type, with its configured authorities and
/// the metadata-pointer extension fields.
#[derive(Clone, Copy, Debug)]
pub struct MintRecord {
    /// Number of base-10 digits to the right of the decimal point.
    pub decimals: u8,
    /// Address entitled to mint new tokens.
    pub mint_authority: u64,
    /// Total number of tokens in existence.
    pub supply: u64,
    /// Address entitled to update the metadata pointer.
    pub metadata_pointer_authority: Option<u64>,
    /// Address of the account holding the mint's metadata.
    pub metadata_pointer_address: Option<u64>,
    /// Address entitled to close the mint account.
    pub close_authority: Option<u64>,
}

/// A token account: a balance of one mint held for one owner.
#[derive(Clone, Copy, Debug)]
pub struct TokenAccountRecord {
    /// The mint this account holds tokens of.
    pub mint: u64,
    /// Address entitled to debit the account.
    pub owner: u64,
    /// Number of tokens held.
    pub balance: u64,
}

/// Accounts of the mint-creation instruction. The account framework has
/// already checked that `payer` signed and that `mint` is the address
/// being allocated.
#[derive(Clone, Copy, Debug)]
pub struct CreateMintWithMetadata {
    /// Signer funding the allocation; becomes every authority of the mint.
    pub payer: u64,
    /// Address at which the new mint is created.
    pub mint: u64,
}

/// Accounts of the token-account-creation instruction. The account
/// framework has already checked that `payer` signed and that
/// `token_account` is the associated address derived for `(mint, payer)`.
#[derive(Clone, Copy, Debug)]
pub struct CreateTokenAccount {
    /// Signer funding the allocation; becomes the owner of the account.
    pub payer: u64,
    /// The existing mint the account will hold tokens of.
    pub mint: u64,
    /// Address at which the new token account is created.
    pub token_account: u64,
}

/// Accounts of the minting instruction; `mint_authority` has signed.
#[derive(Clone, Copy, Debug)]
pub struct MintTokens {
    /// Signer claiming to be the mint's authority.
    pub mint_authority: u64,
    /// The mint whose supply grows.
    pub mint: u64,
    /// The token account credited with the new tokens.
    pub token_account: u64,
}

/// Accounts of the transfer instruction; `authority` has signed.
#[derive(Clone, Copy, Debug)]
pub struct TransferTokens {
    /// Signer claiming to own the source account.
    pub authority: u64,
    /// The account debited.
    pub from_token_account: u64,
    /// The account credited.
    pub to_token_account: u64,
}

} // verus!
