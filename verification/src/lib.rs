//! A verified model of a minimal token program: four operations (create
//! a mint with a metadata-pointer extension, create an associated token
//! account, mint tokens, transfer tokens) acting on a ledger of mint and
//! token-account records.
//!
//! Each operation validates the declared account relationships and then
//! performs a single all-or-nothing ledger transition; its contract
//! equates the outcome with the corresponding specification-level
//! transition in [`model`], and [`laws`] proves the properties the
//! operations are expected to keep.

pub mod error;
pub mod laws;
pub mod ledger;
pub mod model;
pub mod ops;
pub mod state;
pub mod table;

pub use error::TokenError;
pub use ledger::Ledger;
pub use ops::{create_mint_with_metadata, create_token_account, mint_tokens, transfer_tokens};
pub use state::{
    CreateMintWithMetadata, CreateTokenAccount, MintRecord, MintTokens, TokenAccountRecord,
    TransferTokens, MINT_DECIMALS,
};
