//! Issue a named fungible token in one all-or-nothing step: derive the
//! registry address from the name, create the mint and the issuer's holding
//! account, record the metadata and mint the initial supply.

pub mod address;
pub mod external;
pub mod token;
pub mod ledger;
pub mod laws;

pub use address::Address;
pub use ledger::{
    create_token, derive_metadata_address, Account, AccountData, CreateToken, CreatedToken, Ledger,
};
pub use token::{mint_to, HoldingAccount, MintAccount, TokenError, TokenMetadata};
