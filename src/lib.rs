//! A non-fungible-token ledger with a one-time-initializable single authority.
//!
//! The ledger (`Erc721`) records which account owns which token and keeps
//! the supply counter; the contract (`StylusNFT`) holds the authority address
//! and guards minting. Every operation takes the invoking account as an
//! explicit argument.

pub mod error;
pub mod authority;
pub mod laws;
pub mod ledger;
pub mod metadata;
pub mod types;

pub use error::NftError;
pub use authority::{NftView, StylusNFT};
pub use ledger::{Erc721, LedgerView};
pub use metadata::StylusNFTParams;
pub use types::{Address, U256};
pub use laws::{
    lemma_authority_keeps_supply, lemma_initialize_once, lemma_no_identifier_reuse,
    lemma_owner_gated_mint, lemma_single_owner, lemma_self_service_burn, lemma_supply_accounting,
    lemma_zero_address_rejected,
};
