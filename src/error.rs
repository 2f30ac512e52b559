use vstd::prelude::*;
use crate::types::{Address, U256};

verus! {

/// Every way an operation of the ledger or of the contract can fail. A failed
/// operation leaves the state as it found it.
#[derive(Clone, Copy, Debug, PartialEq, Eq, Structural)]
pub enum NftError {
    /// The recipient of a new or moved token is the zero address.
    InvalidRecipient { to: Address },
    /// No owner is recorded for the token.
    TokenNotFound { token_id: U256 },
    /// The caller is not the token's recorded owner.
    NotOwner { caller: Address, token_id: U256 },
    /// The caller is not the stored authority.
    Unauthorized { account: Address },
    /// The authority has already been set.
    AlreadyInitialized,
    /// The proposed authority is the zero address.
    InvalidOwner { owner: Address },
}

} // verus!
