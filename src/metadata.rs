use vstd::prelude::*;
use vstd::string::StringExecFns;
use crate::types::U256;

verus! {

/// The collection's fixed metadata.
pub struct StylusNFTParams;

pub open spec fn spec_name() -> Seq<char> {
    "VeriWell NFT"@
}

pub open spec fn spec_symbol() -> Seq<char> {
    "VWNFT"@
}

/// The one metadata document that every token points to.
pub open spec fn spec_token_uri() -> Seq<char> {
    "https://veriwell-nft.s3.us-east-1.amazonaws.com/veriwell.json"@
}

impl StylusNFTParams {
    pub fn name() -> (r: String)
        ensures
            r@ == spec_name(),
    {
        String::from_str("VeriWell NFT")
    }

    pub fn symbol() -> (r: String)
        ensures
            r@ == spec_symbol(),
    {
        String::from_str("VWNFT")
    }

    /// The metadata URI of a token: the same for every token.
    pub fn token_uri(token_id: U256) -> (r: String)
        ensures
            r@ == spec_token_uri(),
    {
        String::from_str("https://veriwell-nft.s3.us-east-1.amazonaws.com/veriwell.json")
    }
}

} // verus!
