//! What the art dealer contract stores.

use vstd::prelude::*;

verus! {

/// The dealer's configuration.
#[derive(Clone, Debug, PartialEq, Eq)]
pub struct Config {
    pub owner: String,
    pub identityservice_contract: String,
    pub art_nft_address: Option<String>,
    pub art_nft_name: String,
    pub art_nft_symbol: String,
}

/// A DAO's permission to mint: how many, how many so far, how many burned,
/// and when it expires.
#[derive(Clone, Copy, Debug, PartialEq, Eq, Structural)]
pub struct Approval {
    pub approved: u64,
    pub minted: u64,
    pub burned: u64,
    pub expires: u64,
}

} // verus!
