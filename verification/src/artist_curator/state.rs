//! What the artist curator contract stores.

use vstd::prelude::*;
use crate::math::Timestamp;

verus! {

/// The curator's configuration: its owner, the identity service it asks,
/// the two token contracts (linked once they are set up) and the artist
/// token counters.
#[derive(Clone, Debug, PartialEq, Eq)]
pub struct Config {
    pub owner: String,
    pub identityservice_contract: String,
    pub art_nft_address: Option<String>,
    pub art_nft_name: String,
    pub art_nft_symbol: String,
    pub artist_nft_address: Option<String>,
    pub artist_nft_name: String,
    pub artist_nft_symbol: String,
    pub artist_nft_total_tokens_minted: u32,
    pub artist_nft_circulating_supply: u32,
}

/// A DAO's permission to mint artist tokens: how many, how many so far, how
/// many burned, and when it expires.
#[derive(Clone, Copy, Debug, PartialEq, Eq, Structural)]
pub struct Approval {
    pub approved: u64,
    pub minted: u64,
    pub burned: u64,
    pub expires: Timestamp,
}

} // verus!
