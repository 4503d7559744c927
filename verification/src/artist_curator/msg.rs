//! Messages of the artist curator contract and of the token contracts it drives.

use vstd::prelude::*;

verus! {

/// Parameters of a new curator and of its two token contracts.
#[derive(Clone, Debug, PartialEq, Eq)]
pub struct InstantiateMsg {
    pub owner: String,
    pub identityservice_contract: String,
    pub artist_nft_name: String,
    pub artist_nft_symbol: String,
    pub artist_nft_code_id: u64,
    pub art_nft_name: String,
    pub art_nft_symbol: String,
    pub art_nft_code_id: u64,
}

/// Requests the curator executes.
#[derive(Clone, Debug, PartialEq, Eq)]
pub enum ExecuteMsg {
    MintArtist { artist: String },
    MintArt {
        token_id: String,
        /// The owner of the new token.
        owner: String,
        /// Where the token's metadata document lives.
        token_uri: Option<String>,
    },
    ApproveCurator {
        dao: String,
        approved: u64,
        /// Validity of the approval, in seconds.
        duration: u64,
    },
    RevokeCurator { dao: String },
}

/// Queries the curator answers.
#[derive(Clone, Debug, PartialEq, Eq)]
pub enum QueryMsg {
    GetConfig {},
}

/// The curator's configuration as reported by queries.
#[derive(Clone, Debug, PartialEq, Eq)]
pub struct ConfigResponse {
    pub owner: String,
    pub identityservice_contract: String,
    pub art_nft_address: Option<String>,
    pub art_nft_name: String,
    pub art_nft_symbol: String,
    pub artist_nft_address: Option<String>,
    pub artist_nft_name: String,
    pub artist_nft_symbol: String,
    pub artist_nft_total_tokens_minted: u32,
    pub artist_nft_circulating_supply: u32,
}

/// Setup message of a token contract: its name, symbol and the one address
/// allowed to mint.
#[derive(Clone, Debug, PartialEq, Eq)]
pub struct NftInstantiateMsg {
    pub name: String,
    pub symbol: String,
    pub minter: String,
}

/// A mint sent to a token contract (without extension data).
#[derive(Clone, Debug, PartialEq, Eq)]
pub struct NftMint {
    pub token_id: String,
    pub owner: String,
    pub token_uri: Option<String>,
}

} // verus!
