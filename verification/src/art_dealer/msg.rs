//! Messages of the art dealer contract.

use vstd::prelude::*;

verus! {

/// Parameters of a new art dealer.
#[derive(Clone, Debug, PartialEq, Eq)]
pub struct InstantiateMsg {
    pub owner: String,
    pub identityservice_contract: String,
    pub art_nft_name: String,
    pub art_nft_symbol: String,
    pub art_nft_code_id: u64,
}

/// One attribute of an artwork's metadata.
#[derive(Clone, Debug, PartialEq, Eq)]
pub struct Trait {
    pub display_type: Option<String>,
    pub trait_type: String,
    pub value: String,
}

/// Metadata of an artwork, stored with its token.
#[derive(Clone, Debug, PartialEq, Eq)]
pub struct Metadata {
    pub image: Option<String>,
    pub image_data: Option<String>,
    pub external_url: Option<String>,
    pub description: Option<String>,
    pub name: Option<String>,
    pub attributes: Option<Vec<Trait>>,
    pub background_color: Option<String>,
    pub animation_url: Option<String>,
    pub youtube_url: Option<String>,
}

/// Requests the art dealer executes.
#[derive(Clone, Debug, PartialEq, Eq)]
pub enum ExecuteMsg {
    MintArt {
        token_id: String,
        /// The owner of the new token.
        owner: String,
        /// Where the token's metadata document lives.
        token_uri: Option<String>,
        metadata: Option<Metadata>,
    },
    ApproveDealer {
        dao: String,
        approved: u64,
        /// Validity of the approval, in seconds.
        duration: u64,
    },
    RevokeDealer { dao: String },
}

/// Queries the art dealer answers.
#[derive(Clone, Debug, PartialEq, Eq)]
pub enum QueryMsg {
    GetConfig {},
}

/// The dealer's configuration as reported by queries.
#[derive(Clone, Debug, PartialEq, Eq)]
pub struct ConfigResponse {
    pub owner: String,
    pub identityservice_contract: String,
    pub art_nft_address: Option<String>,
    pub art_nft_name: String,
    pub art_nft_symbol: String,
}

} // verus!
