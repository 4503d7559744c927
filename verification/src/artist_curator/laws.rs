//! What the curator keeps across requests: each token contract is linked
//! once, and a DAO never mints more artist tokens than it was approved for.

use vstd::prelude::*;
use crate::math::Timestamp;
use crate::identityservice::state::{IdType, Identity};
use crate::artist_curator::contract::{
    linked, mint_artist_refusal, reply_outcome, NftKind, INSTANTIATE_ART_NFT_REPLY_ID,
    INSTANTIATE_ARTIST_NFT_REPLY_ID,
};
use crate::artist_curator::error::ContractError;
use crate::artist_curator::state::{Approval, Config};

verus! {

/// The reply identifier under which the token contract `kind` is set up.
pub open spec fn reply_id_of(kind: NftKind) -> u64 {
    match kind {
        NftKind::Artist => INSTANTIATE_ARTIST_NFT_REPLY_ID,
        NftKind::Art => INSTANTIATE_ART_NFT_REPLY_ID,
    }
}

/// A setup reply links the token contract it names, and once that contract
/// is linked, every further reply for it is refused as already linked.
pub proof fn lemma_token_contract_linked_once(config: Config, kind: NftKind, address: String)
    requires
        reply_outcome(config, reply_id_of(kind)) == Ok::<NftKind, ContractError>(kind),
    ensures
        reply_outcome(linked(config, kind, address), reply_id_of(kind))
            == Err::<NftKind, ContractError>(ContractError::Cw721AlreadyLinked {}),
{
}

/// A mint that the approval allows leaves the approval within its bound:
/// the DAO never mints more than it was approved for.
pub proof fn lemma_mint_stays_within_approval(
    identity: Option<Identity>,
    artist_tokens: Seq<String>,
    approval: Approval,
    now: Timestamp,
)
    requires
        mint_artist_refusal(identity, artist_tokens, Some(approval), now) is None,
    ensures
        approval.minted + 1 <= approval.approved,
        approval.expires.nanos > now.nanos,
{
}

/// An artist token is minted exactly when the sender is a DAO, the user
/// holds no artist token yet, and the DAO has an approval that has not
/// expired (its expiry lies after `now`) and still has room for one more.
pub proof fn lemma_mint_artist_allowed_exactly(
    identity: Option<Identity>,
    artist_tokens: Seq<String>,
    approval: Option<Approval>,
    now: Timestamp,
)
    ensures
        mint_artist_refusal(identity, artist_tokens, approval, now) is None <==> {
            &&& identity matches Some(id) && id.id_type == IdType::Dao
            &&& artist_tokens.len() == 0
            &&& approval matches Some(a) && now.nanos < a.expires.nanos && a.minted < a.approved
        },
{
}

} // verus!
