//! The curator's decisions: setting up its two token contracts, linking
//! them once, approving DAOs as curators, and minting artist and art tokens.

use vstd::prelude::*;
use crate::math::{Timestamp, NANOS_PER_SECOND};
use crate::shared::{decimal, decimal_text, Instantiation};
use crate::identityservice::state::{IdType, Identity};
use crate::artist_curator::error::ContractError;
use crate::artist_curator::msg::{ConfigResponse, InstantiateMsg, NftInstantiateMsg, NftMint};
use crate::artist_curator::state::{Approval, Config};

verus! {

broadcast use vstd::string::group_string_axioms;

/// Reply identifier of the artist token contract's setup.
pub const INSTANTIATE_ARTIST_NFT_REPLY_ID: u64 = 1u64;
/// Reply identifier of the art token contract's setup.
pub const INSTANTIATE_ART_NFT_REPLY_ID: u64 = 2u64;

/// A new curator: its configuration, with no token contract linked yet and
/// the counters at zero, and the token contract setups it sends.
#[derive(Clone, Debug, PartialEq, Eq)]
pub struct CuratorSetup {
    pub config: Config,
    pub token_contracts: Vec<Instantiation<NftInstantiateMsg>>,
}

/// The setup of a token contract named `name` with symbol `symbol`, minted
/// by `minter`.
pub open spec fn token_contract(code_id: u64, label: Seq<char>, name: String, symbol: String, minter: String, reply_id: u64) -> spec_fn(Instantiation<NftInstantiateMsg>) -> bool {
    |inst: Instantiation<NftInstantiateMsg>| inst.code_id == code_id && inst.label@ == label
        && inst.msg == (NftInstantiateMsg { name, symbol, minter }) && inst.reply_id == reply_id
}

/// Sets up the curator at `contract_address` from `msg`, together with a
/// single token contract: the artist token contract, minted by the curator.
/// The art token contract is linked when a setup reply names it.
pub fn instantiate(contract_address: String, msg: InstantiateMsg) -> (r: CuratorSetup)
    ensures
        r.config == (Config {
            owner: msg.owner,
            identityservice_contract: msg.identityservice_contract,
            art_nft_address: None,
            art_nft_name: msg.art_nft_name,
            art_nft_symbol: msg.art_nft_symbol,
            artist_nft_address: None,
            artist_nft_name: msg.artist_nft_name,
            artist_nft_symbol: msg.artist_nft_symbol,
            artist_nft_total_tokens_minted: 0,
            artist_nft_circulating_supply: 0,
        }),
        r.token_contracts@.len() == 1,
        token_contract(msg.artist_nft_code_id, "Artist NFT"@, msg.artist_nft_name, msg.artist_nft_symbol,
            contract_address, INSTANTIATE_ARTIST_NFT_REPLY_ID)(r.token_contracts@[0]),
{
    proof {
        reveal_strlit("Artist NFT");
    }
    let artist = Instantiation {
        code_id: msg.artist_nft_code_id,
        label: "Artist NFT".to_string(),
        msg: NftInstantiateMsg {
            name: msg.artist_nft_name.clone(),
            symbol: msg.artist_nft_symbol.clone(),
            minter: contract_address,
        },
        reply_id: INSTANTIATE_ARTIST_NFT_REPLY_ID,
    };
    let config = Config {
        owner: msg.owner,
        identityservice_contract: msg.identityservice_contract,
        art_nft_address: None,
        art_nft_name: msg.art_nft_name,
        art_nft_symbol: msg.art_nft_symbol,
        artist_nft_address: None,
        artist_nft_name: msg.artist_nft_name,
        artist_nft_symbol: msg.artist_nft_symbol,
        artist_nft_total_tokens_minted: 0,
        artist_nft_circulating_supply: 0,
    };
    let mut token_contracts: Vec<Instantiation<NftInstantiateMsg>> = Vec::new();
    token_contracts.push(artist);
    CuratorSetup { config, token_contracts }
}

/// The two token contracts the curator drives.
#[derive(Clone, Copy, Debug, PartialEq, Eq, Structural)]
pub enum NftKind {
    Artist,
    Art,
}

/// Which token contract a setup reply `id` links, refused when that one is
/// linked already or the id is unknown.
pub open spec fn reply_outcome(config: Config, id: u64) -> Result<NftKind, ContractError> {
    if id == INSTANTIATE_ARTIST_NFT_REPLY_ID {
        if config.artist_nft_address is Some { Err(ContractError::Cw721AlreadyLinked {}) } else { Ok(NftKind::Artist) }
    } else if id == INSTANTIATE_ART_NFT_REPLY_ID {
        if config.art_nft_address is Some { Err(ContractError::Cw721AlreadyLinked {}) } else { Ok(NftKind::Art) }
    } else {
        Err(ContractError::InvalidTokenReplyId {})
    }
}

/// Decides which token contract the setup reply `id` links.
pub fn reply(config: &Config, id: u64) -> (r: Result<NftKind, ContractError>)
    ensures
        r == reply_outcome(*config, id),
{
    if id == INSTANTIATE_ARTIST_NFT_REPLY_ID {
        if config.artist_nft_address.is_some() {
            return Err(ContractError::Cw721AlreadyLinked {});
        }
        Ok(NftKind::Artist)
    } else if id == INSTANTIATE_ART_NFT_REPLY_ID {
        if config.art_nft_address.is_some() {
            return Err(ContractError::Cw721AlreadyLinked {});
        }
        Ok(NftKind::Art)
    } else {
        Err(ContractError::InvalidTokenReplyId {})
    }
}

/// The configuration with the token contract `kind` at `address`.
pub open spec fn linked(config: Config, kind: NftKind, address: String) -> Config {
    match kind {
        NftKind::Artist => Config { artist_nft_address: Some(address), ..config },
        NftKind::Art => Config { art_nft_address: Some(address), ..config },
    }
}

/// Links the token contract `kind`, set up at `address`.
pub fn link_nft(config: Config, kind: NftKind, address: String) -> (r: Config)
    ensures
        r == linked(config, kind, address),
{
    let mut config = config;
    match kind {
        NftKind::Artist => {
            config.artist_nft_address = Some(address);
        },
        NftKind::Art => {
            config.art_nft_address = Some(address);
        },
    }
    config
}

/// The configuration as reported by queries.
pub fn query_config(config: &Config) -> (r: ConfigResponse)
    ensures
        r == (ConfigResponse {
            owner: config.owner,
            identityservice_contract: config.identityservice_contract,
            art_nft_address: config.art_nft_address,
            art_nft_name: config.art_nft_name,
            art_nft_symbol: config.art_nft_symbol,
            artist_nft_address: config.artist_nft_address,
            artist_nft_name: config.artist_nft_name,
            artist_nft_symbol: config.artist_nft_symbol,
            artist_nft_total_tokens_minted: config.artist_nft_total_tokens_minted,
            artist_nft_circulating_supply: config.artist_nft_circulating_supply,
        }),
{
    ConfigResponse {
        owner: config.owner.clone(),
        identityservice_contract: config.identityservice_contract.clone(),
        art_nft_address: config.art_nft_address.clone(),
        art_nft_name: config.art_nft_name.clone(),
        art_nft_symbol: config.art_nft_symbol.clone(),
        artist_nft_address: config.artist_nft_address.clone(),
        artist_nft_name: config.artist_nft_name.clone(),
        artist_nft_symbol: config.artist_nft_symbol.clone(),
        artist_nft_total_tokens_minted: config.artist_nft_total_tokens_minted,
        artist_nft_circulating_supply: config.artist_nft_circulating_supply,
    }
}

/// Approves a DAO, by the owner `sender`, to mint `approved` artist tokens
/// during the next `duration` seconds from `now`.
pub fn execute_approve_curator(config: &Config, sender: &String, now: Timestamp, approved: u64, duration: u64)
    -> (r: Result<Approval, ContractError>)
    requires
        config.owner@ == sender@ ==> now.nanos + duration * NANOS_PER_SECOND <= u64::MAX,
    ensures
        config.owner@ != sender@ ==> r == Err::<Approval, ContractError>(ContractError::UnauthorizedTokenContract {}),
        config.owner@ == sender@ ==> r == Ok::<Approval, ContractError>(Approval {
            approved,
            minted: 0,
            burned: 0,
            expires: Timestamp { nanos: (now.nanos + duration * NANOS_PER_SECOND) as u64 },
        }),
{
    if config.owner != *sender {
        return Err(ContractError::UnauthorizedTokenContract {});
    }
    let expires = now.plus_seconds(duration);
    Ok(Approval { approved, minted: 0, burned: 0, expires })
}

/// Revokes a DAO's approval; only the owner may.
pub fn execute_revoke_curator(config: &Config, sender: &String) -> (r: Result<(), ContractError>)
    ensures
        config.owner@ != sender@ ==> r == Err::<(), ContractError>(ContractError::UnauthorizedTokenContract {}),
        config.owner@ == sender@ ==> r == Ok::<(), ContractError>(()),
{
    if config.owner != *sender {
        return Err(ContractError::UnauthorizedTokenContract {});
    }
    Ok(())
}

/// Whether both token contracts are linked.
pub open spec fn nft_contracts_linked(config: Config) -> bool {
    config.art_nft_address is Some && config.artist_nft_address is Some
}

/// Checks that both token contracts are linked.
pub fn assert_nft_contracts_are_linked(config: &Config) -> (r: Result<(), ContractError>)
    ensures
        nft_contracts_linked(*config) ==> r == Ok::<(), ContractError>(()),
        !nft_contracts_linked(*config) ==> r == Err::<(), ContractError>(ContractError::Cw721NotLinked {}),
{
    if config.art_nft_address.is_none() {
        return Err(ContractError::Cw721NotLinked {});
    }
    if config.artist_nft_address.is_none() {
        return Err(ContractError::Cw721NotLinked {});
    }
    Ok(())
}

/// Whether a user holding the artist tokens `tokens` (as listed by the
/// artist token contract) is an artist: whether it holds any.
pub fn is_user_artist(tokens: &Vec<String>) -> (b: bool)
    ensures
        b == (tokens@.len() > 0),
{
    tokens.len() > 0
}

/// Requires the user holding `tokens` to be an artist.
pub fn assert_user_is_artist(tokens: &Vec<String>) -> (r: Result<(), ContractError>)
    ensures
        tokens@.len() > 0 ==> r == Ok::<(), ContractError>(()),
        tokens@.len() == 0 ==> r == Err::<(), ContractError>(ContractError::Unauthorized {}),
{
    if is_user_artist(tokens) {
        Ok(())
    } else {
        Err(ContractError::Unauthorized {})
    }
}

/// Requires the user holding `tokens` not to be an artist yet.
pub fn assert_user_not_already_artist(tokens: &Vec<String>) -> (r: Result<(), ContractError>)
    ensures
        tokens@.len() > 0 ==> r == Err::<(), ContractError>(ContractError::UserAlreadyArtist {}),
        tokens@.len() == 0 ==> r == Ok::<(), ContractError>(()),
{
    if is_user_artist(tokens) {
        Err(ContractError::UserAlreadyArtist {})
    } else {
        Ok(())
    }
}

/// Mints art token `token_id` for `owner`, on behalf of an artist holding
/// the artist tokens `sender_tokens`: the mint goes to the art token contract.
pub fn execute_mint_art(
    config: &Config,
    sender_tokens: &Vec<String>,
    token_id: String,
    owner: String,
    token_uri: Option<String>,
) -> (r: Result<(String, NftMint), ContractError>)
    requires
        nft_contracts_linked(*config),
    ensures
        sender_tokens@.len() == 0 ==> r == Err::<(String, NftMint), ContractError>(ContractError::Unauthorized {}),
        sender_tokens@.len() > 0 ==> r == Ok::<(String, NftMint), ContractError>(
            (config.art_nft_address->0, NftMint { token_id, owner, token_uri })),
{
    let art_nft_address = match &config.art_nft_address {
        Some(a) => a.clone(),
        None => {
            return Err(ContractError::Cw721NotLinked {});
        },
    };
    assert_user_is_artist(sender_tokens)?;
    Ok((art_nft_address, NftMint { token_id, owner, token_uri }))
}

/// Why a DAO with identity `identity` may not mint an artist token for a
/// user holding `artist_tokens`, given its approval `approval` at `now`.
pub open spec fn mint_artist_refusal(
    identity: Option<Identity>,
    artist_tokens: Seq<String>,
    approval: Option<Approval>,
    now: Timestamp,
) -> Option<ContractError> {
    match identity {
        None => Some(ContractError::Unauthorized {}),
        Some(id) => if id.id_type != IdType::Dao {
            Some(ContractError::Unauthorized {})
        } else if artist_tokens.len() > 0 {
            Some(ContractError::UserAlreadyArtist {})
        } else {
            match approval {
                None => Some(ContractError::Unauthorized {}),
                Some(a) => if a.expires.nanos <= now.nanos {
                    Some(ContractError::ApprovalExpired {})
                } else if a.minted + 1 > a.approved {
                    Some(ContractError::ApprovedExceeded {})
                } else {
                    None
                },
            }
        },
    }
}

/// Whether a mint request gets as far as counting the DAO's minted tokens:
/// the sender is a DAO, the user is no artist yet, and an unexpired approval
/// exists.
pub open spec fn mint_artist_counts(
    identity: Option<Identity>,
    artist_tokens: Seq<String>,
    approval: Option<Approval>,
    now: Timestamp,
) -> bool {
    &&& identity matches Some(id) && id.id_type == IdType::Dao
    &&& artist_tokens.len() == 0
    &&& approval matches Some(a) && a.expires.nanos > now.nanos
}

/// An artist token minted by a DAO: the configuration with both counters up
/// by one, the DAO's approval with one more minted, the artist token
/// contract, and the mint, whose token id is the new total in decimal.
#[derive(Clone, Debug, PartialEq, Eq)]
pub struct ArtistMint {
    pub config: Config,
    pub approval: Approval,
    pub contract: String,
    pub mint: NftMint,
}

/// Mints an artist token for `artist`, on behalf of a DAO with identity
/// `identity` and approval `approval`, at `now`; `artist_tokens` are the
/// artist tokens `artist` holds already.
pub fn execute_mint_artist(
    config: Config,
    identity: Option<Identity>,
    artist_tokens: &Vec<String>,
    approval: Option<Approval>,
    artist: String,
    now: Timestamp,
) -> (r: Result<ArtistMint, ContractError>)
    requires
        nft_contracts_linked(config),
        mint_artist_counts(identity, artist_tokens@, approval, now) ==> approval->0.minted < u64::MAX,
        mint_artist_refusal(identity, artist_tokens@, approval, now) is None ==> {
            &&& config.artist_nft_total_tokens_minted < u32::MAX
            &&& config.artist_nft_circulating_supply < u32::MAX
        },
    ensures
        match mint_artist_refusal(identity, artist_tokens@, approval, now) {
            Some(e) => r == Err::<ArtistMint, ContractError>(e),
            None => r matches Ok(m) && {
                let total = (config.artist_nft_total_tokens_minted + 1) as u32;
                &&& m.config == (Config {
                    artist_nft_total_tokens_minted: total,
                    artist_nft_circulating_supply: (config.artist_nft_circulating_supply + 1) as u32,
                    ..config
                })
                &&& m.approval == (Approval { minted: (approval->0.minted + 1) as u64, ..approval->0 })
                &&& m.approval.minted <= m.approval.approved
                &&& m.contract == config.artist_nft_address->0
                &&& m.mint.token_id@ == decimal(total as nat)
                &&& m.mint.owner == artist
                &&& m.mint.token_uri is None
            },
        },
{
    let contract = match &config.artist_nft_address {
        Some(a) => a.clone(),
        None => {
            return Err(ContractError::Cw721NotLinked {});
        },
    };
    match &identity {
        None => {
            return Err(ContractError::Unauthorized {});
        },
        Some(id) => {
            if id.id_type != IdType::Dao {
                return Err(ContractError::Unauthorized {});
            }
        },
    }
    assert_user_not_already_artist(artist_tokens)?;
    let mut approval: Approval = match approval {
        Some(a) => a,
        None => {
            return Err(ContractError::Unauthorized {});
        },
    };
    if approval.expires.nanos <= now.nanos {
        return Err(ContractError::ApprovalExpired {});
    }
    if approval.minted + 1 > approval.approved {
        return Err(ContractError::ApprovedExceeded {});
    }
    approval.minted = approval.minted + 1;
    let mut config = config;
    config.artist_nft_total_tokens_minted = config.artist_nft_total_tokens_minted + 1;
    config.artist_nft_circulating_supply = config.artist_nft_circulating_supply + 1;
    let token_id = decimal_text(config.artist_nft_total_tokens_minted);
    Ok(ArtistMint {
        config,
        approval,
        contract,
        mint: NftMint { token_id, owner: artist, token_uri: None },
    })
}

} // verus!
