use jmes::artist_curator::contract::{
    assert_nft_contracts_are_linked, execute_approve_curator, execute_mint_art, execute_mint_artist,
    execute_revoke_curator, instantiate, link_nft, query_config, reply, NftKind, INSTANTIATE_ARTIST_NFT_REPLY_ID,
    INSTANTIATE_ART_NFT_REPLY_ID,
};
use jmes::artist_curator::error::ContractError;
use jmes::artist_curator::msg::{InstantiateMsg, NftInstantiateMsg, NftMint};
use jmes::artist_curator::state::{Approval, Config};
use jmes::identityservice::state::{IdType, Identity};
use jmes::math::Timestamp;
use jmes::shared::{decimal_text, instantiated_address};

const NFT_CONTRACT_ADDR: &str = "nftcontract";
const MOCK_CONTRACT_ADDR: &str = "cosmos2contract";

fn msg() -> InstantiateMsg {
    InstantiateMsg {
        owner: "owner".to_string(),
        identityservice_contract: "identityservice".to_string(),
        artist_nft_name: "Artist Nft".to_string(),
        artist_nft_symbol: "artistnft".to_string(),
        artist_nft_code_id: 10,
        art_nft_name: "Art Nft".to_string(),
        art_nft_symbol: "artnft".to_string(),
        art_nft_code_id: 11,
    }
}

fn reply_data(address: &str) -> Option<Vec<u8>> {
    // field 1: the address; field 2: 32769 bytes of data, whose length takes
    // a three-byte varint (0x81 0x80 0x02)
    let mut data = vec![0x0a, address.len() as u8];
    data.extend_from_slice(address.as_bytes());
    data.extend_from_slice(&[0x12, 0x81, 0x80, 0x02]);
    data.extend_from_slice(&vec![2u8; 32769]);
    Some(data)
}

fn linked_config() -> Config {
    let setup = instantiate(MOCK_CONTRACT_ADDR.to_string(), msg());
    let kind = reply(&setup.config, INSTANTIATE_ARTIST_NFT_REPLY_ID).unwrap();
    let config = link_nft(setup.config, kind, "artistnftcontract".to_string());
    let kind = reply(&config, INSTANTIATE_ART_NFT_REPLY_ID).unwrap();
    link_nft(config, kind, "artnftcontract".to_string())
}

fn dao() -> Option<Identity> {
    Some(Identity { owner: "dao".to_string(), name: "my_dao".to_string(), id_type: IdType::Dao })
}

#[test]
fn initialization() {
    let setup = instantiate(MOCK_CONTRACT_ADDR.to_string(), msg());
    assert_eq!(setup.token_contracts.len(), 1);
    let artist = &setup.token_contracts[0];
    assert_eq!(artist.code_id, 10);
    assert_eq!(artist.label, "Artist NFT");
    assert_eq!(artist.reply_id, INSTANTIATE_ARTIST_NFT_REPLY_ID);
    assert_eq!(
        artist.msg,
        NftInstantiateMsg {
            name: "Artist Nft".to_string(),
            symbol: "artistnft".to_string(),
            minter: MOCK_CONTRACT_ADDR.to_string(),
        }
    );

    // the artist token contract replies with its address
    let kind = reply(&setup.config, INSTANTIATE_ARTIST_NFT_REPLY_ID).unwrap();
    assert_eq!(kind, NftKind::Artist);
    let address = instantiated_address(&reply_data(NFT_CONTRACT_ADDR)).unwrap();
    let config = link_nft(setup.config, kind, address);
    let response = query_config(&config);
    assert_eq!(response.owner, "owner");
    assert_eq!(response.artist_nft_address, Some(NFT_CONTRACT_ADDR.to_string()));
    assert_eq!(response.art_nft_address, None);
    assert_eq!(response.artist_nft_name, "Artist Nft");
    assert_eq!(response.artist_nft_symbol, "artistnft");
    assert_eq!(response.artist_nft_total_tokens_minted, 0);
    assert_eq!(response.artist_nft_circulating_supply, 0);
}

#[test]
fn invalid_reply_id() {
    let setup = instantiate(MOCK_CONTRACT_ADDR.to_string(), msg());
    assert_eq!(reply(&setup.config, 10), Err(ContractError::InvalidTokenReplyId {}));
}

#[test]
fn cw721_already_linked() {
    let config = linked_config();
    assert_eq!(reply(&config, INSTANTIATE_ARTIST_NFT_REPLY_ID), Err(ContractError::Cw721AlreadyLinked {}));
    assert_eq!(reply(&config, INSTANTIATE_ART_NFT_REPLY_ID), Err(ContractError::Cw721AlreadyLinked {}));
    assert_eq!(assert_nft_contracts_are_linked(&config), Ok(()));
    let setup = instantiate(MOCK_CONTRACT_ADDR.to_string(), msg());
    assert_eq!(assert_nft_contracts_are_linked(&setup.config), Err(ContractError::Cw721NotLinked {}));
}

#[test]
fn approve_and_revoke_by_owner_only() {
    let config = linked_config();
    let now = Timestamp::from_seconds(1000);
    assert_eq!(
        execute_approve_curator(&config, &"user1".to_string(), now, 2, 300),
        Err(ContractError::UnauthorizedTokenContract {})
    );
    assert_eq!(
        execute_approve_curator(&config, &"owner".to_string(), now, 2, 300),
        Ok(Approval { approved: 2, minted: 0, burned: 0, expires: Timestamp::from_seconds(1300) })
    );
    assert_eq!(execute_revoke_curator(&config, &"user1".to_string()), Err(ContractError::UnauthorizedTokenContract {}));
    assert_eq!(execute_revoke_curator(&config, &"owner".to_string()), Ok(()));
}

#[test]
fn mint_artist_within_approval() {
    let config = linked_config();
    let approval = Approval { approved: 2, minted: 0, burned: 0, expires: Timestamp::from_seconds(1300) };
    let now = Timestamp::from_seconds(1000);
    let first = execute_mint_artist(config, dao(), &vec![], Some(approval), "artist1".to_string(), now).unwrap();
    assert_eq!(first.config.artist_nft_total_tokens_minted, 1);
    assert_eq!(first.config.artist_nft_circulating_supply, 1);
    assert_eq!(first.approval.minted, 1);
    assert_eq!(first.contract, "artistnftcontract");
    assert_eq!(first.mint, NftMint { token_id: "1".to_string(), owner: "artist1".to_string(), token_uri: None });
    let second = execute_mint_artist(first.config, dao(), &vec![], Some(first.approval), "artist2".to_string(), now).unwrap();
    assert_eq!(second.mint.token_id, "2");
    assert_eq!(second.approval.minted, 2);
    // the approval is used up
    let third = execute_mint_artist(second.config, dao(), &vec![], Some(second.approval), "artist3".to_string(), now);
    assert_eq!(third, Err(ContractError::ApprovedExceeded {}));
}

#[test]
fn mint_artist_refusals() {
    let config = linked_config();
    let approval = Approval { approved: 2, minted: 0, burned: 0, expires: Timestamp::from_seconds(1300) };
    let now = Timestamp::from_seconds(1000);
    let user = Some(Identity { owner: "u".to_string(), name: "u".to_string(), id_type: IdType::User });
    assert_eq!(
        execute_mint_artist(config.clone(), None, &vec![], Some(approval), "a".to_string(), now),
        Err(ContractError::Unauthorized {})
    );
    assert_eq!(
        execute_mint_artist(config.clone(), user, &vec![], Some(approval), "a".to_string(), now),
        Err(ContractError::Unauthorized {})
    );
    assert_eq!(
        execute_mint_artist(config.clone(), dao(), &vec!["7".to_string()], Some(approval), "a".to_string(), now),
        Err(ContractError::UserAlreadyArtist {})
    );
    assert_eq!(
        execute_mint_artist(config.clone(), dao(), &vec![], None, "a".to_string(), now),
        Err(ContractError::Unauthorized {})
    );
    assert_eq!(
        execute_mint_artist(config, dao(), &vec![], Some(approval), "a".to_string(), Timestamp::from_seconds(1300)),
        Err(ContractError::ApprovalExpired {})
    );
}

#[test]
fn mint_art_by_artists_only() {
    let config = linked_config();
    assert_eq!(
        execute_mint_art(&config, &vec![], "art1".to_string(), "buyer".to_string(), None),
        Err(ContractError::Unauthorized {})
    );
    assert_eq!(
        execute_mint_art(&config, &vec!["1".to_string()], "art1".to_string(), "buyer".to_string(), Some("ipfs://x".to_string())),
        Ok((
            "artnftcontract".to_string(),
            NftMint { token_id: "art1".to_string(), owner: "buyer".to_string(), token_uri: Some("ipfs://x".to_string()) }
        ))
    );
}

#[test]
fn token_ids_in_decimal() {
    assert_eq!(decimal_text(0), "0");
    assert_eq!(decimal_text(7), "7");
    assert_eq!(decimal_text(10), "10");
    assert_eq!(decimal_text(1234567), "1234567");
    assert_eq!(decimal_text(u32::MAX), "4294967295");
}
