use jmes::distribution::contract::{claimable_amount, execute_add_grant, execute_claim, instantiate, query_grant};
use jmes::distribution::error::ContractError;
use jmes::distribution::msg::InstantiateMsg;
use jmes::distribution::state::{Config, Grant};
use jmes::math::Timestamp;

fn config() -> Config {
    instantiate(InstantiateMsg { owner: "governance".to_string(), identityservice_contract: "contract2".to_string() })
}

fn grant(approved: u128, remaining: u128) -> Grant {
    Grant {
        grant_id: 1,
        dao: "my_dao".to_string(),
        amount_approved: approved,
        amount_remaining: remaining,
        started: Timestamp::from_seconds(1000),
        expires: Timestamp::from_seconds(2000),
    }
}

#[test]
fn add_grant_only_by_owner() {
    let c = config();
    assert_eq!(
        execute_add_grant(&c, &"user1".to_string(), None, Timestamp::from_seconds(1000), "my_dao".to_string(), 1000, 5),
        Err(ContractError::Unauthorized {})
    );
    let g = execute_add_grant(&c, &"governance".to_string(), Some(4), Timestamp::from_seconds(1000), "my_dao".to_string(), 1000, 1_000_000)
        .unwrap();
    assert_eq!(
        g,
        Grant {
            grant_id: 5,
            dao: "my_dao".to_string(),
            amount_approved: 1_000_000,
            amount_remaining: 1_000_000,
            started: Timestamp::from_seconds(1000),
            expires: Timestamp::from_seconds(2000),
        }
    );
}

#[test]
fn vesting_is_linear_in_per_mille() {
    let g = grant(1_000_000, 1_000_000);
    assert_eq!(claimable_amount(Timestamp::from_seconds(1000), &g), 0);
    assert_eq!(claimable_amount(Timestamp::from_seconds(1250), &g), 250_000);
    // per mille rounding: 333.3 s of 1000 s vests 333 per mille
    assert_eq!(claimable_amount(Timestamp { nanos: 1_333_700_000_000 }, &g), 333_000);
    assert_eq!(claimable_amount(Timestamp::from_seconds(2000), &g), 1_000_000);
    // fully vested after expiry
    assert_eq!(claimable_amount(Timestamp::from_seconds(5000), &g), 1_000_000);
    // what was paid out is deducted
    assert_eq!(claimable_amount(Timestamp::from_seconds(1500), &grant(1_000_000, 800_000)), 300_000);
}

#[test]
fn claim_outcomes() {
    assert_eq!(execute_claim(None, Timestamp::from_seconds(1500)), Err(ContractError::GrantNotFound {}));
    assert_eq!(execute_claim(Some(grant(1_000_000, 0)), Timestamp::from_seconds(1500)), Err(ContractError::AlreadyClaimed {}));
    // 49 per mille of 1_000_000 is below the minimum payout of 50_000
    assert_eq!(execute_claim(Some(grant(1_000_000, 1_000_000)), Timestamp::from_seconds(1049)), Err(ContractError::AmountTooSmall {}));
    let p = execute_claim(Some(grant(1_000_000, 1_000_000)), Timestamp::from_seconds(1500)).unwrap();
    assert_eq!(p.amount, 500_000);
    assert_eq!(p.grant.amount_remaining, 500_000);
    // claiming again right away finds nothing new
    assert_eq!(execute_claim(Some(p.grant.clone()), Timestamp::from_seconds(1500)), Err(ContractError::AmountTooSmall {}));
    let rest = execute_claim(Some(p.grant), Timestamp::from_seconds(3000)).unwrap();
    assert_eq!(rest.amount, 500_000);
    assert_eq!(rest.grant.amount_remaining, 0);
}

#[test]
fn grant_query_reports_claimable() {
    assert_eq!(query_grant(None, Timestamp::from_seconds(1500)), None);
    let r = query_grant(Some(grant(1_000_000, 1_000_000)), Timestamp::from_seconds(1100)).unwrap();
    assert_eq!(r.claimable_amount, 100_000);
    assert_eq!(r.amount_remaining, 1_000_000);
    assert_eq!(r.grant_id, 1);
}
