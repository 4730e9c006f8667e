use distributor::amounts::{compute_fee, compute_forward, compute_half, token_amount_priced};
use distributor::handler::{attached_amount, execute, instantiate};
use distributor::msgs::{
    Coin, Config, DistributionError, Effect, ExecuteMsg, InstantiateMsg, PricingMode,
};
use distributor::price_store::PriceStore;

fn test_config(mode: PricingMode) -> Config {
    Config {
        denom: "uluna".to_string(),
        lp_provider_address: "lp_provider".to_string(),
        burn_address: "burn_sink".to_string(),
        token_contract_address: "token_module".to_string(),
        mode,
    }
}

fn uluna(amount: u128) -> Coin {
    Coin { denom: "uluna".to_string(), amount }
}

#[test]
fn fee_and_forward_partition_the_deposit() {
    for a in [1u128, 2, 99, 100, 101, 199, 200, 12_345, 1_000_000, u128::MAX / 2] {
        let fee = compute_fee(a);
        let forward = compute_forward(a);
        assert_eq!(fee + forward, a);
        assert_eq!(fee, a / 100);
        assert!(forward > 0);
    }
}

#[test]
fn split_halves_bound_the_forwarded_amount() {
    for a in [1u128, 2, 3, 100, 101, 199, 200, 999_999, 1_000_000] {
        let forward = compute_forward(a);
        let half = compute_half(forward);
        assert!(half + half <= forward);
        assert!(forward <= half * 2 + 1);
    }
}

#[test]
fn fixed_rate_token_equals_forward() {
    let config = test_config(PricingMode::Fixed);
    for a in [1u128, 77, 12_345, 1_000_000, u128::MAX / 2] {
        let mut store = PriceStore::new();
        let resp = execute(
            &config,
            &mut store,
            &"depositor".to_string(),
            &vec![uluna(a)],
            ExecuteMsg::Burn {},
        )
        .unwrap();
        let forward = compute_forward(a);
        assert_eq!(
            resp.effects[2],
            Effect::TokenTransferRequest { recipient: "depositor".to_string(), amount: forward }
        );
    }
}

#[test]
fn empty_deposit_is_rejected_with_zero_effects() {
    let config = test_config(PricingMode::Fixed);
    let mut store = PriceStore::new();
    let sender = "depositor".to_string();

    let no_funds = execute(&config, &mut store, &sender, &vec![], ExecuteMsg::Burn {});
    assert_eq!(no_funds.unwrap_err(), DistributionError::EmptyDeposit);

    let other_denom = vec![Coin { denom: "uusd".to_string(), amount: 500 }];
    let wrong = execute(&config, &mut store, &sender, &other_denom, ExecuteMsg::Burn {});
    assert_eq!(wrong.unwrap_err(), DistributionError::EmptyDeposit);

    let zero = execute(&config, &mut store, &sender, &vec![uluna(0)], ExecuteMsg::Burn {});
    assert_eq!(zero.unwrap_err(), DistributionError::EmptyDeposit);
}

#[test]
fn scenario_fixed_rate_full_distribution() {
    let config = test_config(PricingMode::Fixed);
    let mut store = PriceStore::new();
    let resp = execute(
        &config,
        &mut store,
        &"depositor".to_string(),
        &vec![uluna(1_000_000)],
        ExecuteMsg::Burn {},
    )
    .unwrap();
    assert_eq!(compute_fee(1_000_000), 10_000);
    assert_eq!(compute_forward(1_000_000), 990_000);
    assert_eq!(resp.method, "execute");
    assert_eq!(resp.effects.len(), 3);
    assert_eq!(
        resp.effects[0],
        Effect::NativeTransfer { to: "lp_provider".to_string(), amount: 495_000 }
    );
    assert_eq!(
        resp.effects[1],
        Effect::NativeTransfer { to: "burn_sink".to_string(), amount: 495_000 }
    );
    assert_eq!(
        resp.effects[2],
        Effect::TokenTransferRequest { recipient: "depositor".to_string(), amount: 990_000 }
    );
}

#[test]
fn scenario_priced_uses_full_deposit_for_tokens() {
    let config = test_config(PricingMode::Priced);
    let mut store = PriceStore::new();
    let admin = "lp_provider".to_string();
    let set = execute(
        &config,
        &mut store,
        &admin,
        &vec![],
        ExecuteMsg::SetPrice { price_in_usd: 2_000_000 },
    )
    .unwrap();
    assert_eq!(set.method, "set_uluna_price");
    assert_eq!(set.effects.len(), 0);

    let resp = execute(
        &config,
        &mut store,
        &"depositor".to_string(),
        &vec![uluna(1_000_000)],
        ExecuteMsg::Burn {},
    )
    .unwrap();
    assert_eq!(resp.method, "execute");
    assert_eq!(
        resp.effects[0],
        Effect::NativeTransfer { to: "lp_provider".to_string(), amount: 495_000 }
    );
    assert_eq!(
        resp.effects[1],
        Effect::NativeTransfer { to: "burn_sink".to_string(), amount: 495_000 }
    );
    // the token amount comes from the full deposit, not the forwarded
    // 990_000: floor(1_000_000 * 2_000_000 / 1_000_000) = 2_000_000
    assert_eq!(
        resp.effects[2],
        Effect::TokenTransferRequest { recipient: "depositor".to_string(), amount: 2_000_000 }
    );
}

#[test]
fn scenario_priced_without_price_fails_closed() {
    let config = test_config(PricingMode::Priced);
    let mut store = PriceStore::new();
    let r = execute(
        &config,
        &mut store,
        &"depositor".to_string(),
        &vec![uluna(500_000)],
        ExecuteMsg::Burn {},
    );
    assert_eq!(r.unwrap_err(), DistributionError::PriceNotSet);
    assert!(store.price.is_none());
}

#[test]
fn instantiate_reports_its_method() {
    let resp = instantiate(InstantiateMsg {});
    assert_eq!(resp.method, "instantiate");
    assert_eq!(resp.effects.len(), 0);
}

#[test]
fn first_matching_denomination_wins() {
    let funds = vec![
        Coin { denom: "uusd".to_string(), amount: 7 },
        uluna(200),
        uluna(300),
    ];
    assert_eq!(attached_amount(&funds, &"uluna".to_string()), 200);

    let config = test_config(PricingMode::Fixed);
    let mut store = PriceStore::new();
    let resp = execute(&config, &mut store, &"depositor".to_string(), &funds, ExecuteMsg::Burn {})
        .unwrap();
    // fee = 2, forward = 198, half = 99
    assert_eq!(
        resp.effects[0],
        Effect::NativeTransfer { to: "lp_provider".to_string(), amount: 99 }
    );
    assert_eq!(
        resp.effects[2],
        Effect::TokenTransferRequest { recipient: "depositor".to_string(), amount: 198 }
    );
}

#[test]
fn odd_forward_drops_the_remainder_unit() {
    let config = test_config(PricingMode::Fixed);
    let mut store = PriceStore::new();
    // deposit 100: fee = 1, forward = 99, each half = 49, one unit dropped
    let resp = execute(
        &config,
        &mut store,
        &"depositor".to_string(),
        &vec![uluna(100)],
        ExecuteMsg::Burn {},
    )
    .unwrap();
    assert_eq!(
        resp.effects[0],
        Effect::NativeTransfer { to: "lp_provider".to_string(), amount: 49 }
    );
    assert_eq!(
        resp.effects[1],
        Effect::NativeTransfer { to: "burn_sink".to_string(), amount: 49 }
    );
    assert_eq!(
        resp.effects[2],
        Effect::TokenTransferRequest { recipient: "depositor".to_string(), amount: 99 }
    );
}

#[test]
fn minimal_deposit_distributes_nothing_but_tokens() {
    let config = test_config(PricingMode::Fixed);
    let mut store = PriceStore::new();
    // deposit 1: fee = 0, forward = 1, halves = 0, token = 1
    let resp = execute(
        &config,
        &mut store,
        &"depositor".to_string(),
        &vec![uluna(1)],
        ExecuteMsg::Burn {},
    )
    .unwrap();
    assert_eq!(
        resp.effects[0],
        Effect::NativeTransfer { to: "lp_provider".to_string(), amount: 0 }
    );
    assert_eq!(
        resp.effects[2],
        Effect::TokenTransferRequest { recipient: "depositor".to_string(), amount: 1 }
    );
}

#[test]
fn priced_conversion_rounds_down() {
    assert_eq!(token_amount_priced(1_000_001, 1_500_000), 1_500_001);
    assert_eq!(token_amount_priced(1, 999_999), 0);
    assert_eq!(token_amount_priced(3, 500_000), 1);
}
