use eil::config::{CrossChainConfig, FeeConfig, Fraction};
use eil::contract_types::{Asset, SdkVoucherRequest};
use eil::multichain::MultichainToken;
use eil::network::NetworkEnvironment;
use eil::test_utils::{create_test_config, create_test_token, MockAccount};
use eil::translation::{fee_rule, sdk_to_voucher_request, tokens_to_assets};
use eil::types::{Amount, RuntimeVar, TokenAmount};
use eil::utils::{fee_percent_to_numerator, now_seconds};
use eil::{Address, EilError, U256};

fn request(source: u64, destination: u64, token: MultichainToken) -> SdkVoucherRequest {
    SdkVoucherRequest {
        ref_id: "v1".to_string(),
        source_chain_id: Some(source),
        destination_chain_id: destination,
        tokens: vec![TokenAmount {
            token,
            amount: Amount::Fixed(U256::from(100)),
            min_provider_deposit: None,
        }],
        target: None,
    }
}

fn env(chains: Vec<u64>) -> NetworkEnvironment {
    NetworkEnvironment::new(&create_test_config(chains))
}

fn invalid_address(result: eil::Result<eil::contract_types::VoucherRequest>) -> (u64, String) {
    match result {
        Err(EilError::InvalidAddress { chain_id, address }) => (chain_id, address),
        _ => panic!("Expected InvalidAddress error"),
    }
}

#[test]
fn test_fee_numerator_is_the_floor_of_fraction_times_ten_thousand() {
    assert_eq!(fee_percent_to_numerator(Fraction::from_micros(1_000)), U256::from(10));
    assert_eq!(fee_percent_to_numerator(Fraction::from_micros(50_000)), U256::from(500));
    assert_eq!(fee_percent_to_numerator(Fraction::from_micros(100)), U256::from(1));
    assert_eq!(fee_percent_to_numerator(Fraction::from_micros(0)), U256::from(0));
    assert_eq!(fee_percent_to_numerator(Fraction::from_micros(1_000_000)), U256::from(10_000));
    // 0.000199 times 10,000 is 1.99, 0.000099 times 10,000 is 0.99
    assert_eq!(fee_percent_to_numerator(Fraction::from_micros(199)), U256::from(1));
    assert_eq!(fee_percent_to_numerator(Fraction::from_micros(99)), U256::from(0));
    assert_eq!(fee_percent_to_numerator(Fraction::from_micros(123_456)), U256::from(1_234));
    assert_eq!(
        fee_percent_to_numerator(Fraction::from_micros(u64::MAX)),
        U256::from(184_467_440_737_095_516)
    );
}

#[test]
fn test_fee_rule_of_a_fee_config() {
    let rule = fee_rule(&FeeConfig {
        start_fee_percent: Fraction::from_micros(2_000),
        max_fee_percent: Fraction::from_micros(100_000),
        fee_increase_per_second: Fraction::from_micros(250),
        unspent_voucher_fee_percent: Fraction::from_micros(3_333),
    });
    assert_eq!(rule.start_fee_percent_numerator, U256::from(20));
    assert_eq!(rule.max_fee_percent_numerator, U256::from(1_000));
    assert_eq!(rule.fee_increase_per_second, U256::from(2));
    assert_eq!(rule.unspent_voucher_fee, U256::from(33));
}

#[test]
fn test_now_seconds_is_a_recent_unix_time() {
    let now = now_seconds();
    assert!(now > 1_600_000_000);
    assert!(now_seconds() >= now);
}

#[test]
fn test_assets_resolve_addresses_and_amounts() {
    let token = create_test_token("T", vec![1, 10]);
    let var = RuntimeVar::new("x").unwrap();
    let tokens = vec![
        TokenAmount { token: token.clone(), amount: Amount::Fixed(U256::from(5)), min_provider_deposit: None },
        TokenAmount {
            token: token.clone(),
            amount: Amount::Runtime(var.clone()),
            min_provider_deposit: Some(U256::from(30)),
        },
        TokenAmount { token: token.clone(), amount: Amount::Runtime(var), min_provider_deposit: None },
    ];
    assert_eq!(
        tokens_to_assets(&tokens, 10).unwrap(),
        vec![
            Asset { erc20_token: Address::from_u128(2), amount: U256::from(5) },
            Asset { erc20_token: Address::from_u128(2), amount: U256::from(30) },
            Asset { erc20_token: Address::from_u128(2), amount: U256::from(1) },
        ]
    );
    assert!(matches!(
        tokens_to_assets(&tokens, 7),
        Err(EilError::InvalidAddress { chain_id: 7, .. })
    ));
}

#[test]
fn test_translation_with_a_target_and_an_expiry() {
    let account = MockAccount::with_chains(vec![1]);
    let config = CrossChainConfig::new(create_test_config(vec![1, 10]).chain_infos)
        .with_expire_time(u64::MAX);
    let network_env = NetworkEnvironment::new(&config);
    let mut r = request(1, 10, create_test_token("T", vec![1, 10]));
    r.target = Some(Address::from_u128(0x7a));
    let allowed = vec![Address::from_u128(3)];
    let translated = sdk_to_voucher_request(&r, &account, &network_env, allowed, u64::MAX).unwrap();
    // the account has no address on chain 10, but the request names its target
    assert_eq!(translated.destination.sender, Address::from_u128(0x7a));
    assert_eq!(translated.origination.allowed_xlps, vec![Address::from_u128(3)]);
    // the expiry does not wrap: 2 * (2^64 - 1)
    assert_eq!(translated.destination.expires_at, U256 { hi: 0, lo: 2 * (u64::MAX as u128) });
}

#[test]
fn test_translation_failures() {
    let account = MockAccount::with_chains(vec![1]);
    let token = create_test_token("T", vec![1, 10]);

    let same_chain = sdk_to_voucher_request(&request(1, 1, token.clone()), &account, &env(vec![1, 10]), vec![], 0);
    assert!(matches!(same_chain, Err(EilError::SameChainVoucher(1))));

    let no_source_account =
        sdk_to_voucher_request(&request(10, 1, token.clone()), &account, &env(vec![1, 10]), vec![], 0);
    assert_eq!(invalid_address(no_source_account), (10, "Account not deployed".to_string()));

    let no_dest_account =
        sdk_to_voucher_request(&request(1, 10, token.clone()), &account, &env(vec![1, 10]), vec![], 0);
    assert_eq!(invalid_address(no_dest_account), (10, "Account not deployed".to_string()));

    let both = MockAccount::with_chains(vec![1, 10]);
    let no_source_paymaster =
        sdk_to_voucher_request(&request(1, 10, token.clone()), &both, &env(vec![10]), vec![], 0);
    assert_eq!(invalid_address(no_source_paymaster), (1, "Paymaster not configured".to_string()));

    let no_dest_paymaster =
        sdk_to_voucher_request(&request(1, 10, token.clone()), &both, &env(vec![1]), vec![], 0);
    assert_eq!(invalid_address(no_dest_paymaster), (10, "Paymaster not configured".to_string()));

    let source_only = create_test_token("ONE", vec![1]);
    let no_dest_token =
        sdk_to_voucher_request(&request(1, 10, source_only), &both, &env(vec![1, 10]), vec![], 0);
    assert_eq!(invalid_address(no_dest_token), (10, "Token ONE not deployed".to_string()));

    let dest_only = create_test_token("TEN", vec![10]);
    let no_source_token =
        sdk_to_voucher_request(&request(1, 10, dest_only), &both, &env(vec![1, 10]), vec![], 0);
    assert_eq!(invalid_address(no_source_token), (1, "Token TEN not deployed".to_string()));
}
