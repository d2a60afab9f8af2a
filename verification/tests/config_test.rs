use eil::config::{
    ChainInfo, CrossChainConfig, FeeConfig, Fraction, PaymasterData, SourcePaymaster, XlpFilter,
    XlpSelectionConfig,
};
use eil::contract_types::{UserOperation, XlpEntry};
use eil::planning::create_user_op;
use eil::xlp::SolventXlpInfo;
use eil::{Address, U256};
use std::sync::Arc;

fn create_test_chain_info(chain_id: u64) -> ChainInfo {
    ChainInfo {
        chain_id,
        rpc_url: format!("https://rpc-{}.example.com", chain_id),
        entry_point: "0x0000000071727De22E5E9d8BAf0edAc6f37da032".parse().unwrap(),
        paymaster: "0x0000000000000000000000000000000000000001".parse().unwrap(),
        bundler_url: None,
    }
}

fn as_f64(fraction: Fraction) -> f64 {
    fraction.micros as f64 / 1_000_000.0
}

#[test]
fn test_xlp_selection_config_defaults() {
    let config = XlpSelectionConfig::default();
    assert_eq!(as_f64(config.deposit_reserve_factor), 1.0);
    assert_eq!(config.include_balance, false);
    assert_eq!(config.min_xlps, 1);
    assert_eq!(config.max_xlps, 5);
}

#[test]
fn test_fee_config_defaults() {
    let config = FeeConfig::default();
    assert_eq!(as_f64(config.start_fee_percent), 0.001);
    assert_eq!(as_f64(config.max_fee_percent), 0.05);
    assert_eq!(as_f64(config.fee_increase_per_second), 0.0001);
    assert_eq!(as_f64(config.unspent_voucher_fee_percent), 0.001);
}

#[test]
fn test_cross_chain_config_defaults() {
    let config = CrossChainConfig::default();
    assert_eq!(config.expire_time_seconds, 60);
    assert_eq!(config.exec_timeout_seconds, 30);
    assert_eq!(config.chain_infos.len(), 0);
}

#[test]
fn test_cross_chain_config_builder() {
    let config = CrossChainConfig::new(vec![create_test_chain_info(1)])
        .with_expire_time(120)
        .with_exec_timeout(60);

    assert_eq!(config.expire_time_seconds, 120);
    assert_eq!(config.exec_timeout_seconds, 60);
    assert_eq!(config.chain_infos.len(), 1);
}

#[test]
fn test_cross_chain_config_add_chain() {
    let config = CrossChainConfig::default()
        .add_chain(create_test_chain_info(1))
        .add_chain(create_test_chain_info(2));

    assert_eq!(config.chain_infos.len(), 2);
}

#[test]
fn test_cross_chain_config_chain_info() {
    let chain1 = create_test_chain_info(1);
    let chain2 = create_test_chain_info(2);

    let config = CrossChainConfig::default().add_chain(chain1).add_chain(chain2);

    assert!(config.chain_info(1).is_some());
    assert!(config.chain_info(2).is_some());
    assert!(config.chain_info(3).is_none());
}

#[test]
fn test_cross_chain_config_with_xlp_config() {
    let xlp_config = XlpSelectionConfig {
        deposit_reserve_factor: Fraction::from_micros(1_500_000),
        include_balance: true,
        min_xlps: 2,
        max_xlps: 10,
        custom_xlp_filter: None,
    };

    let config = CrossChainConfig::default().with_xlp_config(xlp_config.clone());

    assert_eq!(as_f64(config.xlp_selection_config.deposit_reserve_factor), 1.5);
    assert_eq!(config.xlp_selection_config.include_balance, true);
    assert_eq!(config.xlp_selection_config.min_xlps, 2);
    assert_eq!(config.xlp_selection_config.max_xlps, 10);
    assert!(config.xlp_selection_config.custom_xlp_filter.is_none());
}

#[test]
fn test_cross_chain_config_with_fee_config() {
    let fee_config = FeeConfig {
        start_fee_percent: Fraction::from_micros(2_000),
        max_fee_percent: Fraction::from_micros(100_000),
        fee_increase_per_second: Fraction::from_micros(200),
        unspent_voucher_fee_percent: Fraction::from_micros(2_000),
    };

    let config = CrossChainConfig::default().with_fee_config(fee_config.clone());

    assert_eq!(as_f64(config.fee_config.start_fee_percent), 0.002);
    assert_eq!(as_f64(config.fee_config.max_fee_percent), 0.1);
}

#[test]
fn test_chain_info_returns_first_entry_of_a_chain() {
    let mut second = create_test_chain_info(1);
    second.rpc_url = "https://other.example.com".to_string();
    let config = CrossChainConfig::default()
        .add_chain(create_test_chain_info(1))
        .add_chain(second);
    assert_eq!(config.chain_info(1).unwrap().rpc_url, "https://rpc-1.example.com");
}

#[test]
fn test_fraction_one_is_a_million_micros() {
    assert_eq!(Fraction::one().micros, 1_000_000);
    assert_eq!(Fraction::from_micros(7).micros, 7);
}

/// A source paymaster that answers with its own address.
struct FixedPaymaster(Address);

impl SourcePaymaster for FixedPaymaster {
    fn get_paymaster_stub_data(&self, user_op: &UserOperation) -> eil::Result<PaymasterData> {
        Ok(PaymasterData {
            paymaster: Some(self.0),
            paymaster_data: Some(user_op.call_data.clone()),
            paymaster_verification_gas_limit: None,
            paymaster_post_op_gas_limit: None,
        })
    }
}

/// A filter that accepts on one chain only.
struct OnChain(u64);

impl XlpFilter for OnChain {
    fn accepts(&self, chain_id: u64, _candidate: &SolventXlpInfo) -> bool {
        chain_id == self.0
    }
}

#[test]
fn test_config_carries_source_paymaster_and_custom_filter() {
    let plain = CrossChainConfig::new(vec![create_test_chain_info(1)]);
    assert!(plain.source_paymaster.is_none());
    assert!(plain.xlp_selection_config.custom_xlp_filter.is_none());
    assert!(XlpSelectionConfig::default().custom_xlp_filter.is_none());

    let policy = XlpSelectionConfig {
        custom_xlp_filter: Some(Arc::new(OnChain(10))),
        ..XlpSelectionConfig::default()
    };
    let config = plain
        .with_exec_timeout(9)
        .with_source_paymaster(Arc::new(FixedPaymaster(Address::from_u128(0xfee))))
        .with_xlp_config(policy)
        .with_expire_time(5);
    assert_eq!(config.exec_timeout_seconds, 9);
    assert_eq!(config.expire_time_seconds, 5);
    assert_eq!(config.chain_infos.len(), 1);

    for held in [config.duplicate(), config.clone(), config] {
        let op = create_user_op(1, Address::from_u128(7), vec![1, 2]);
        let data = held.source_paymaster.as_ref().unwrap().get_paymaster_stub_data(&op).unwrap();
        assert_eq!(data.paymaster, Some(Address::from_u128(0xfee)));
        assert_eq!(data.paymaster_data, Some(vec![1, 2]));
        let candidate = SolventXlpInfo {
            xlp_entry: XlpEntry {
                l1_xlp_address: Address::zero(),
                l2_xlp_address: Address::from_u128(1),
                bond: U256::from(0),
            },
            deposits: vec![],
            balances: vec![],
        };
        let filter = held.xlp_selection_config.custom_xlp_filter.as_ref().unwrap();
        assert!(filter.accepts(10, &candidate));
        assert!(!filter.accepts(1, &candidate));
        assert_eq!(held.exec_timeout_seconds, 9);
    }
}
