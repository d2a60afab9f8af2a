use eil::actions::{TransferAction, VoucherRequestAction};
use eil::builder::{BatchBuilder, CrossChainBuilder, ReadyToBuild};
use eil::contract_types::{Asset, SdkVoucherRequest, XlpEntry};
use eil::executor::{CallbackType, Submission, Tick};
use eil::test_utils::{create_test_config, create_test_token, MockAccount};
use eil::types::{Amount, TokenAmount};
use eil::config::{XlpFilter, XlpSelectionConfig};
use eil::xlp::SolventXlpInfo;
use eil::{Address, EilError, EilSdk, OperationStatus, U256};
use std::sync::Arc;

type Builder = CrossChainBuilder<ReadyToBuild, Arc<MockAccount>>;

/// A filter that accepts the providers whose address leaves this remainder when halved.
struct Parity(u128);

impl XlpFilter for Parity {
    fn accepts(&self, _chain_id: u64, candidate: &SolventXlpInfo) -> bool {
        candidate.xlp_entry.l2_xlp_address.lo % 2 == self.0
    }
}

/// A filter that accepts every provider for vouchers to one chain, and none for others.
struct OnChain(u64);

impl XlpFilter for OnChain {
    fn accepts(&self, chain_id: u64, _candidate: &SolventXlpInfo) -> bool {
        chain_id == self.0
    }
}

fn ready_builder(chains: Vec<u64>) -> Builder {
    let sdk = EilSdk::new(create_test_config(chains));
    sdk.create_builder().use_account(Arc::new(MockAccount::new())).unwrap()
}

fn voucher(ref_id: &str, destination: u64, amount: u64) -> SdkVoucherRequest {
    SdkVoucherRequest {
        ref_id: ref_id.to_string(),
        source_chain_id: None,
        destination_chain_id: destination,
        tokens: vec![TokenAmount {
            token: create_test_token("T", vec![1, 10]),
            amount: Amount::Fixed(U256::from(amount)),
            min_provider_deposit: None,
        }],
        target: None,
    }
}

fn provider(address: u128, deposit: u64) -> SolventXlpInfo {
    SolventXlpInfo {
        xlp_entry: XlpEntry {
            l1_xlp_address: Address::from_u128(1000 + address),
            l2_xlp_address: Address::from_u128(address),
            bond: U256::from(1),
        },
        deposits: vec![U256::from(deposit)],
        balances: vec![U256::from(deposit)],
    }
}

fn transfer(amount: u64) -> TransferAction {
    TransferAction {
        token: create_test_token("USDC", vec![1, 10]),
        recipient: "0x3333333333333333333333333333333333333333".parse().unwrap(),
        amount: Amount::Fixed(U256::from(amount)),
    }
}

fn voucher_pair() -> BatchBuilder<Arc<MockAccount>> {
    ready_builder(vec![1, 10])
        .start_batch(1)
        .add_voucher_request(voucher("v1", 10, 100))
        .end_batch().unwrap()
        .start_batch(10)
}

#[test]
fn test_scenario_single_chain_single_action() {
    let mut builder = ready_builder(vec![1]).start_batch(1).add_action(transfer(100)).end_batch().unwrap();
    let batches = builder.build_single_chain_batches().unwrap();
    assert_eq!(batches.len(), 1);
    assert_eq!(batches[0].user_op.chain_id, Some(1));
    assert_eq!(batches[0].chain_id, 1);
    assert!(batches[0].user_op.signature.is_empty());
    assert_eq!(builder.coordinator().len(), 0);

    let executor = builder.build_and_sign().unwrap();
    assert_eq!(executor.batches().len(), 1);
    let batch = &executor.batches()[0].batch;
    assert_eq!(batch.user_op.chain_id, Some(1));
    assert_eq!(batch.user_op.signature, vec![0xabu8; 65]);
    assert!(batch.input_voucher_requests.is_empty());
    assert!(batch.out_voucher_requests.is_empty());
    assert_eq!(executor.batches()[0].status, OperationStatus::Pending);
    assert_eq!(executor.timeout_seconds(), 30);
}

#[test]
fn test_scenario_fresh_user_operation_defaults() {
    let mut builder = ready_builder(vec![1]).start_batch(1).add_action(transfer(100)).end_batch().unwrap();
    let batches = builder.build_single_chain_batches_at(5).unwrap();
    let op = &batches[0].user_op;
    assert_eq!(op.sender, Address::zero());
    assert_eq!(op.nonce, U256::from(0));
    assert_eq!(op.factory, None);
    assert_eq!(op.factory_data, None);
    assert_eq!(op.call_data, vec![0u8; 32]);
    assert_eq!(op.call_gas_limit, U256::from(3_000_000));
    assert_eq!(op.verification_gas_limit, U256::from(500_000));
    assert_eq!(op.pre_verification_gas, U256::from(100_000));
    assert_eq!(op.max_fee_per_gas, U256::from(1_000_000_000));
    assert_eq!(op.max_priority_fee_per_gas, U256::from(1_000_000_000));
    assert_eq!(op.paymaster, None);
    assert_eq!(op.paymaster_data, None);
    assert_eq!(
        op.entry_point_address,
        Some("0x0000000071727De22E5E9d8BAf0edAc6f37da032".parse().unwrap())
    );
    assert_eq!(batches[0].user_op_hash.len(), 32);
    assert_eq!(
        batches[0].user_op_hash,
        eil::hashing::compute_user_op_hash(op).unwrap()
    );
}

#[test]
fn test_scenario_two_batch_voucher_pair() {
    let mut builder = voucher_pair().use_voucher("v1").unwrap().end_batch().unwrap();
    let batches = builder.build_single_chain_batches().unwrap();

    let info = builder.coordinator().get("v1").unwrap();
    assert_eq!(info.source_batch_index, 0);
    assert_eq!(info.dest_batch_index, Some(1));
    assert_eq!(builder.coordinator().len(), 1);

    assert_eq!(batches.len(), 2);
    assert_eq!(batches[0].chain_id, 1);
    assert_eq!(batches[1].chain_id, 10);
    assert_eq!(batches[0].out_voucher_requests.len(), 1);
    assert_eq!(batches[0].out_voucher_requests[0].ref_id, "v1");
    assert_eq!(batches[0].out_voucher_requests[0].source_chain_id, Some(1));
    assert!(batches[0].input_voucher_requests.is_empty());
    assert_eq!(batches[1].input_voucher_requests.len(), 1);
    assert_eq!(batches[1].input_voucher_requests[0].ref_id, "v1");
    assert!(batches[1].out_voucher_requests.is_empty());
}

#[test]
fn test_scenario_voucher_request_is_put_in_its_on_chain_form() {
    let mut builder = voucher_pair().use_voucher("v1").unwrap().end_batch().unwrap();
    builder.collect_xlps("v1", &vec![provider(9, 100), provider(7, 100)]).unwrap();
    builder.build_single_chain_batches_at(1_000).unwrap();

    let info = builder.coordinator().get("v1").unwrap();
    let account: Address = "0x2222222222222222222222222222222222222222".parse().unwrap();
    assert_eq!(
        info.allowed_xlps,
        Some(vec![Address::from_u128(7), Address::from_u128(9)])
    );
    let request = info.voucher_request.as_ref().unwrap();
    assert_eq!(request.origination.chain_id, 1);
    assert_eq!(request.origination.sender, account);
    assert_eq!(request.origination.paymaster, Address::from_u128(1));
    assert_eq!(
        request.origination.assets,
        vec![Asset { erc20_token: Address::from_u128(1), amount: U256::from(100) }]
    );
    assert_eq!(request.origination.fee_rule.start_fee_percent_numerator, U256::from(10));
    assert_eq!(request.origination.fee_rule.max_fee_percent_numerator, U256::from(500));
    assert_eq!(request.origination.fee_rule.fee_increase_per_second, U256::from(1));
    assert_eq!(request.origination.fee_rule.unspent_voucher_fee, U256::from(10));
    assert_eq!(request.origination.sender_nonce, U256::from(0));
    assert_eq!(
        request.origination.allowed_xlps,
        vec![Address::from_u128(7), Address::from_u128(9)]
    );
    assert_eq!(request.destination.chain_id, 10);
    assert_eq!(request.destination.sender, account);
    assert_eq!(request.destination.paymaster, Address::from_u128(1));
    assert_eq!(
        request.destination.assets,
        vec![Asset { erc20_token: Address::from_u128(2), amount: U256::from(100) }]
    );
    assert_eq!(request.destination.max_user_op_cost, U256::from(10_000_000_000_000_000));
    assert_eq!(request.destination.expires_at, U256::from(1_060));
}

#[test]
fn test_scenario_unconsumed_voucher() {
    let mut builder = voucher_pair().end_batch().unwrap();
    match builder.build_single_chain_batches() {
        Err(EilError::VoucherNotConsumed(ref_id, chain)) => {
            assert_eq!(ref_id, "v1");
            assert_eq!(chain, 1);
        }
        _ => panic!("Expected VoucherNotConsumed error"),
    }
    match builder.build_and_sign() {
        Err(EilError::VoucherNotConsumed(ref_id, chain)) => {
            assert_eq!(ref_id, "v1");
            assert_eq!(chain, 1);
        }
        _ => panic!("Expected VoucherNotConsumed error"),
    }
}

#[test]
fn test_scenario_duplicate_ref_id() {
    let result = ready_builder(vec![1, 10])
        .start_batch(1)
        .add_voucher_request(voucher("v1", 10, 100))
        .end_batch().unwrap()
        .start_batch(10)
        .add_voucher_request(voucher("v1", 1, 5))
        .end_batch();
    match result {
        Err(EilError::DuplicateVoucher(ref_id)) => assert_eq!(ref_id, "v1"),
        _ => panic!("Expected DuplicateVoucher error"),
    }
}

#[test]
fn test_scenario_duplicate_ref_id_within_a_batch() {
    let result = ready_builder(vec![1, 10])
        .start_batch(1)
        .add_voucher_request(voucher("a", 10, 1))
        .add_voucher_request(voucher("b", 10, 1))
        .add_voucher_request(voucher("a", 10, 1))
        .end_batch();
    match result {
        Err(EilError::DuplicateVoucher(ref_id)) => assert_eq!(ref_id, "a"),
        _ => panic!("Expected DuplicateVoucher error"),
    }
}

#[test]
fn test_scenario_double_consumption() {
    let result = voucher_pair()
        .use_voucher("v1")
        .unwrap()
        .end_batch().unwrap()
        .start_batch(10)
        .use_voucher("v1");
    match result {
        Err(EilError::VoucherAlreadyUsed(ref_id)) => assert_eq!(ref_id, "v1"),
        _ => panic!("Expected VoucherAlreadyUsed error"),
    }
}

#[test]
fn test_scenario_unknown_voucher() {
    let builder = ready_builder(vec![1, 10]);
    assert_eq!(builder.coordinator().len(), 0);
    match builder.start_batch(1).use_voucher("ghost") {
        Err(EilError::VoucherNotFound(ref_id)) => assert_eq!(ref_id, "ghost"),
        _ => panic!("Expected VoucherNotFound error"),
    }
}

#[test]
fn test_scenario_executor_happy_path() {
    let mut executor = ready_builder(vec![1, 10])
        .start_batch(1)
        .add_action(transfer(100))
        .end_batch().unwrap()
        .start_batch(10)
        .add_action(transfer(200))
        .end_batch().unwrap()
        .build_and_sign()
        .unwrap();
    executor.start().unwrap();

    let mut fired: Vec<(usize, CallbackType)> = Vec::new();
    let mut elapsed = 0;
    loop {
        let (action, notices) = executor.tick(elapsed).unwrap();
        fired.extend(notices.iter().map(|n| (n.index, n.callback_type)));
        match action {
            Tick::Submit { index } => {
                assert_eq!(executor.status_of(index), Some(OperationStatus::Executing));
                let notices = executor.complete(
                    index,
                    Submission::Executed { tx_hash: vec![index as u8; 32], request_ids: None },
                );
                fired.extend(notices.iter().map(|n| (n.index, n.callback_type)));
            }
            Tick::Wait => panic!("nothing to wait for"),
            Tick::Finished => break,
        }
        elapsed += 1;
    }
    assert_eq!(
        fired,
        vec![
            (0, CallbackType::Executing),
            (0, CallbackType::Done),
            (1, CallbackType::Executing),
            (1, CallbackType::Done),
        ]
    );
    assert_eq!(executor.status_of(0), Some(OperationStatus::Done));
    assert_eq!(executor.status_of(1), Some(OperationStatus::Done));
    assert_eq!(executor.batches()[1].tx_hash, Some(vec![1u8; 32]));
}

#[test]
fn test_scenario_executor_timeout() {
    let sdk = EilSdk::new(create_test_config(vec![1]).with_exec_timeout(0));
    let mut executor = sdk
        .create_builder()
        .use_account(Arc::new(MockAccount::new()))
        .unwrap()
        .start_batch(1)
        .add_action(transfer(100))
        .end_batch().unwrap()
        .build_and_sign()
        .unwrap();
    assert_eq!(executor.timeout_seconds(), 0);
    executor.start().unwrap();
    // the batch is submitted and its submission never reports back
    let (action, _) = executor.tick(0).unwrap();
    assert_eq!(action, Tick::Submit { index: 0 });
    match executor.tick(1) {
        Err(EilError::ExecutionTimeout(seconds)) => assert_eq!(seconds, 0),
        _ => panic!("Expected ExecutionTimeout error"),
    }
    assert_eq!(executor.status_of(0), Some(OperationStatus::Executing));
}

#[test]
fn test_build_without_candidates_allows_no_provider() {
    let mut builder = voucher_pair().use_voucher("v1").unwrap().end_batch().unwrap();
    assert!(builder.coordinator().get("v1").unwrap().allowed_xlps.is_none());
    builder.build_single_chain_batches_at(7).unwrap();
    let info = builder.coordinator().get("v1").unwrap();
    assert_eq!(info.allowed_xlps, Some(vec![]));
    let request = info.voucher_request.as_ref().unwrap();
    assert!(request.origination.allowed_xlps.is_empty());
    assert_eq!(request.destination.expires_at, U256::from(67));
    // the policy has its say where candidates are handed in
    let mut strict = voucher_pair().use_voucher("v1").unwrap().end_batch().unwrap();
    assert!(matches!(strict.collect_xlps("v1", &vec![]), Err(EilError::NoXlpsFound(10))));
    assert!(strict.build_single_chain_batches().is_ok());
}

#[test]
fn test_unused_voucher_is_reported_with_the_mock_account_and_usdc() {
    let request = SdkVoucherRequest {
        ref_id: "v1".to_string(),
        source_chain_id: None,
        destination_chain_id: 10,
        tokens: vec![TokenAmount {
            token: create_test_token("USDC", vec![1, 10]),
            amount: Amount::Fixed(U256::from(100)),
            min_provider_deposit: None,
        }],
        target: None,
    };
    let builder = EilSdk::new(create_test_config(vec![1, 10]))
        .create_builder()
        .use_account(Arc::new(MockAccount::new()))
        .unwrap()
        .start_batch(1)
        .add_voucher_request(request)
        .end_batch()
        .unwrap()
        .start_batch(10)
        .end_batch()
        .unwrap();
    match builder.build_and_sign() {
        Err(EilError::VoucherNotConsumed(ref_id, chain)) => {
            assert_eq!(ref_id, "v1");
            assert_eq!(chain, 1);
        }
        _ => panic!("Expected VoucherNotConsumed error"),
    }
}

#[test]
fn test_unused_voucher_is_reported_before_an_unconfigured_chain() {
    let mut builder = ready_builder(vec![1, 10])
        .start_batch(1)
        .add_voucher_request(voucher("v1", 10, 100))
        .end_batch()
        .unwrap()
        .start_batch(77)
        .end_batch()
        .unwrap();
    builder.collect_xlps("v1", &vec![provider(7, 100)]).unwrap();
    match builder.build_single_chain_batches() {
        Err(EilError::VoucherNotConsumed(ref_id, chain)) => {
            assert_eq!(ref_id, "v1");
            assert_eq!(chain, 1);
        }
        _ => panic!("Expected VoucherNotConsumed error"),
    }
}

#[test]
fn test_batches_are_planned_in_order_actions_before_the_entry_point() {
    // the action of the first batch fails before the chain of the second is looked up
    let gone = TransferAction {
        token: create_test_token("GONE", vec![10]),
        recipient: Address::from_u128(5),
        amount: Amount::Fixed(U256::from(1)),
    };
    let mut builder = ready_builder(vec![1, 10])
        .start_batch(1)
        .add_action(gone.clone())
        .end_batch()
        .unwrap()
        .start_batch(77)
        .end_batch()
        .unwrap();
    assert!(matches!(
        builder.build_single_chain_batches(),
        Err(EilError::InvalidAddress { chain_id: 1, .. })
    ));
    // within a batch the actions are encoded before the entry point is resolved
    let mut builder = ready_builder(vec![1, 10]).start_batch(77).add_action(gone).end_batch().unwrap();
    assert!(matches!(
        builder.build_single_chain_batches(),
        Err(EilError::InvalidAddress { chain_id: 77, .. })
    ));
    let mut builder = ready_builder(vec![1, 10])
        .start_batch(77)
        .end_batch()
        .unwrap()
        .start_batch(1)
        .add_action(transfer(1))
        .end_batch()
        .unwrap();
    assert!(matches!(builder.build_single_chain_batches(), Err(EilError::UnsupportedChain(77))));
}

#[test]
fn test_build_rejects_a_batch_on_an_unconfigured_chain() {
    let mut builder = ready_builder(vec![1])
        .start_batch(1)
        .add_action(transfer(1))
        .end_batch().unwrap()
        .start_batch(77)
        .end_batch().unwrap();
    match builder.build_single_chain_batches() {
        Err(EilError::UnsupportedChain(chain)) => assert_eq!(chain, 77),
        _ => panic!("Expected UnsupportedChain error"),
    }
}

#[test]
fn test_build_reports_the_first_action_that_cannot_be_encoded() {
    let mut builder = ready_builder(vec![1, 10])
        .start_batch(1)
        .add_action(transfer(1))
        .add_action(TransferAction {
            token: create_test_token("GONE", vec![10]),
            recipient: Address::from_u128(5),
            amount: Amount::Fixed(U256::from(1)),
        })
        .end_batch().unwrap();
    match builder.build_single_chain_batches() {
        Err(EilError::InvalidAddress { chain_id, address }) => {
            assert_eq!(chain_id, 1);
            assert_eq!(address, "Token GONE not deployed");
        }
        _ => panic!("Expected InvalidAddress error"),
    }
}

#[test]
fn test_voucher_request_action_requests_a_voucher() {
    let builder = ready_builder(vec![1, 10])
        .start_batch(1)
        .add_action(VoucherRequestAction { voucher_request: voucher("va", 10, 3) })
        .end_batch().unwrap();
    let info = builder.coordinator().get("va").unwrap();
    assert_eq!(info.source_batch_index, 0);
    assert_eq!(info.voucher.source_chain_id, Some(1));
    assert_eq!(info.dest_batch_index, None);
}

#[test]
fn test_same_chain_voucher_is_rejected_at_build() {
    let mut builder = ready_builder(vec![1, 10])
        .start_batch(1)
        .add_voucher_request(voucher("v1", 1, 100))
        .end_batch().unwrap()
        .start_batch(1)
        .use_voucher("v1")
        .unwrap()
        .end_batch().unwrap();
    match builder.build_single_chain_batches() {
        Err(EilError::SameChainVoucher(chain)) => assert_eq!(chain, 1),
        _ => panic!("Expected SameChainVoucher error"),
    }
}

#[test]
fn test_collect_xlps_applies_the_policy() {
    let mut builder = voucher_pair().use_voucher("v1").unwrap().end_batch().unwrap();
    assert!(matches!(
        builder.collect_xlps("ghost", &vec![provider(7, 100)]),
        Err(EilError::VoucherNotFound(_))
    ));
    // a deposit of 99 does not cover 100
    assert!(matches!(
        builder.collect_xlps("v1", &vec![provider(7, 99)]),
        Err(EilError::NoXlpsFound(10))
    ));
    assert!(builder.coordinator().get("v1").unwrap().allowed_xlps.is_none());
    let many: Vec<SolventXlpInfo> = (1..=8).rev().map(|a| provider(a, 500)).collect();
    builder.collect_xlps("v1", &many).unwrap();
    let allowed: Vec<Address> = (1..=5).map(Address::from_u128).collect();
    assert_eq!(builder.coordinator().get("v1").unwrap().allowed_xlps, Some(allowed));
}

#[test]
fn test_collect_xlps_filtered_drops_what_the_filter_refuses() {
    let mut builder = voucher_pair().use_voucher("v1").unwrap().end_batch().unwrap();
    let candidates = vec![provider(8, 100), provider(3, 100), provider(5, 1), provider(2, 100)];
    let odd = Parity(1);
    builder.collect_xlps_filtered("v1", &candidates, &odd).unwrap();
    assert_eq!(
        builder.coordinator().get("v1").unwrap().allowed_xlps,
        Some(vec![Address::from_u128(3)])
    );
    let nobody = Parity(2);
    assert!(matches!(
        builder.collect_xlps_filtered("v1", &candidates, &nobody),
        Err(EilError::NoXlpsFound(10))
    ));
    assert_eq!(
        builder.coordinator().get("v1").unwrap().allowed_xlps,
        Some(vec![Address::from_u128(3)])
    );
    assert!(matches!(
        builder.collect_xlps_filtered("ghost", &candidates, &odd),
        Err(EilError::VoucherNotFound(_))
    ));
}

#[test]
fn test_collect_xlps_filtered_without_a_solvent_candidate() {
    let mut builder = voucher_pair().use_voucher("v1").unwrap().end_batch().unwrap();
    let anybody = OnChain(10);
    assert!(matches!(
        builder.collect_xlps_filtered("v1", &vec![provider(7, 99), provider(8, 1)], &anybody),
        Err(EilError::NoXlpsFound(10))
    ));
    assert!(matches!(
        builder.collect_xlps_filtered("v1", &vec![], &anybody),
        Err(EilError::NoXlpsFound(10))
    ));
    assert!(builder.coordinator().get("v1").unwrap().allowed_xlps.is_none());
}

#[test]
fn test_collected_xlps_are_written_once() {
    let mut builder = voucher_pair().use_voucher("v1").unwrap().end_batch().unwrap();
    builder.collect_xlps("v1", &vec![provider(9, 100), provider(7, 100)]).unwrap();
    let first = vec![Address::from_u128(7), Address::from_u128(9)];
    assert_eq!(builder.coordinator().get("v1").unwrap().allowed_xlps, Some(first.clone()));
    builder.collect_xlps("v1", &vec![provider(4, 100)]).unwrap();
    assert_eq!(builder.coordinator().get("v1").unwrap().allowed_xlps, Some(first.clone()));
    let anybody = OnChain(10);
    builder.collect_xlps_filtered("v1", &vec![provider(5, 100)], &anybody).unwrap();
    assert_eq!(builder.coordinator().get("v1").unwrap().allowed_xlps, Some(first.clone()));
    // building leaves the record as it stands, and what it recorded stands as well
    builder.build_single_chain_batches_at(100).unwrap();
    let entry = builder.coordinator().get("v1").unwrap();
    assert_eq!(entry.allowed_xlps, Some(first.clone()));
    let request = entry.voucher_request.clone().unwrap();
    assert_eq!(request.origination.allowed_xlps, first);
    assert_eq!(request.destination.expires_at, U256::from(160));
    builder.build_single_chain_batches_at(500).unwrap();
    let later = builder.coordinator().get("v1").unwrap().voucher_request.clone().unwrap();
    assert_eq!(later.destination.expires_at, U256::from(160));
    assert_eq!(later.origination.sender_nonce, request.origination.sender_nonce);
}

fn filtering_builder(filter: impl XlpFilter + 'static) -> Builder {
    let policy = XlpSelectionConfig {
        custom_xlp_filter: Some(Arc::new(filter)),
        ..XlpSelectionConfig::default()
    };
    let sdk = EilSdk::new(create_test_config(vec![1, 10]).with_xlp_config(policy));
    sdk.create_builder()
        .use_account(Arc::new(MockAccount::new()))
        .unwrap()
        .start_batch(1)
        .add_voucher_request(voucher("v1", 10, 100))
        .end_batch()
        .unwrap()
        .start_batch(10)
        .use_voucher("v1")
        .unwrap()
        .end_batch()
        .unwrap()
}

#[test]
fn test_collect_xlps_applies_the_configured_filter() {
    let candidates = vec![provider(8, 100), provider(3, 100), provider(5, 1), provider(2, 100)];
    let mut builder = filtering_builder(Parity(0));
    builder.collect_xlps("v1", &candidates).unwrap();
    assert_eq!(
        builder.coordinator().get("v1").unwrap().allowed_xlps,
        Some(vec![Address::from_u128(2), Address::from_u128(8)])
    );
    // the filter is asked about the destination chain of the voucher
    let mut builder = filtering_builder(OnChain(10));
    builder.collect_xlps("v1", &candidates).unwrap();
    assert_eq!(
        builder.coordinator().get("v1").unwrap().allowed_xlps,
        Some(vec![Address::from_u128(2), Address::from_u128(3), Address::from_u128(8)])
    );
    let mut builder = filtering_builder(OnChain(1));
    assert!(matches!(builder.collect_xlps("v1", &candidates), Err(EilError::NoXlpsFound(10))));
    assert!(builder.coordinator().get("v1").unwrap().allowed_xlps.is_none());
    // a filter handed in has the word instead of the configured one
    builder.collect_xlps_filtered("v1", &candidates, &Parity(1)).unwrap();
    assert_eq!(
        builder.coordinator().get("v1").unwrap().allowed_xlps,
        Some(vec![Address::from_u128(3)])
    );
    // the build leaves the filter alone
    builder.build_single_chain_batches().unwrap();
}
