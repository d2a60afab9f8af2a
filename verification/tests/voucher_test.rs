use eil::contract_types::{
    AtomicSwapFeeRule, DestinationSwapComponent, SdkVoucherRequest, SourceSwapComponent, Voucher,
    VoucherRequest,
};
use eil::multichain::MultichainToken;
use eil::types::{Amount, TokenAmount};
use eil::voucher::VoucherCoordinator;
use eil::{Address, EilError, U256};
use std::collections::HashMap;

fn create_test_voucher(ref_id: &str, dest_chain: u64) -> SdkVoucherRequest {
    let mut deployments = HashMap::new();
    deployments.insert(1, "0x0000000000000000000000000000000000000001".parse().unwrap());
    deployments.insert(dest_chain, "0x0000000000000000000000000000000000000010".parse().unwrap());

    let token = MultichainToken::new("TEST".to_string(), deployments);

    SdkVoucherRequest {
        ref_id: ref_id.to_string(),
        source_chain_id: Some(1),
        destination_chain_id: dest_chain,
        tokens: vec![TokenAmount {
            token,
            amount: Amount::Fixed(U256::from(100)),
            min_provider_deposit: None,
        }],
        target: None,
    }
}

#[test]
fn test_voucher_coordinator_new() {
    let coordinator = VoucherCoordinator::new();
    assert_eq!(coordinator.all_vouchers().len(), 0);
}

#[test]
fn test_voucher_coordinator_register() {
    let mut coordinator = VoucherCoordinator::new();
    let voucher = create_test_voucher("v1", 10);

    let result = coordinator.register(voucher, 0);
    assert!(result.is_ok());
    assert_eq!(coordinator.all_vouchers().len(), 1);
}

#[test]
fn test_voucher_coordinator_register_duplicate() {
    let mut coordinator = VoucherCoordinator::new();
    let voucher1 = create_test_voucher("v1", 10);
    let voucher2 = create_test_voucher("v1", 10);

    coordinator.register(voucher1, 0).unwrap();
    let result = coordinator.register(voucher2, 1);

    assert!(result.is_err());
    match result {
        Err(EilError::DuplicateVoucher(ref_id)) => {
            assert_eq!(ref_id, "v1");
        }
        _ => panic!("Expected DuplicateVoucher error"),
    }
}

#[test]
fn test_voucher_coordinator_get() {
    let mut coordinator = VoucherCoordinator::new();
    let voucher = create_test_voucher("v1", 10);

    coordinator.register(voucher, 0).unwrap();

    let result = coordinator.get("v1");
    assert!(result.is_ok());

    let info = result.unwrap();
    assert_eq!(info.voucher.ref_id, "v1");
    assert_eq!(info.source_batch_index, 0);
    assert!(info.dest_batch_index.is_none());
}

#[test]
fn test_voucher_coordinator_get_not_found() {
    let coordinator = VoucherCoordinator::new();
    let result = coordinator.get("nonexistent");

    assert!(result.is_err());
    match result {
        Err(EilError::VoucherNotFound(ref_id)) => {
            assert_eq!(ref_id, "nonexistent");
        }
        _ => panic!("Expected VoucherNotFound error"),
    }
}

#[test]
fn test_voucher_coordinator_mark_consumed() {
    let mut coordinator = VoucherCoordinator::new();
    let voucher = create_test_voucher("v1", 10);

    coordinator.register(voucher, 0).unwrap();
    let result = coordinator.mark_consumed("v1", 1);

    assert!(result.is_ok());

    let info = coordinator.get("v1").unwrap();
    assert_eq!(info.dest_batch_index, Some(1));
}

#[test]
fn test_voucher_coordinator_mark_consumed_twice() {
    let mut coordinator = VoucherCoordinator::new();
    let voucher = create_test_voucher("v1", 10);

    coordinator.register(voucher, 0).unwrap();
    coordinator.mark_consumed("v1", 1).unwrap();

    let result = coordinator.mark_consumed("v1", 2);
    assert!(result.is_err());
    match result {
        Err(EilError::VoucherAlreadyUsed(ref_id)) => {
            assert_eq!(ref_id, "v1");
        }
        _ => panic!("Expected VoucherAlreadyUsed error"),
    }
}

#[test]
fn test_voucher_coordinator_unconsumed_vouchers() {
    let mut coordinator = VoucherCoordinator::new();

    coordinator.register(create_test_voucher("v1", 10), 0).unwrap();
    coordinator.register(create_test_voucher("v2", 10), 0).unwrap();
    coordinator.register(create_test_voucher("v3", 10), 0).unwrap();

    coordinator.mark_consumed("v1", 1).unwrap();

    let unconsumed = coordinator.unconsumed_vouchers();
    assert_eq!(unconsumed.len(), 2);
}

#[test]
fn test_voucher_coordinator_validate_all_consumed_success() {
    let mut coordinator = VoucherCoordinator::new();

    coordinator.register(create_test_voucher("v1", 10), 0).unwrap();
    coordinator.register(create_test_voucher("v2", 10), 0).unwrap();

    coordinator.mark_consumed("v1", 1).unwrap();
    coordinator.mark_consumed("v2", 2).unwrap();

    let result = coordinator.validate_all_consumed();
    assert!(result.is_ok());
}

#[test]
fn test_voucher_coordinator_validate_all_consumed_failure() {
    let mut coordinator = VoucherCoordinator::new();

    coordinator.register(create_test_voucher("v1", 10), 0).unwrap();
    coordinator.register(create_test_voucher("v2", 10), 0).unwrap();

    coordinator.mark_consumed("v1", 1).unwrap();
    // v2 not consumed

    let result = coordinator.validate_all_consumed();
    assert!(result.is_err());
    match result {
        Err(EilError::VoucherNotConsumed(ref_id, _)) => {
            assert_eq!(ref_id, "v2");
        }
        _ => panic!("Expected VoucherNotConsumed error"),
    }
}

#[test]
fn test_voucher_coordinator_set_allowed_xlps() {
    let mut coordinator = VoucherCoordinator::new();
    let voucher = create_test_voucher("v1", 10);

    coordinator.register(voucher, 0).unwrap();

    let xlps = vec![
        "0x0000000000000000000000000000000000000001".parse().unwrap(),
        "0x0000000000000000000000000000000000000002".parse().unwrap(),
    ];

    let result = coordinator.set_allowed_xlps("v1", xlps.clone());
    assert!(result.is_ok());

    let info = coordinator.get("v1").unwrap();
    assert_eq!(info.allowed_xlps.as_ref().unwrap().len(), 2);
}

#[test]
fn test_register_keeps_source_and_leaves_consumer_unset() {
    let mut coordinator = VoucherCoordinator::new();
    coordinator.register(create_test_voucher("a", 10), 3).unwrap();
    coordinator.register(create_test_voucher("b", 10), 7).unwrap();
    let a = coordinator.get("a").unwrap();
    assert_eq!(a.source_batch_index, 3);
    assert_eq!(a.dest_batch_index, None);
    assert!(a.voucher_request.is_none());
    assert!(a.allowed_xlps.is_none());
    assert!(a.signed_voucher.is_none());
    let b = coordinator.get("b").unwrap();
    assert_eq!(b.source_batch_index, 7);
    assert_eq!(b.dest_batch_index, None);
}

#[test]
fn test_consumer_is_written_once() {
    let mut coordinator = VoucherCoordinator::new();
    coordinator.register(create_test_voucher("v1", 10), 0).unwrap();
    coordinator.mark_consumed("v1", 1).unwrap();
    assert!(coordinator.mark_consumed("v1", 2).is_err());
    coordinator.register(create_test_voucher("v2", 10), 1).unwrap();
    coordinator.set_allowed_xlps("v1", vec![]).unwrap();
    assert!(coordinator.register(create_test_voucher("v1", 10), 5).is_err());
    let info = coordinator.get("v1").unwrap();
    assert_eq!(info.dest_batch_index, Some(1));
    assert_eq!(info.source_batch_index, 0);
}

#[test]
fn test_mark_consumed_unknown_voucher() {
    let mut coordinator = VoucherCoordinator::new();
    match coordinator.mark_consumed("ghost", 0) {
        Err(EilError::VoucherNotFound(ref_id)) => assert_eq!(ref_id, "ghost"),
        _ => panic!("Expected VoucherNotFound error"),
    }
}

#[test]
fn test_setters_need_a_registered_voucher() {
    let mut coordinator = VoucherCoordinator::new();
    assert!(matches!(
        coordinator.set_allowed_xlps("ghost", vec![]),
        Err(EilError::VoucherNotFound(_))
    ));
    assert!(matches!(coordinator.get_mut("ghost"), Err(EilError::VoucherNotFound(_))));
    coordinator.register(create_test_voucher("v1", 10), 0).unwrap();
    coordinator.get_mut("v1").unwrap().dest_batch_index = Some(4);
    assert_eq!(coordinator.get("v1").unwrap().dest_batch_index, Some(4));
}

#[test]
fn test_vouchers_are_listed_in_registration_order() {
    let mut coordinator = VoucherCoordinator::new();
    coordinator.register(create_test_voucher("z", 10), 0).unwrap();
    coordinator.register(create_test_voucher("a", 10), 0).unwrap();
    coordinator.register(create_test_voucher("m", 10), 1).unwrap();
    let ids: Vec<String> =
        coordinator.all_vouchers().iter().map(|v| v.voucher.ref_id.clone()).collect();
    assert_eq!(ids, vec!["z", "a", "m"]);
    coordinator.mark_consumed("a", 2).unwrap();
    let pending: Vec<String> =
        coordinator.unconsumed_vouchers().iter().map(|v| v.voucher.ref_id.clone()).collect();
    assert_eq!(pending, vec!["z", "m"]);
    assert_eq!(coordinator.len(), 3);
    assert_eq!(coordinator.entry_at(2).voucher.ref_id, "m");
}

#[test]
fn test_validate_names_first_unconsumed_and_its_chain() {
    let mut coordinator = VoucherCoordinator::new();
    let mut no_chain = create_test_voucher("v0", 10);
    no_chain.source_chain_id = None;
    coordinator.register(create_test_voucher("v1", 10), 0).unwrap();
    coordinator.register(no_chain, 0).unwrap();
    match coordinator.validate_all_consumed() {
        Err(EilError::VoucherNotConsumed(ref_id, chain)) => {
            assert_eq!(ref_id, "v1");
            assert_eq!(chain, 1);
        }
        _ => panic!("Expected VoucherNotConsumed error"),
    }
    coordinator.mark_consumed("v1", 1).unwrap();
    match coordinator.validate_all_consumed() {
        Err(EilError::VoucherNotConsumed(ref_id, chain)) => {
            assert_eq!(ref_id, "v0");
            assert_eq!(chain, 0);
        }
        _ => panic!("Expected VoucherNotConsumed error"),
    }
}

fn on_chain_request(nonce: u64) -> VoucherRequest {
    let zero = U256::from(0);
    VoucherRequest {
        origination: SourceSwapComponent {
            chain_id: 1,
            sender: Address::zero(),
            paymaster: Address::zero(),
            assets: vec![],
            fee_rule: AtomicSwapFeeRule {
                start_fee_percent_numerator: zero,
                max_fee_percent_numerator: zero,
                fee_increase_per_second: zero,
                unspent_voucher_fee: zero,
            },
            sender_nonce: U256::from(nonce),
            allowed_xlps: vec![],
        },
        destination: DestinationSwapComponent {
            chain_id: 10,
            sender: Address::zero(),
            paymaster: Address::zero(),
            assets: vec![],
            max_user_op_cost: zero,
            expires_at: zero,
        },
    }
}

#[test]
fn test_set_voucher_request_and_signed_voucher() {
    let mut coordinator = VoucherCoordinator::new();
    coordinator.register(create_test_voucher("v1", 10), 0).unwrap();
    coordinator.register(create_test_voucher("v2", 10), 0).unwrap();
    coordinator.mark_consumed("v2", 1).unwrap();

    coordinator.set_voucher_request("v2", on_chain_request(5)).unwrap();
    coordinator
        .set_signed_voucher("v2", Voucher { request: on_chain_request(6), signature: vec![1, 2] })
        .unwrap();
    let v2 = coordinator.get("v2").unwrap();
    assert_eq!(v2.voucher_request.as_ref().unwrap().origination.sender_nonce, U256::from(5));
    assert_eq!(v2.signed_voucher.as_ref().unwrap().signature, vec![1, 2]);
    assert_eq!(v2.dest_batch_index, Some(1));
    assert_eq!(v2.source_batch_index, 0);
    let v1 = coordinator.get("v1").unwrap();
    assert!(v1.voucher_request.is_none());
    assert!(v1.signed_voucher.is_none());

    assert!(matches!(
        coordinator.set_voucher_request("ghost", on_chain_request(0)),
        Err(EilError::VoucherNotFound(_))
    ));
    assert!(matches!(
        coordinator.set_signed_voucher(
            "ghost",
            Voucher { request: on_chain_request(0), signature: vec![] }
        ),
        Err(EilError::VoucherNotFound(_))
    ));
}

#[test]
fn test_allowed_xlps_are_written_once() {
    let mut coordinator = VoucherCoordinator::new();
    coordinator.register(create_test_voucher("v1", 10), 0).unwrap();
    coordinator.register(create_test_voucher("v2", 10), 0).unwrap();
    let first = vec![Address::from_u128(7), Address::from_u128(9)];
    coordinator.set_allowed_xlps("v1", first.clone()).unwrap();
    assert!(coordinator.set_allowed_xlps("v1", vec![Address::from_u128(1)]).is_ok());
    assert_eq!(coordinator.get("v1").unwrap().allowed_xlps, Some(first.clone()));
    assert!(coordinator.set_allowed_xlps("v1", vec![]).is_ok());
    assert_eq!(coordinator.get("v1").unwrap().allowed_xlps, Some(first));
    // an empty list is a record like any other
    coordinator.set_allowed_xlps("v2", vec![]).unwrap();
    coordinator.set_allowed_xlps("v2", vec![Address::from_u128(1)]).unwrap();
    assert_eq!(coordinator.get("v2").unwrap().allowed_xlps, Some(vec![]));
    assert_eq!(coordinator.len(), 2);
}

#[test]
fn test_voucher_request_is_written_once() {
    let mut coordinator = VoucherCoordinator::new();
    coordinator.register(create_test_voucher("v1", 10), 0).unwrap();
    coordinator.set_voucher_request("v1", on_chain_request(5)).unwrap();
    assert!(coordinator.set_voucher_request("v1", on_chain_request(6)).is_ok());
    let v1 = coordinator.get("v1").unwrap();
    assert_eq!(v1.voucher_request.as_ref().unwrap().origination.sender_nonce, U256::from(5));
    assert!(v1.allowed_xlps.is_none());
    assert!(v1.signed_voucher.is_none());
    assert_eq!(v1.dest_batch_index, None);
}

#[test]
fn test_signed_voucher_is_written_once() {
    let mut coordinator = VoucherCoordinator::new();
    coordinator.register(create_test_voucher("v1", 10), 0).unwrap();
    coordinator
        .set_signed_voucher("v1", Voucher { request: on_chain_request(5), signature: vec![1, 2] })
        .unwrap();
    assert!(coordinator
        .set_signed_voucher("v1", Voucher { request: on_chain_request(6), signature: vec![3] })
        .is_ok());
    let v1 = coordinator.get("v1").unwrap();
    assert_eq!(v1.signed_voucher.as_ref().unwrap().signature, vec![1, 2]);
    assert_eq!(v1.signed_voucher.as_ref().unwrap().request.origination.sender_nonce, U256::from(5));
    assert!(v1.voucher_request.is_none());
}
