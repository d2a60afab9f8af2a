use alloy::dyn_abi::DynSolValue;
use alloy::json_abi::JsonAbi;
use eil::actions::{
    Action, ActionKind, ApproveAction, BatchContext, FunctionCallAction, SetVarAction,
    TransferAction, VoucherRequestAction,
};
use eil::planning::encode_actions;
use eil::contract_types::SdkVoucherRequest;
use eil::network::NetworkEnvironment;
use eil::test_utils::{create_test_config, create_test_token};
use eil::types::{Amount, FunctionCall, RuntimeVar};
use eil::voucher::VoucherCoordinator;
use eil::{Address, EilError, U256};

fn encode<A: Action>(action: &A, chain_id: u64) -> eil::Result<Vec<eil::Call>> {
    let coordinator = VoucherCoordinator::new();
    let network_env = NetworkEnvironment::new(&create_test_config(vec![1, 10]));
    let context = BatchContext { chain_id, coordinator: &coordinator, network_env: &network_env };
    assert_eq!(context.chain_id(), chain_id);
    action.encode_call(&context)
}

fn word(last: &[u8]) -> Vec<u8> {
    let mut w = vec![0u8; 32 - last.len()];
    w.extend_from_slice(last);
    w
}

fn nft_call(target: Address, function_name: &str) -> FunctionCall {
    let abi: JsonAbi = serde_json::from_str(
        "[{\"type\":\"function\",\"name\":\"purchaseNft\",\"stateMutability\":\"nonpayable\",\
         \"inputs\":[{\"name\":\"tokenId\",\"type\":\"uint256\"}],\"outputs\":[]}]",
    )
    .unwrap();
    FunctionCall {
        target,
        abi,
        function_name: function_name.to_string(),
        args: vec![DynSolValue::Uint(alloy::primitives::U256::from(123u64), 256)],
        value: Some(U256::from(9)),
    }
}

#[test]
fn test_transfer_encodes_selector_recipient_and_amount() {
    let action = TransferAction {
        token: create_test_token("USDC", vec![1, 10]),
        recipient: "0x3333333333333333333333333333333333333333".parse().unwrap(),
        amount: Amount::Fixed(U256::from(100)),
    };
    let calls = encode(&action, 10).unwrap();
    assert_eq!(calls.len(), 1);
    assert_eq!(calls[0].target, Address::from_u128(2));
    assert_eq!(calls[0].value, None);
    let mut expected = vec![0xa9, 0x05, 0x9c, 0xbb];
    expected.extend(word(&[0x33; 20]));
    expected.extend(word(&[100]));
    assert_eq!(calls[0].data, expected);
}

#[test]
fn test_approve_encodes_selector_spender_and_amount() {
    let action = ApproveAction {
        token: create_test_token("USDC", vec![1]),
        spender: "0x4444444444444444444444444444444444444444".parse().unwrap(),
        value: Amount::Fixed(U256 { hi: 1, lo: 0x0102 }),
    };
    let calls = encode(&action, 1).unwrap();
    assert_eq!(calls.len(), 1);
    assert_eq!(calls[0].target, Address::from_u128(1));
    let mut expected = vec![0x09, 0x5e, 0xa7, 0xb3];
    expected.extend(word(&[0x44; 20]));
    let mut amount = vec![0u8; 32];
    amount[15] = 1;
    amount[30] = 1;
    amount[31] = 2;
    expected.extend(amount);
    assert_eq!(calls[0].data, expected);
}

#[test]
fn test_erc20_actions_need_a_deployment_on_the_chain() {
    let action = TransferAction {
        token: create_test_token("USDC", vec![1]),
        recipient: Address::from_u128(3),
        amount: Amount::Fixed(U256::from(100)),
    };
    match encode(&action, 10) {
        Err(EilError::InvalidAddress { chain_id, address }) => {
            assert_eq!(chain_id, 10);
            assert_eq!(address, "Token USDC not deployed");
        }
        _ => panic!("Expected InvalidAddress error"),
    }
}

#[test]
fn test_erc20_actions_reject_runtime_amounts() {
    let transfer = TransferAction {
        token: create_test_token("USDC", vec![1]),
        recipient: Address::from_u128(3),
        amount: Amount::Runtime(RuntimeVar::new("bal").unwrap()),
    };
    assert!(matches!(encode(&transfer, 1), Err(EilError::DynamicVariableCall(n)) if n == "bal"));
    let approve = ApproveAction {
        token: create_test_token("USDC", vec![1]),
        spender: Address::from_u128(3),
        value: Amount::Runtime(RuntimeVar::new("x").unwrap()),
    };
    assert!(matches!(encode(&approve, 1), Err(EilError::DynamicVariableCall(n)) if n == "x"));
    // a missing deployment is reported before the runtime amount
    assert!(matches!(encode(&approve, 10), Err(EilError::InvalidAddress { .. })));
}

#[test]
fn test_function_call_encodes_selector_and_arguments() {
    let action = FunctionCallAction { call: nft_call(Address::from_u128(0xbeef), "purchaseNft") };
    let calls = encode(&action, 1).unwrap();
    assert_eq!(calls.len(), 1);
    assert_eq!(calls[0].target, Address::from_u128(0xbeef));
    assert_eq!(calls[0].value, Some(U256::from(9)));
    let mut expected = alloy::primitives::keccak256("purchaseNft(uint256)")[..4].to_vec();
    expected.extend(word(&[123]));
    assert_eq!(calls[0].data, expected);
}

#[test]
fn test_function_call_failures() {
    let unknown = FunctionCallAction { call: nft_call(Address::from_u128(1), "sellNft") };
    match encode(&unknown, 1) {
        Err(EilError::Generic(text)) => assert_eq!(text, "Function sellNft not found"),
        _ => panic!("Expected Generic error"),
    }
    let no_target = FunctionCallAction { call: nft_call(Address::zero(), "purchaseNft") };
    match encode(&no_target, 10) {
        Err(EilError::InvalidAddress { chain_id, address }) => {
            assert_eq!(chain_id, 10);
            assert_eq!(address, "Calling 'purchaseNft' on contract with no address on chain 10");
        }
        _ => panic!("Expected InvalidAddress error"),
    }
    // the missing function is reported before the missing target
    let both = FunctionCallAction { call: nft_call(Address::zero(), "sellNft") };
    assert!(matches!(encode(&both, 1), Err(EilError::Generic(_))));
}

#[test]
fn test_voucher_request_action_makes_no_call() {
    let action = VoucherRequestAction {
        voucher_request: SdkVoucherRequest {
            ref_id: "v".to_string(),
            source_chain_id: None,
            destination_chain_id: 10,
            tokens: vec![],
            target: None,
        },
    };
    assert!(encode(&action, 1).unwrap().is_empty());
}

#[test]
fn test_set_var_action() {
    let call = nft_call(Address::from_u128(1), "purchaseNft");
    match SetVarAction::new("123456789", call.clone()) {
        Err(EilError::InvalidVariableName(name)) => assert_eq!(name, "123456789"),
        _ => panic!("Expected InvalidVariableName error"),
    }
    let action = SetVarAction::new("12345678", call).unwrap();
    assert_eq!(action.var_name, "12345678");
    assert!(matches!(encode(&action, 1), Err(EilError::DynamicVariableCall(n)) if n == "12345678"));
}

#[test]
fn test_encoding_is_a_function_of_action_and_chain() {
    let action = TransferAction {
        token: create_test_token("USDC", vec![1, 10]),
        recipient: Address::from_u128(77),
        amount: Amount::Fixed(U256::from(5)),
    };
    let first = encode(&action, 1).unwrap();
    let second = encode(&action.clone(), 1).unwrap();
    assert_eq!(first[0].data, second[0].data);
    assert_eq!(first[0].target, second[0].target);
    let kind = action.into_kind();
    let third = encode(&kind, 1).unwrap();
    assert_eq!(first[0].data, third[0].data);
}

#[test]
fn test_actions_of_a_batch_are_encoded_in_order() {
    let token = create_test_token("USDC", vec![1]);
    let actions = vec![
        ActionKind::Approve(ApproveAction {
            token: token.clone(),
            spender: Address::from_u128(4),
            value: Amount::Fixed(U256::from(100)),
        }),
        ActionKind::VoucherRequest(VoucherRequestAction {
            voucher_request: SdkVoucherRequest {
                ref_id: "v".to_string(),
                source_chain_id: None,
                destination_chain_id: 10,
                tokens: vec![],
                target: None,
            },
        }),
        ActionKind::Transfer(TransferAction {
            token: token.clone(),
            recipient: Address::from_u128(3),
            amount: Amount::Fixed(U256::from(50)),
        }),
    ];
    let coordinator = VoucherCoordinator::new();
    let network_env = NetworkEnvironment::new(&create_test_config(vec![1]));
    let context = BatchContext { chain_id: 1, coordinator: &coordinator, network_env: &network_env };
    let calls = encode_actions(&actions, &context).unwrap();
    assert_eq!(calls.len(), 2);
    assert_eq!(calls[0].data[..4], [0x09, 0x5e, 0xa7, 0xb3]);
    assert_eq!(calls[1].data[..4], [0xa9, 0x05, 0x9c, 0xbb]);

    let wrong_chain = BatchContext { chain_id: 2, coordinator: &coordinator, network_env: &network_env };
    assert!(matches!(
        encode_actions(&actions, &wrong_chain),
        Err(EilError::InvalidAddress { chain_id: 2, .. })
    ));
    assert!(eil::actions::is_valid_address(Address::from_u128(1)));
    assert!(!eil::actions::is_valid_address(Address::zero()));
}
