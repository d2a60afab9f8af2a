use eil::multichain::{AddressPerChain, MultichainContract, MultichainToken};
use eil::types::{to_address, MultiChainEntity};
use eil::{Address, EilError};
use std::collections::HashMap;

fn create_test_deployments() -> AddressPerChain {
    let mut deployments = HashMap::new();
    deployments.insert(1, "0x0000000000000000000000000000000000000001".parse().unwrap());
    deployments.insert(10, "0x0000000000000000000000000000000000000010".parse().unwrap());
    deployments
}

#[test]
fn test_multichain_contract_new() {
    let deployments = create_test_deployments();
    let abi = serde_json::from_str("[]").unwrap();
    let contract = MultichainContract::new(abi, deployments);

    assert_eq!(contract.deployments.len(), 2);
}

#[test]
fn test_multichain_contract_address_on() {
    let deployments = create_test_deployments();
    let abi = serde_json::from_str("[]").unwrap();
    let contract = MultichainContract::new(abi, deployments);

    assert!(contract.address_on(1).is_some());
    assert!(contract.address_on(10).is_some());
    assert!(contract.address_on(999).is_none());
}

#[test]
fn test_multichain_contract_is_deployed_on() {
    let deployments = create_test_deployments();
    let abi = serde_json::from_str("[]").unwrap();
    let contract = MultichainContract::new(abi, deployments);

    assert!(contract.is_deployed_on(1));
    assert!(contract.is_deployed_on(10));
    assert!(!contract.is_deployed_on(999));
}

#[test]
fn test_multichain_token_new() {
    let deployments = create_test_deployments();
    let token = MultichainToken::new("USDC".to_string(), deployments);

    assert_eq!(token.name, "USDC");
    assert_eq!(token.deployments.len(), 2);
}

#[test]
fn test_multichain_token_address_on() {
    let deployments = create_test_deployments();
    let token = MultichainToken::new("USDC".to_string(), deployments);

    let addr1 = token.address_on(1);
    let addr10 = token.address_on(10);

    assert!(addr1.is_some());
    assert!(addr10.is_some());
    assert_ne!(addr1.unwrap(), addr10.unwrap());
}

#[test]
fn test_multichain_token_is_deployed_on() {
    let deployments = create_test_deployments();
    let token = MultichainToken::new("USDC".to_string(), deployments);

    assert!(token.is_deployed_on(1));
    assert!(token.is_deployed_on(10));
    assert!(!token.is_deployed_on(42161));
}

#[test]
fn test_multichain_token_abi() {
    let deployments = create_test_deployments();
    let token = MultichainToken::new("USDC".to_string(), deployments);

    let abi = token.abi();

    // Should have standard ERC20 functions
    assert!(abi.function("transfer").is_some());
    assert!(abi.function("approve").is_some());
    assert!(abi.function("balanceOf").is_some());
    assert!(abi.function("allowance").is_some());
}

#[test]
fn test_multichain_entity_trait() {
    let deployments = create_test_deployments();
    let token = MultichainToken::new("USDC".to_string(), deployments);

    // Test through MultiChainEntity trait
    let entity: &dyn MultiChainEntity = &token;
    assert!(entity.address_on(1).is_some());
    assert!(entity.address_on(999).is_none());
}

#[test]
fn test_multichain_token_abi_selectors() {
    let token = MultichainToken::new("USDC".to_string(), create_test_deployments());
    let abi = token.abi();
    let transfer = abi.function("transfer").unwrap().first().unwrap().selector();
    let approve = abi.function("approve").unwrap().first().unwrap().selector();
    assert_eq!(transfer.to_vec(), vec![0xa9, 0x05, 0x9c, 0xbb]);
    assert_eq!(approve.to_vec(), vec![0x09, 0x5e, 0xa7, 0xb3]);
}

#[test]
fn test_to_address_maps_absence_to_invalid_address() {
    let token = MultichainToken::new("USDC".to_string(), create_test_deployments());
    assert_eq!(to_address(1, &token).unwrap(), Address::from_u128(1));
    let entity: &dyn MultiChainEntity = &token;
    assert_eq!(to_address(10, entity).unwrap(), Address::from_u128(0x10));
    match to_address(999, &token) {
        Err(EilError::InvalidAddress { chain_id, address }) => {
            assert_eq!(chain_id, 999);
            assert_eq!(address, "None");
        }
        _ => panic!("Expected InvalidAddress error"),
    }
}

#[test]
fn test_token_duplicate_keeps_name_and_deployments() {
    let token = MultichainToken::new("USDC".to_string(), create_test_deployments());
    let copy = token.duplicate();
    assert_eq!(copy.name, "USDC");
    assert_eq!(copy.deployments, token.deployments);
}

#[test]
fn test_multichain_token_abi_holds_six_functions_with_their_selectors() {
    let token = MultichainToken::new("USDC".to_string(), create_test_deployments());
    let abi = token.abi();
    let expected = [
        ("balanceOf", "balanceOf(address)"),
        ("transfer", "transfer(address,uint256)"),
        ("approve", "approve(address,uint256)"),
        ("allowance", "allowance(address,address)"),
        ("decimals", "decimals()"),
        ("symbol", "symbol()"),
    ];
    assert_eq!(abi.functions.len(), expected.len());
    for (name, signature) in expected {
        let overloads = abi.function(name).unwrap();
        assert_eq!(overloads.len(), 1);
        assert_eq!(overloads[0].signature(), signature);
        assert_eq!(overloads[0].selector().to_vec(), eil::actions::selector(signature));
    }
    assert!(abi.function("mint").is_none());
    assert_eq!(eil::actions::selector("transfer(address,uint256)"), vec![0xa9, 0x05, 0x9c, 0xbb]);
    assert_eq!(eil::actions::selector("decimals()"), vec![0x31, 0x3c, 0xe5, 0x67]);
}
