use eil::account::{accept_signed, MultiChainSmartAccount};
use eil::planning::create_user_op;
use eil::actions::TransferAction;
use eil::contract_types::UserOperation;
use eil::test_utils::{create_test_config, create_test_token, MockAccount};
use std::sync::Arc;
use eil::types::Amount;
use eil::config::XlpFilter;
use eil::xlp::{retain_accepted, SolventXlpInfo};
use eil::contract_types::XlpEntry;
use eil::{Address, Call, EilError, EilSdk, Hex, U256};

/// Filters of providers by their address on the destination chain.
enum Pick {
    Odd,
    Even,
    Anybody,
    Nobody,
}

impl XlpFilter for Pick {
    fn accepts(&self, _chain_id: u64, candidate: &SolventXlpInfo) -> bool {
        match self {
            Pick::Odd => candidate.xlp_entry.l2_xlp_address.lo % 2 == 1,
            Pick::Even => candidate.xlp_entry.l2_xlp_address.lo % 2 == 0,
            Pick::Anybody => true,
            Pick::Nobody => false,
        }
    }
}

/// An account that answers as told.
struct Scripted {
    encodes: bool,
    signs: bool,
}

/// An account that breaks the rule of signing in one of two ways.
struct Careless {
    drops_one: bool,
}

impl MultiChainSmartAccount for Careless {
    fn account_address(&self, chain_id: u64) -> Option<Address> {
        self.address_on(chain_id).ok()
    }

    fn address_on(&self, chain_id: u64) -> eil::Result<Address> {
        Ok(Address::from_u128(chain_id as u128))
    }

    fn sign_user_ops(&self, user_ops: Vec<UserOperation>) -> eil::Result<Vec<UserOperation>> {
        let mut signed: Vec<UserOperation> = user_ops
            .into_iter()
            .map(|mut op| {
                op.signature = vec![1; 65];
                op
            })
            .collect();
        if self.drops_one {
            signed.pop();
        } else {
            signed[0].nonce = U256::from(1);
        }
        Ok(signed)
    }

    fn encode_calls(&self, _chain_id: u64, _calls: Vec<Call>) -> eil::Result<Hex> {
        Ok(vec![])
    }

    fn send_user_operation(&self, _user_op: UserOperation) -> eil::Result<Hex> {
        Ok(vec![])
    }

    fn verify_bundler_config(&self, _chain_id: u64, _entry_point: Address) -> eil::Result<()> {
        Ok(())
    }

    fn get_nonce(&self, _chain_id: u64) -> eil::Result<U256> {
        Ok(U256::from(0))
    }

    fn get_factory_args(&self, _chain_id: u64) -> eil::Result<(Option<Address>, Option<Hex>)> {
        Ok((None, None))
    }
}

impl MultiChainSmartAccount for Scripted {
    fn account_address(&self, chain_id: u64) -> Option<Address> {
        self.address_on(chain_id).ok()
    }

    fn address_on(&self, chain_id: u64) -> eil::Result<Address> {
        Ok(Address::from_u128(chain_id as u128))
    }

    fn sign_user_ops(&self, user_ops: Vec<UserOperation>) -> eil::Result<Vec<UserOperation>> {
        if !self.signs {
            return Err(EilError::AlloySigner("no key".to_string()));
        }
        Ok(user_ops
            .into_iter()
            .map(|mut op| {
                op.signature = vec![op.chain_id.unwrap_or(0) as u8; 4];
                op
            })
            .collect())
    }

    fn encode_calls(&self, chain_id: u64, calls: Vec<Call>) -> eil::Result<Hex> {
        if !self.encodes {
            return Err(EilError::AlloyContract("cannot encode".to_string()));
        }
        let mut data = vec![chain_id as u8];
        for call in calls {
            data.extend(call.data);
        }
        Ok(data)
    }

    fn send_user_operation(&self, _user_op: UserOperation) -> eil::Result<Hex> {
        Ok(vec![])
    }

    fn verify_bundler_config(&self, _chain_id: u64, _entry_point: Address) -> eil::Result<()> {
        Ok(())
    }

    fn get_nonce(&self, _chain_id: u64) -> eil::Result<U256> {
        Ok(U256::from(0))
    }

    fn get_factory_args(&self, _chain_id: u64) -> eil::Result<(Option<Address>, Option<Hex>)> {
        Ok((None, None))
    }
}

fn transfer(amount: u64) -> TransferAction {
    TransferAction {
        token: create_test_token("USDC", vec![1, 10]),
        recipient: Address::from_u128(0x33),
        amount: Amount::Fixed(U256::from(amount)),
    }
}

fn build(account: Scripted) -> eil::Result<eil::executor::CrossChainExecutor> {
    EilSdk::new(create_test_config(vec![1, 10]))
        .create_builder()
        .use_account(account)
        .unwrap()
        .start_batch(1)
        .add_action(transfer(1))
        .add_action(transfer(2))
        .end_batch().unwrap()
        .start_batch(10)
        .end_batch().unwrap()
        .build_and_sign()
}

#[test]
fn test_account_encodes_the_calls_of_each_batch_in_order() {
    let executor = build(Scripted { encodes: true, signs: true }).unwrap();
    let batches = executor.batches();
    assert_eq!(batches.len(), 2);
    let data = &batches[0].batch.user_op.call_data;
    // the chain, then the two transfers one after the other: 1 + 2 * (4 + 64) bytes
    assert_eq!(data.len(), 137);
    assert_eq!(data[0], 1);
    assert_eq!(data[1..5], [0xa9, 0x05, 0x9c, 0xbb]);
    assert_eq!(data[68], 1);
    assert_eq!(data[69..73], [0xa9, 0x05, 0x9c, 0xbb]);
    assert_eq!(data[136], 2);
    assert_eq!(batches[1].batch.user_op.call_data, vec![10]);
    assert_eq!(batches[0].batch.user_op.signature, vec![1; 4]);
    assert_eq!(batches[1].batch.user_op.signature, vec![10; 4]);
    // the hash is that of the operation, whose signature does not count
    assert_eq!(
        batches[0].batch.user_op_hash,
        eil::hashing::compute_user_op_hash(&batches[0].batch.user_op).unwrap()
    );
}

#[test]
fn test_failures_of_the_account_are_surfaced_as_they_are() {
    match build(Scripted { encodes: false, signs: true }) {
        Err(EilError::AlloyContract(text)) => assert_eq!(text, "cannot encode"),
        _ => panic!("Expected the error of the account"),
    }
    match build(Scripted { encodes: true, signs: false }) {
        Err(EilError::AlloySigner(text)) => assert_eq!(text, "no key"),
        _ => panic!("Expected the error of the account"),
    }
}

#[test]
fn test_custom_filter_has_the_last_word() {
    let provider = |address: u128| SolventXlpInfo {
        xlp_entry: XlpEntry {
            l1_xlp_address: Address::zero(),
            l2_xlp_address: Address::from_u128(address),
            bond: U256::from(address as u64),
        },
        deposits: vec![],
        balances: vec![],
    };
    let candidates = vec![provider(4), provider(1), provider(6), provider(3)];
    let given: Vec<&SolventXlpInfo> = candidates.iter().collect();
    let kept = retain_accepted(given.clone(), &Pick::Even, 10);
    let kept: Vec<u128> = kept.iter().map(|x| x.xlp_entry.l2_xlp_address.lo).collect();
    assert_eq!(kept, vec![4, 6]);
    let odd: Vec<u128> =
        retain_accepted(given.clone(), &Pick::Odd, 10).iter().map(|x| x.xlp_entry.l2_xlp_address.lo).collect();
    assert_eq!(odd, vec![1, 3]);
    assert_eq!(retain_accepted(given.clone(), &Pick::Anybody, 10).len(), 4);
    assert!(retain_accepted(given, &Pick::Nobody, 10).is_empty());
}

#[test]
fn test_an_answer_that_breaks_the_rule_of_signing_is_refused() {
    for drops_one in [true, false] {
        let result = EilSdk::new(create_test_config(vec![1]))
            .create_builder()
            .use_account(Careless { drops_one })
            .unwrap()
            .start_batch(1)
            .add_action(transfer(1))
            .end_batch().unwrap()
            .build_and_sign();
        assert!(matches!(result, Err(EilError::UserOpNotSigned)));
    }
}

#[test]
fn test_accept_signed() {
    let unsigned = vec![
        create_user_op(1, Address::from_u128(1), vec![1]),
        create_user_op(2, Address::from_u128(1), vec![2]),
    ];
    let mut signed = unsigned.clone();
    signed[0].signature = vec![9; 65];
    signed[1].signature = vec![8; 65];
    let accepted = accept_signed(&unsigned, signed.clone()).unwrap();
    assert_eq!(accepted[1].signature, vec![8; 65]);

    let mut swapped = signed.clone();
    swapped.swap(0, 1);
    assert!(matches!(accept_signed(&unsigned, swapped), Err(EilError::UserOpNotSigned)));
    let mut longer = signed.clone();
    longer.push(create_user_op(3, Address::from_u128(1), vec![]));
    assert!(matches!(accept_signed(&unsigned, longer), Err(EilError::UserOpNotSigned)));
    let mut changed = signed.clone();
    changed[1].paymaster_data = Some(vec![]);
    assert!(matches!(accept_signed(&unsigned, changed), Err(EilError::UserOpNotSigned)));
    let mut other_data = signed.clone();
    other_data[0].call_data = vec![7];
    assert!(matches!(accept_signed(&unsigned, other_data), Err(EilError::UserOpNotSigned)));
    assert!(unsigned[0].same_unsigned_as(&signed[0]));
    assert!(!unsigned[0].same_unsigned_as(&signed[1]));
    assert!(accept_signed(&vec![], vec![]).unwrap().is_empty());
}

#[test]
fn test_builder_takes_a_shared_account_of_any_kind() {
    let account: Arc<dyn MultiChainSmartAccount> = Arc::new(MockAccount::new());
    let executor = EilSdk::new(create_test_config(vec![1]))
        .create_builder()
        .use_account(account.clone())
        .unwrap()
        .start_batch(1)
        .add_action(transfer(1))
        .end_batch().unwrap()
        .build_and_sign()
        .unwrap();
    assert_eq!(executor.batches()[0].batch.user_op.signature, vec![0xab; 65]);
    assert!(account.address_on(1).is_ok());
}
