use eil::account::MultiChainSmartAccount;
use eil::contract_types::{SingleChainBatch, UserOperation};
use eil::planning::{create_user_op, PlannedBatch};
use eil::signing::{attach_signatures, build_batches, ops_to_sign, sign_batches};
use eil::test_utils::MockAccount;
use eil::{Address, Call, EilError, Hex, U256};

/// An account that encodes the calls of every chain but one, and signs by a rule of its
/// own making.
struct Picky {
    refuses_chain: u64,
    keeps_order: bool,
}

impl MultiChainSmartAccount for Picky {
    fn account_address(&self, chain_id: u64) -> Option<Address> {
        self.address_on(chain_id).ok()
    }

    fn address_on(&self, chain_id: u64) -> eil::Result<Address> {
        Ok(Address::from_u128(chain_id as u128))
    }

    fn sign_user_ops(&self, user_ops: Vec<UserOperation>) -> eil::Result<Vec<UserOperation>> {
        let mut signed: Vec<UserOperation> = user_ops
            .into_iter()
            .map(|mut op| {
                op.signature = vec![op.chain_id.unwrap_or(0) as u8; 65];
                op
            })
            .collect();
        if !self.keeps_order {
            signed.reverse();
        }
        Ok(signed)
    }

    fn encode_calls(&self, chain_id: u64, calls: Vec<Call>) -> eil::Result<Hex> {
        if chain_id == self.refuses_chain {
            return Err(EilError::Generic(format!("no calls on chain {chain_id}")));
        }
        Ok(calls.into_iter().flat_map(|c| c.data).collect())
    }

    fn send_user_operation(&self, _user_op: UserOperation) -> eil::Result<Hex> {
        Ok(vec![])
    }

    fn verify_bundler_config(&self, _chain_id: u64, _entry_point: Address) -> eil::Result<()> {
        Ok(())
    }

    fn get_nonce(&self, _chain_id: u64) -> eil::Result<U256> {
        Ok(U256::from(0))
    }

    fn get_factory_args(&self, _chain_id: u64) -> eil::Result<(Option<Address>, Option<Hex>)> {
        Ok((None, None))
    }
}

fn planned(chain_id: u64, data: Vec<u8>) -> PlannedBatch {
    PlannedBatch {
        chain_id,
        entry_point: Address::from_u128(0xe),
        calls: vec![
            Call { target: Address::from_u128(1), data: data.clone(), value: None },
            Call { target: Address::from_u128(2), data, value: None },
        ],
        input_voucher_requests: vec![],
        out_voucher_requests: vec![],
    }
}

fn batch(chain_id: u64, call_data: Vec<u8>) -> SingleChainBatch {
    let user_op = create_user_op(chain_id, Address::from_u128(0xe), call_data);
    let user_op_hash = eil::hashing::compute_user_op_hash(&user_op).unwrap();
    SingleChainBatch {
        user_op,
        user_op_hash,
        chain_id,
        input_voucher_requests: vec![],
        out_voucher_requests: vec![],
    }
}

#[test]
fn test_build_batches_seals_each_batch_with_the_answer_of_the_account() {
    let account = Picky { refuses_chain: 99, keeps_order: true };
    let batches = build_batches(vec![planned(1, vec![1, 2]), planned(10, vec![3])], &account).unwrap();
    assert_eq!(batches.len(), 2);
    assert_eq!(batches[0].chain_id, 1);
    assert_eq!(batches[0].user_op.call_data, vec![1, 2, 1, 2]);
    assert_eq!(batches[0].user_op.chain_id, Some(1));
    assert_eq!(batches[0].user_op.entry_point_address, Some(Address::from_u128(0xe)));
    assert!(batches[0].user_op.signature.is_empty());
    assert_eq!(
        batches[0].user_op_hash,
        eil::hashing::compute_user_op_hash(&batches[0].user_op).unwrap()
    );
    assert_eq!(batches[1].chain_id, 10);
    assert_eq!(batches[1].user_op.call_data, vec![3, 3]);
}

#[test]
fn test_build_batches_of_no_batch_succeeds() {
    let account = Picky { refuses_chain: 1, keeps_order: true };
    assert!(build_batches(vec![], &account).unwrap().is_empty());
}

#[test]
fn test_build_batches_hands_on_the_first_refusal() {
    let account = Picky { refuses_chain: 10, keeps_order: true };
    match build_batches(vec![planned(1, vec![1]), planned(10, vec![2]), planned(10, vec![3])], &account) {
        Err(EilError::Generic(message)) => assert_eq!(message, "no calls on chain 10"),
        _ => panic!("Expected the error of the account"),
    }
}

#[test]
fn test_ops_to_sign_copies_the_operations_in_order() {
    let batches = vec![batch(1, vec![1]), batch(10, vec![2, 3])];
    let ops = ops_to_sign(&batches);
    assert_eq!(ops.len(), 2);
    assert_eq!(ops[0].call_data, vec![1]);
    assert_eq!(ops[0].chain_id, Some(1));
    assert_eq!(ops[1].call_data, vec![2, 3]);
    assert_eq!(ops[1].chain_id, Some(10));
    assert!(ops[0].same_unsigned_as(&batches[0].user_op));
    assert!(ops[0].signature.is_empty());
    assert!(ops_to_sign(&vec![]).is_empty());
}

#[test]
fn test_attach_signatures_puts_each_operation_into_its_batch() {
    let batches = vec![batch(1, vec![1]), batch(10, vec![2])];
    let mut answer = ops_to_sign(&batches);
    answer[0].signature = vec![7; 65];
    answer[1].signature = vec![8; 65];
    let signed = attach_signatures(batches.clone(), answer).unwrap();
    assert_eq!(signed.len(), 2);
    assert_eq!(signed[0].user_op.signature, vec![7; 65]);
    assert_eq!(signed[1].user_op.signature, vec![8; 65]);
    assert_eq!(signed[0].user_op.call_data, vec![1]);
    assert_eq!(signed[1].user_op.call_data, vec![2]);
    assert_eq!(signed[0].chain_id, 1);
    assert_eq!(signed[1].chain_id, 10);
    assert_eq!(signed[0].user_op_hash, batches[0].user_op_hash);
    assert_eq!(signed[1].user_op_hash, batches[1].user_op_hash);
    assert!(attach_signatures(vec![], vec![]).unwrap().is_empty());
}

#[test]
fn test_attach_signatures_refuses_what_breaks_the_rule() {
    let batches = vec![batch(1, vec![1]), batch(10, vec![2])];
    let answer = ops_to_sign(&batches);

    let mut swapped = answer.clone();
    swapped.swap(0, 1);
    assert!(matches!(attach_signatures(batches.clone(), swapped), Err(EilError::UserOpNotSigned)));

    let mut shorter = answer.clone();
    shorter.pop();
    assert!(matches!(attach_signatures(batches.clone(), shorter), Err(EilError::UserOpNotSigned)));

    let mut longer = answer.clone();
    longer.push(create_user_op(3, Address::from_u128(0xe), vec![]));
    assert!(matches!(attach_signatures(batches.clone(), longer), Err(EilError::UserOpNotSigned)));

    let mut changed = answer.clone();
    changed[1].nonce = U256::from(1);
    assert!(matches!(attach_signatures(batches.clone(), changed), Err(EilError::UserOpNotSigned)));

    assert!(matches!(attach_signatures(vec![], answer), Err(EilError::UserOpNotSigned)));
}

#[test]
fn test_sign_batches_with_the_mock_account() {
    let signed = sign_batches(vec![batch(1, vec![1]), batch(10, vec![2])], &MockAccount::new()).unwrap();
    assert_eq!(signed.len(), 2);
    assert_eq!(signed[0].user_op.signature, vec![0xab; 65]);
    assert_eq!(signed[1].user_op.signature, vec![0xab; 65]);
    assert_eq!(signed[0].user_op.call_data, vec![1]);
    assert_eq!(signed[1].user_op.call_data, vec![2]);
    assert_eq!(signed[1].chain_id, 10);
}

#[test]
fn test_sign_batches_holds_the_account_to_the_rule() {
    let batches = vec![batch(1, vec![1]), batch(10, vec![2])];
    let orderly = Picky { refuses_chain: 99, keeps_order: true };
    let signed = sign_batches(batches.clone(), &orderly).unwrap();
    assert_eq!(signed[0].user_op.signature, vec![1; 65]);
    assert_eq!(signed[1].user_op.signature, vec![10; 65]);

    let careless = Picky { refuses_chain: 99, keeps_order: false };
    assert!(matches!(sign_batches(batches, &careless), Err(EilError::UserOpNotSigned)));
    // one batch, or none, cannot be put out of order
    let one = sign_batches(vec![batch(1, vec![1])], &careless).unwrap();
    assert_eq!(one[0].user_op.signature, vec![1; 65]);
    assert!(sign_batches(vec![], &careless).unwrap().is_empty());
}
