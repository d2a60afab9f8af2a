//! The smart-account interface: what the builder and the executor need from an
//! account that exists on several chains, and a base implementation over a signer and a
//! bundler.

use vstd::prelude::*;
use std::collections::HashMap;
use std::sync::Arc;
use crate::contract_types::UserOperation;
use crate::error::{EilError, EilErrorView, Result};
use crate::hashing::{compute_user_op_hash, user_op_hash_of};
use crate::multichain::deployment;
use crate::primitives::{Address, U256};
use crate::types::{Call, ChainId, Hex};

verus! {

/// What signing may change: `signed` holds as many operations as `unsigned`, in the
/// same order, and each differs from the unsigned one in the account signature at most.
pub open spec fn signed_in_order(unsigned: Seq<UserOperation>, signed: Seq<UserOperation>) -> bool {
    &&& signed.len() == unsigned.len()
    &&& forall|i: int|
        0 <= i < unsigned.len() ==> unsigned[i]@.same_unsigned((#[trigger] signed[i])@)
}

/// Signing is length-preserving and touches the signature only: where `signed` is what
/// signing made of `unsigned`, there are as many operations as before and every field of
/// every operation but the account signature is as it was.
pub proof fn lemma_signing_keeps_all_but_signatures(
    unsigned: Seq<UserOperation>,
    signed: Seq<UserOperation>,
    i: int,
)
    requires
        signed_in_order(unsigned, signed),
        0 <= i < unsigned.len(),
    ensures
        signed.len() == unsigned.len(),
        signed[i]@.sender == unsigned[i]@.sender,
        signed[i]@.nonce == unsigned[i]@.nonce,
        signed[i]@.factory == unsigned[i]@.factory,
        signed[i]@.factory_data == unsigned[i]@.factory_data,
        signed[i]@.call_data == unsigned[i]@.call_data,
        signed[i]@.call_gas_limit == unsigned[i]@.call_gas_limit,
        signed[i]@.verification_gas_limit == unsigned[i]@.verification_gas_limit,
        signed[i]@.pre_verification_gas == unsigned[i]@.pre_verification_gas,
        signed[i]@.max_fee_per_gas == unsigned[i]@.max_fee_per_gas,
        signed[i]@.max_priority_fee_per_gas == unsigned[i]@.max_priority_fee_per_gas,
        signed[i]@.paymaster == unsigned[i]@.paymaster,
        signed[i]@.paymaster_verification_gas_limit == unsigned[i]@.paymaster_verification_gas_limit,
        signed[i]@.paymaster_post_op_gas_limit == unsigned[i]@.paymaster_post_op_gas_limit,
        signed[i]@.paymaster_data == unsigned[i]@.paymaster_data,
        signed[i]@.paymaster_signature == unsigned[i]@.paymaster_signature,
        signed[i]@.chain_id == unsigned[i]@.chain_id,
        signed[i]@.entry_point_address == unsigned[i]@.entry_point_address,
{
    assert(unsigned[i]@.same_unsigned(signed[i]@));
}

/// The outcome of an address lookup: the address, or `UnsupportedChain`.
pub open spec fn address_outcome(address: Option<Address>, chain_id: ChainId) -> Result<Address> {
    match address {
        Some(a) => Ok(a),
        None => Err(EilError::UnsupportedChain(chain_id)),
    }
}

/// Holds what an account returned from signing to the rule of signing: accepts it if
/// it holds one operation per unsigned operation, in the same order, each equal to
/// the unsigned one in all but the account signature; refuses it with
/// `UserOpNotSigned` otherwise.
pub fn accept_signed(unsigned: &Vec<UserOperation>, signed: Vec<UserOperation>) -> (r: Result<
    Vec<UserOperation>,
>)
    ensures
        r is Ok <==> signed_in_order(unsigned@, signed@),
        r matches Ok(v) ==> v == signed,
        r matches Err(e) ==> e == EilError::UserOpNotSigned,
{
    if signed.len() != unsigned.len() {
        return Err(EilError::UserOpNotSigned);
    }
    let mut i: usize = 0;
    while i < unsigned.len()
        invariant
            i <= unsigned.len(),
            signed.len() == unsigned.len(),
            forall|k: int| 0 <= k < i ==> unsigned@[k]@.same_unsigned((#[trigger] signed@[k])@),
        decreases unsigned.len() - i,
    {
        if !unsigned[i].same_unsigned_as(&signed[i]) {
            return Err(EilError::UserOpNotSigned);
        }
        i = i + 1;
    }
    Ok(signed)
}

/// A smart account that exists on several chains.
pub trait MultiChainSmartAccount: Send + Sync {
    /// The address of the account on a chain, if it has one there: the model of what
    /// `address_on` answers.
    spec fn account_address(&self, chain_id: ChainId) -> Option<Address>;

    /// The account address on a specific chain, or `UnsupportedChain`.
    fn address_on(&self, chain_id: ChainId) -> (r: Result<Address>)
        ensures
            r == address_outcome(self.account_address(chain_id), chain_id),
    ;

    /// Signs the operations of one cross-chain session in a single call. An
    /// implementation is to return one operation per operation given, in the same
    /// order, with the signature filled in and every other field as it was; it may fail
    /// with any error. Whoever calls holds the answer to this rule with
    /// `accept_signed`.
    fn sign_user_ops(&self, user_ops: Vec<UserOperation>) -> (r: Result<Vec<UserOperation>>);

    /// Encodes calls into the calldata of a user operation on a chain.
    fn encode_calls(&self, chain_id: ChainId, calls: Vec<Call>) -> (r: Result<Hex>);

    /// Encodes calls that use no runtime variable; by default as `encode_calls` does.
    fn encode_static_calls(&self, chain_id: ChainId, calls: Vec<Call>) -> (r: Result<Hex>) {
        self.encode_calls(chain_id, calls)
    }

    /// Sends a user operation to the bundler and returns its hash.
    fn send_user_operation(&self, user_op: UserOperation) -> (r: Result<Hex>);

    /// Checks that the bundler of a chain serves the entry point.
    fn verify_bundler_config(&self, chain_id: ChainId, entry_point: Address) -> (r: Result<()>);

    /// The next nonce of the account on a chain.
    fn get_nonce(&self, chain_id: ChainId) -> (r: Result<U256>);

    /// The factory and factory data that deploy the account on a chain where it is not
    /// deployed yet.
    fn get_factory_args(&self, chain_id: ChainId) -> (r: Result<(Option<Address>, Option<Hex>)>);
}

impl<T: MultiChainSmartAccount + ?Sized> MultiChainSmartAccount for Arc<T> {
    open spec fn account_address(&self, chain_id: ChainId) -> Option<Address> {
        (**self).account_address(chain_id)
    }

    fn address_on(&self, chain_id: ChainId) -> (r: Result<Address>) {
        (**self).address_on(chain_id)
    }

    /// Answers as the shared account does.
    fn sign_user_ops(&self, user_ops: Vec<UserOperation>) -> (r: Result<Vec<UserOperation>>)
        ensures
            call_ensures(T::sign_user_ops, (&**self, user_ops), r),
    {
        (**self).sign_user_ops(user_ops)
    }

    /// Answers as the shared account does.
    fn encode_calls(&self, chain_id: ChainId, calls: Vec<Call>) -> (r: Result<Hex>)
        ensures
            call_ensures(T::encode_calls, (&**self, chain_id, calls), r),
    {
        (**self).encode_calls(chain_id, calls)
    }

    /// Answers as the shared account does.
    fn encode_static_calls(&self, chain_id: ChainId, calls: Vec<Call>) -> (r: Result<Hex>)
        ensures
            call_ensures(T::encode_static_calls, (&**self, chain_id, calls), r),
    {
        (**self).encode_static_calls(chain_id, calls)
    }

    /// Answers as the shared account does.
    fn send_user_operation(&self, user_op: UserOperation) -> (r: Result<Hex>)
        ensures
            call_ensures(T::send_user_operation, (&**self, user_op), r),
    {
        (**self).send_user_operation(user_op)
    }

    /// Answers as the shared account does.
    fn verify_bundler_config(&self, chain_id: ChainId, entry_point: Address) -> (r: Result<()>)
        ensures
            call_ensures(T::verify_bundler_config, (&**self, chain_id, entry_point), r),
    {
        (**self).verify_bundler_config(chain_id, entry_point)
    }

    /// Answers as the shared account does.
    fn get_nonce(&self, chain_id: ChainId) -> (r: Result<U256>)
        ensures
            call_ensures(T::get_nonce, (&**self, chain_id), r),
    {
        (**self).get_nonce(chain_id)
    }

    /// Answers as the shared account does.
    fn get_factory_args(&self, chain_id: ChainId) -> (r: Result<(Option<Address>, Option<Hex>)>)
        ensures
            call_ensures(T::get_factory_args, (&**self, chain_id), r),
    {
        (**self).get_factory_args(chain_id)
    }
}

/// Signs user operation hashes.
pub trait Signer: Send + Sync {
    /// Signs the 32-byte hash of a user operation.
    fn sign(&self, hash: &Hex) -> (r: Result<Hex>)
        requires
            hash@.len() == 32,
    ;

    /// The address of the signer.
    fn address(&self) -> (r: Address);
}

/// Submits user operations to a bundler.
pub trait BundlerManager: Send + Sync {
    /// Sends a user operation to the bundler of its chain.
    fn send_user_operation(&self, user_op: &UserOperation, entry_point: Address) -> (r: Result<
        Hex,
    >);

    /// Checks that the bundler of a chain supports the entry point.
    fn verify_entry_point(&self, chain_id: ChainId, entry_point: Address) -> (r: Result<()>);
}

/// Whether `answer` is what the signer may answer when it is asked to sign the hash of
/// the operation `op`.
pub open spec fn signer_answers<S: Signer>(signer: &S, op: UserOperation, answer: Result<Hex>) -> bool {
    &&& user_op_hash_of(op@) is Some
    &&& exists|hash: Hex|
        hash@ == user_op_hash_of(op@)->0 && #[trigger] call_ensures(S::sign, (signer, &hash), answer)
}

/// A smart account made of its addresses, a signer and a bundler manager.
pub struct BaseMultichainSmartAccount<S, B> {
    /// Addresses per chain.
    pub addresses: HashMap<ChainId, Address>,
    /// Signer (for signing user operations).
    pub signer: S,
    /// Bundler manager (for sending user operations).
    pub bundler_manager: B,
}

/// Looks a chain up in a table of addresses.
pub fn lookup_account_address(addresses: &HashMap<ChainId, Address>, chain_id: ChainId) -> (r:
    Result<Address>)
    ensures
        r == address_outcome(deployment(addresses@, chain_id), chain_id),
{
    broadcast use vstd::std_specs::hash::group_hash_axioms;

    match addresses.get(&chain_id) {
        Some(a) => Ok(*a),
        None => Err(EilError::UnsupportedChain(chain_id)),
    }
}

impl<S: Signer, B: BundlerManager> MultiChainSmartAccount for BaseMultichainSmartAccount<S, B> {
    open spec fn account_address(&self, chain_id: ChainId) -> Option<Address> {
        deployment(self.addresses@, chain_id)
    }

    fn address_on(&self, chain_id: ChainId) -> (r: Result<Address>) {
        lookup_account_address(&self.addresses, chain_id)
    }

    /// Signs each operation's hash with the signer, in order, and puts each signature
    /// into its operation. The call ends at the first operation that cannot be signed:
    /// with a `Generic` error where the operation has no hash, because it does not say
    /// which chain and entry point it is for, and else with the error of the signer.
    fn sign_user_ops(&self, user_ops: Vec<UserOperation>) -> (r: Result<Vec<UserOperation>>)
        ensures
            r matches Ok(signed) ==> signed_in_order(user_ops@, signed@) && forall|i: int|
                0 <= i < user_ops@.len() ==> signer_answers(
                    &self.signer,
                    #[trigger] user_ops@[i],
                    Ok(signed@[i].signature),
                ),
            r matches Err(e) ==> exists|i: int|
                {
                    &&& 0 <= i < user_ops@.len()
                    &&& forall|k: int|
                        0 <= k < i ==> user_op_hash_of((#[trigger] user_ops@[k])@) is Some
                    &&& if user_op_hash_of(user_ops@[i]@) is None {
                        e matches EilError::Generic(_)
                    } else {
                        signer_answers(&self.signer, #[trigger] user_ops@[i], Err(e))
                    }
                },
    {
        let mut ops = user_ops;
        let mut i: usize = 0;
        while i < ops.len()
            invariant
                i <= ops.len(),
                signed_in_order(user_ops@, ops@),
                forall|k: int| i <= k < ops@.len() ==> #[trigger] ops@[k] == user_ops@[k],
                forall|k: int|
                    0 <= k < i ==> signer_answers(
                        &self.signer,
                        #[trigger] user_ops@[k],
                        Ok(ops@[k].signature),
                    ),
            decreases ops.len() - i,
        {
            assert(ops@[i as int] == user_ops@[i as int]);
            let hash = match compute_user_op_hash(&ops[i]) {
                Ok(h) => h,
                Err(e) => {
                    return Err(e);
                },
            };
            let signature = match self.signer.sign(&hash) {
                Ok(s) => s,
                Err(e) => {
                    assert(signer_answers(&self.signer, user_ops@[i as int], Err(e)));
                    return Err(e);
                },
            };
            let ghost before = ops@;
            ops[i].signature = signature;
            proof {
                assert(signer_answers(&self.signer, user_ops@[i as int], Ok(signature)));
                assert forall|k: int| 0 <= k < user_ops@.len() implies user_ops@[k]@.same_unsigned(
                    (#[trigger] ops@[k])@,
                ) by {
                    assert(user_ops@[k]@.same_unsigned(before[k]@));
                }
                assert forall|k: int| 0 <= k < i + 1 implies signer_answers(
                    &self.signer,
                    #[trigger] user_ops@[k],
                    Ok(ops@[k].signature),
                ) by {
                    if k < i {
                        assert(ops@[k] == before[k]);
                    }
                }
            }
            i = i + 1;
        }
        Ok(ops)
    }

    /// The base account leaves the encoding to the accounts built on it: its
    /// calldata is empty whatever the calls.
    fn encode_calls(&self, _chain_id: ChainId, _calls: Vec<Call>) -> (r: Result<Hex>)
        ensures
            r matches Ok(data) && data@.len() == 0,
    {
        Ok(Vec::new())
    }

    /// Hands the operation to the bundler manager, for the entry point the operation
    /// names; without one the call fails with a `Generic` error.
    fn send_user_operation(&self, user_op: UserOperation) -> (r: Result<Hex>)
        ensures
            match user_op.entry_point_address {
                Some(entry_point) => call_ensures(
                    B::send_user_operation,
                    (&self.bundler_manager, &user_op, entry_point),
                    r,
                ),
                None => r matches Err(e) && e@ == EilErrorView::Generic("EntryPoint address not set"@),
            },
    {
        match user_op.entry_point_address {
            Some(entry_point) => self.bundler_manager.send_user_operation(&user_op, entry_point),
            None => Err(EilError::Generic("EntryPoint address not set".to_owned())),
        }
    }

    /// Answers as the bundler manager does when asked whether it supports the entry
    /// point on the chain.
    fn verify_bundler_config(&self, chain_id: ChainId, entry_point: Address) -> (r: Result<()>)
        ensures
            call_ensures(
                B::verify_entry_point,
                (&self.bundler_manager, chain_id, entry_point),
                r,
            ),
    {
        self.bundler_manager.verify_entry_point(chain_id, entry_point)
    }

    /// The base account does not track nonces: the nonce is zero.
    fn get_nonce(&self, _chain_id: ChainId) -> (r: Result<U256>)
        ensures
            r == Ok::<U256, EilError>(U256::spec_from_u64(0)),
    {
        Ok(U256::from_u64(0))
    }

    /// The base account counts as deployed, so there is no factory.
    fn get_factory_args(&self, _chain_id: ChainId) -> (r: Result<(Option<Address>, Option<Hex>)>)
        ensures
            r matches Ok(args) && args.0 is None && args.1 is None,
    {
        Ok((None, None))
    }
}

} // verus!
