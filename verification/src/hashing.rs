//! The hash under which a user operation is signed and tracked: the EIP-712 hash of
//! the operation, packed as the ERC-4337 entry point packs it, in the domain of the entry
//! point and the chain the operation is meant for.

use vstd::prelude::*;
use vstd::string::StrSliceExecFns;
use crate::abi::{keccak, keccak256};
use crate::contract_types::{UserOperation, UserOperationView};
use crate::error::{EilError, Result};
use crate::primitives::{be_bytes, lemma_be_bytes_len, push_be_bytes, zero_bytes, Address, U256};
use crate::types::{ChainId, Hex};

verus! {

/// An address as a 32-byte word: twelve zero bytes, then the address.
pub open spec fn address_word(a: Address) -> Seq<u8> {
    zero_bytes(12) + a.bytes()
}

/// The low 128 bits of a number, as sixteen big-endian bytes.
pub open spec fn low_half(v: U256) -> Seq<u8> {
    be_bytes(v.lo as nat, 16)
}

/// The bytes of an optional blob; none is empty.
pub open spec fn bytes_or_empty(o: Option<Seq<u8>>) -> Seq<u8> {
    match o {
        Some(b) => b,
        None => Seq::empty(),
    }
}

/// An optional number; none is zero.
pub open spec fn number_or_zero(o: Option<U256>) -> U256 {
    match o {
        Some(v) => v,
        None => U256::spec_from_u64(0),
    }
}

/// The factory address followed by its data; empty without a factory.
pub open spec fn init_code(op: UserOperationView) -> Seq<u8> {
    match op.factory {
        Some(f) => f.bytes() + bytes_or_empty(op.factory_data),
        None => Seq::empty(),
    }
}

/// The paymaster address, its two gas limits (sixteen bytes each) and its data; empty
/// without a paymaster.
pub open spec fn paymaster_and_data(op: UserOperationView) -> Seq<u8> {
    match op.paymaster {
        Some(p) => p.bytes() + low_half(number_or_zero(op.paymaster_verification_gas_limit))
            + low_half(number_or_zero(op.paymaster_post_op_gas_limit)) + bytes_or_empty(
            op.paymaster_data,
        ),
        None => Seq::empty(),
    }
}

/// The fields of a user operation as the entry point packs them: eight 32-byte
/// words. Neither signature is part of them.
pub open spec fn packed_user_op(op: UserOperationView) -> Seq<u8> {
    address_word(op.sender) + op.nonce.bytes() + keccak256(init_code(op)) + keccak256(
        op.call_data,
    ) + (low_half(op.verification_gas_limit) + low_half(op.call_gas_limit))
        + op.pre_verification_gas.bytes() + (low_half(op.max_priority_fee_per_gas) + low_half(
        op.max_fee_per_gas,
    )) + keccak256(paymaster_and_data(op))
}

/// The Keccak-256 digest of a text in UTF-8.
pub open spec fn text_hash(text: Seq<char>) -> Seq<u8> {
    keccak256(vstd::utf8::encode_utf8(text))
}

/// The EIP-712 type of a signing domain.
pub open spec fn domain_type() -> Seq<char> {
    "EIP712Domain(string name,string version,uint256 chainId,address verifyingContract)"@
}

/// The EIP-712 type of a packed user operation.
pub open spec fn user_op_type() -> Seq<char> {
    "PackedUserOperation(address sender,uint256 nonce,bytes initCode,bytes callData,bytes32 accountGasLimits,uint256 preVerificationGas,bytes32 gasFees,bytes paymasterAndData)"@
}

/// The separator of the domain `ERC4337`, version `1`, of an entry point on a chain.
pub open spec fn domain_separator(entry_point: Address, chain_id: ChainId) -> Seq<u8> {
    keccak256(
        text_hash(domain_type()) + text_hash("ERC4337"@) + text_hash("1"@) + U256::spec_from_u64(
            chain_id,
        ).bytes() + address_word(entry_point),
    )
}

/// The EIP-712 struct hash of a user operation.
pub open spec fn struct_hash(op: UserOperationView) -> Seq<u8> {
    keccak256(text_hash(user_op_type()) + packed_user_op(op))
}

/// The hash of a user operation for an entry point on a chain.
pub open spec fn user_op_digest(op: UserOperationView, entry_point: Address, chain_id: ChainId) -> Seq<
    u8,
> {
    keccak256(seq![0x19u8, 0x01u8] + domain_separator(entry_point, chain_id) + struct_hash(op))
}

/// The hash of a user operation, or nothing where the operation does not say which
/// entry point and chain it is for.
pub open spec fn user_op_hash_of(op: UserOperationView) -> Option<Seq<u8>> {
    match (op.chain_id, op.entry_point_address) {
        (Some(chain_id), Some(entry_point)) => Some(user_op_digest(op, entry_point, chain_id)),
        _ => None,
    }
}

/// Appends `src` to `buf`.
pub fn append_bytes(buf: &mut Vec<u8>, src: &Vec<u8>)
    ensures
        final(buf)@ == old(buf)@ + src@,
{
    let mut i: usize = 0;
    while i < src.len()
        invariant
            i <= src.len(),
            buf@ == old(buf)@ + src@.subrange(0, i as int),
        decreases src.len() - i,
    {
        buf.push(src[i]);
        i = i + 1;
        assert(buf@ =~= old(buf)@ + src@.subrange(0, i as int));
    }
    assert(src@.subrange(0, i as int) =~= src@);
}

fn push_address_word(buf: &mut Vec<u8>, a: Address)
    ensures
        final(buf)@ == old(buf)@ + address_word(a),
{
    push_be_bytes(buf, 0, 12);
    let bytes = a.to_bytes();
    append_bytes(buf, &bytes);
    proof {
        lemma_zero_bytes(12);
        assert(buf@ =~= old(buf)@ + address_word(a));
    }
}

/// The big-endian bytes of zero are zero bytes.
pub proof fn lemma_zero_bytes(n: nat)
    ensures
        be_bytes(0, n) == zero_bytes(n),
    decreases n,
{
    lemma_be_bytes_len(0, n);
    if n > 0 {
        lemma_zero_bytes((n - 1) as nat);
        assert(be_bytes(0, n) =~= zero_bytes(n));
    } else {
        assert(be_bytes(0, n) =~= zero_bytes(n));
    }
}

fn init_code_bytes(op: &UserOperation) -> (r: Vec<u8>)
    ensures
        r@ == init_code(op@),
{
    let mut r: Vec<u8> = Vec::new();
    match op.factory {
        Some(f) => {
            let fb = f.to_bytes();
            append_bytes(&mut r, &fb);
            match &op.factory_data {
                Some(d) => {
                    append_bytes(&mut r, d);
                },
                None => {},
            }
            assert(r@ =~= init_code(op@));
        },
        None => {},
    }
    r
}

fn paymaster_and_data_bytes(op: &UserOperation) -> (r: Vec<u8>)
    ensures
        r@ == paymaster_and_data(op@),
{
    let mut r: Vec<u8> = Vec::new();
    match op.paymaster {
        Some(p) => {
            let pb = p.to_bytes();
            append_bytes(&mut r, &pb);
            let verification: U256 = match op.paymaster_verification_gas_limit {
                Some(v) => v,
                None => U256::from_u64(0),
            };
            let post_op: U256 = match op.paymaster_post_op_gas_limit {
                Some(v) => v,
                None => U256::from_u64(0),
            };
            push_be_bytes(&mut r, verification.lo, 16);
            push_be_bytes(&mut r, post_op.lo, 16);
            match &op.paymaster_data {
                Some(d) => {
                    append_bytes(&mut r, d);
                },
                None => {},
            }
            assert(r@ =~= paymaster_and_data(op@));
        },
        None => {},
    }
    r
}

/// Computes the hash of a user operation. Fails (with a `Generic` error) where the
/// operation does not carry the chain id and the entry point it is meant for.
pub fn compute_user_op_hash(op: &UserOperation) -> (r: Result<Hex>)
    ensures
        match user_op_hash_of(op@) {
            Some(h) => r matches Ok(hash) && hash@ == h && hash@.len() == 32,
            None => r matches Err(EilError::Generic(_)),
        },
{
    let chain_id: ChainId = match op.chain_id {
        Some(c) => c,
        None => {
            return Err(EilError::Generic("user operation without a chain id".to_owned()));
        },
    };
    let entry_point: Address = match op.entry_point_address {
        Some(a) => a,
        None => {
            return Err(EilError::Generic("user operation without an entry point".to_owned()));
        },
    };
    let init = init_code_bytes(op);
    let init_hash = keccak(&init);
    let call_hash = keccak(&op.call_data);
    let paymaster = paymaster_and_data_bytes(op);
    let paymaster_hash = keccak(&paymaster);

    let mut packed: Vec<u8> = hash_text(
        "PackedUserOperation(address sender,uint256 nonce,bytes initCode,bytes callData,bytes32 accountGasLimits,uint256 preVerificationGas,bytes32 gasFees,bytes paymasterAndData)",
    );
    push_address_word(&mut packed, op.sender);
    let nonce = op.nonce.to_be_bytes();
    append_bytes(&mut packed, &nonce);
    append_bytes(&mut packed, &init_hash);
    append_bytes(&mut packed, &call_hash);
    push_be_bytes(&mut packed, op.verification_gas_limit.lo, 16);
    push_be_bytes(&mut packed, op.call_gas_limit.lo, 16);
    let pre = op.pre_verification_gas.to_be_bytes();
    append_bytes(&mut packed, &pre);
    push_be_bytes(&mut packed, op.max_priority_fee_per_gas.lo, 16);
    push_be_bytes(&mut packed, op.max_fee_per_gas.lo, 16);
    append_bytes(&mut packed, &paymaster_hash);
    assert(packed@ =~= text_hash(user_op_type()) + packed_user_op(op@));
    let op_hash = keccak(&packed);

    let mut domain: Vec<u8> = hash_text(
        "EIP712Domain(string name,string version,uint256 chainId,address verifyingContract)",
    );
    let name = hash_text("ERC4337");
    append_bytes(&mut domain, &name);
    let version = hash_text("1");
    append_bytes(&mut domain, &version);
    let chain = U256::from_u64(chain_id).to_be_bytes();
    append_bytes(&mut domain, &chain);
    push_address_word(&mut domain, entry_point);
    let separator = keccak(&domain);

    let mut message: Vec<u8> = Vec::new();
    message.push(0x19);
    message.push(0x01);
    append_bytes(&mut message, &separator);
    append_bytes(&mut message, &op_hash);
    assert(message@ =~= seq![0x19u8, 0x01u8] + domain_separator(entry_point, chain_id) + struct_hash(
        op@,
    ));
    Ok(keccak(&message))
}

/// The Keccak-256 digest of a text in UTF-8.
pub fn hash_text(text: &str) -> (r: Vec<u8>)
    ensures
        r@ == text_hash(text@),
        r@.len() == 32,
{
    let bytes = text.as_bytes_vec();
    keccak(&bytes)
}

} // verus!
