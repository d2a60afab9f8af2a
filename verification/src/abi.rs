//! The boundary to the contract-ABI machinery: interface descriptions, selectors and
//! argument encoding are computed by `alloy`; this module states what the rest of the
//! library relies on.

use vstd::prelude::*;
use alloy::dyn_abi::DynSolValue;
use alloy::json_abi::JsonAbi;
use crate::actions::selector_of;
use crate::primitives::{zero_bytes, Address, U256};

verus! {

/// A parsed contract interface description.
#[verifier::external_type_specification]
#[verifier::external_body]
pub struct ExJsonAbi(JsonAbi);

/// A dynamically typed Solidity value.
#[verifier::external_type_specification]
#[verifier::external_body]
pub struct ExDynSolValue(DynSolValue);

/// `Clone` for interface descriptions: the copy describes the same interface.
pub assume_specification[ <JsonAbi as Clone>::clone ](abi: &JsonAbi) -> (r: JsonAbi)
    ensures
        r == *abi,
;

/// `Clone` for Solidity values: the copy is the same value.
pub assume_specification[ <DynSolValue as Clone>::clone ](value: &DynSolValue) -> (r: DynSolValue)
    ensures
        r == *value,
;

/// What an interface description holds for callers of functions: for each function
/// name that has at least one overload, the four-byte selector of its first overload.
pub uninterp spec fn abi_selectors(abi: JsonAbi) -> Map<Seq<char>, Seq<u8>>;

/// The bytes that `alloy` produces when it encodes `args` as the parameters of a call.
pub uninterp spec fn abi_encoded_params(args: Seq<DynSolValue>) -> Seq<u8>;

/// The Keccak-256 digest of `data`, as `alloy` computes it.
pub uninterp spec fn keccak256(data: Seq<u8>) -> Seq<u8>;

/// The address that `alloy` reads from a text: forty hexadecimal digits, with or
/// without the prefix `0x` or `0X`; nothing for any other text.
pub uninterp spec fn parsed_address(text: Seq<char>) -> Option<Address>;

/// The ABI encoding of the argument pair `(address, uint256)`: two 32-byte words, the
/// address left-padded with twelve zero bytes, the number big-endian.
pub open spec fn address_uint256_words(a: Address, v: U256) -> Seq<u8> {
    zero_bytes(12) + a.bytes() + v.bytes()
}

/// Standard ERC-20 interface (minimal).
pub const ERC20_ABI: &'static str = r#"[
  {
    "type": "function",
    "name": "balanceOf",
    "stateMutability": "view",
    "inputs": [{"name": "account", "type": "address"}],
    "outputs": [{"name": "", "type": "uint256"}]
  },
  {
    "type": "function",
    "name": "transfer",
    "stateMutability": "nonpayable",
    "inputs": [
      {"name": "to", "type": "address"},
      {"name": "amount", "type": "uint256"}
    ],
    "outputs": [{"name": "", "type": "bool"}]
  },
  {
    "type": "function",
    "name": "approve",
    "stateMutability": "nonpayable",
    "inputs": [
      {"name": "spender", "type": "address"},
      {"name": "amount", "type": "uint256"}
    ],
    "outputs": [{"name": "", "type": "bool"}]
  },
  {
    "type": "function",
    "name": "allowance",
    "stateMutability": "view",
    "inputs": [
      {"name": "owner", "type": "address"},
      {"name": "spender", "type": "address"}
    ],
    "outputs": [{"name": "", "type": "uint256"}]
  },
  {
    "type": "function",
    "name": "decimals",
    "stateMutability": "view",
    "inputs": [],
    "outputs": [{"name": "", "type": "uint8"}]
  },
  {
    "type": "function",
    "name": "symbol",
    "stateMutability": "view",
    "inputs": [],
    "outputs": [{"name": "", "type": "string"}]
  }
]"#;

/// What the ERC-20 interface above holds for callers of functions: its six functions,
/// each with the selector of its canonical signature.
pub open spec fn erc20_interface() -> Map<Seq<char>, Seq<u8>> {
    map![
        "balanceOf"@ => selector_of("balanceOf(address)"@),
        "transfer"@ => selector_of("transfer(address,uint256)"@),
        "approve"@ => selector_of("approve(address,uint256)"@),
        "allowance"@ => selector_of("allowance(address,address)"@),
        "decimals"@ => selector_of("decimals()"@),
        "symbol"@ => selector_of("symbol()"@),
    ]
}

/// `serde_json::from_str` on the ERC-20 interface above, a constant that parses. The
/// result holds the functions that the description lists, each once; the selector of
/// a function is, as `Function::selector` of `alloy` computes it, the first four bytes
/// of the Keccak-256 digest of its signature: its name, then the types of its inputs
/// in parentheses.
#[verifier::external_body]
pub(crate) fn erc20_abi() -> (abi: JsonAbi)
    ensures
        abi_selectors(abi) == erc20_interface(),
{
    serde_json::from_str(ERC20_ABI).expect("the ERC-20 interface description parses")
}

/// `JsonAbi::function` followed by `Function::selector` on the first overload: the
/// selector of the function called `name`, if the interface has one.
#[verifier::external_body]
pub(crate) fn function_selector(abi: &JsonAbi, name: &str) -> (r: Option<Vec<u8>>)
    ensures
        r is Some <==> abi_selectors(*abi).contains_key(name@),
        r matches Some(s) ==> s@ == abi_selectors(*abi)[name@],
{
    let function = abi.function(name)?.first()?;
    Some(function.selector().to_vec())
}

/// `Address::from_str` of `alloy`: the address a text denotes, or the decoder's
/// error, variant for variant.
#[verifier::external_body]
pub(crate) fn parse_address(text: &str) -> (r: std::result::Result<Address, hex::FromHexError>)
    ensures
        match parsed_address(text@) {
            Some(a) => r == Ok::<Address, hex::FromHexError>(a),
            None => r is Err,
        },
{
    match <alloy::primitives::Address as std::str::FromStr>::from_str(text) {
        Ok(a) => {
            let (hi, lo) = a.0.0.split_at(4);
            Ok(Address {
                hi: u32::from_be_bytes(hi.try_into().unwrap()),
                lo: u128::from_be_bytes(lo.try_into().unwrap()),
            })
        },
        Err(alloy::primitives::hex::FromHexError::InvalidHexCharacter { c, index }) => {
            Err(hex::FromHexError::InvalidHexCharacter { c, index })
        },
        Err(alloy::primitives::hex::FromHexError::OddLength) => Err(hex::FromHexError::OddLength),
        Err(_) => Err(hex::FromHexError::InvalidStringLength),
    }
}

/// `alloy::primitives::keccak256`: the 32-byte Keccak-256 digest of `data`.
#[verifier::external_body]
pub(crate) fn keccak(data: &Vec<u8>) -> (r: Vec<u8>)
    ensures
        r@ == keccak256(data@),
        r@.len() == 32,
{
    alloy::primitives::keccak256(data).to_vec()
}

/// `DynSolValue::abi_encode_params` on the tuple of `args`.
#[verifier::external_body]
pub(crate) fn encode_params(args: &Vec<DynSolValue>) -> (r: Vec<u8>)
    ensures
        r@ == abi_encoded_params(args@),
{
    DynSolValue::Tuple(args.clone()).abi_encode_params()
}

/// `DynSolValue::abi_encode` on the tuple `(address, uint256)`, for the address of the
/// twenty bytes `a` and the number of the 32 big-endian bytes `v`. Both members are
/// static types, so the encoding is the two words one after the other: the address
/// left-padded with twelve zero bytes, then the number.
#[verifier::external_body]
pub(crate) fn encode_address_uint256(a: &Vec<u8>, v: &Vec<u8>) -> (r: Vec<u8>)
    requires
        a@.len() == 20,
        v@.len() == 32,
    ensures
        r@ == zero_bytes(12) + a@ + v@,
{
    let address = alloy::primitives::Address::from_slice(a);
    let number = alloy::primitives::U256::from_be_slice(v);
    DynSolValue::Tuple(vec![DynSolValue::Address(address), DynSolValue::Uint(number, 256)])
        .abi_encode()
}

} // verus!
