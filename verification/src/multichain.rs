//! Entities that exist once per chain: contracts and ERC-20 tokens.

use vstd::prelude::*;
use alloy::json_abi::JsonAbi;
use crate::abi::{abi_selectors, erc20_abi, erc20_interface};
use crate::primitives::{Address, U256};
use crate::types::{ChainId, MultiChainEntity};

pub use crate::types::AddressPerChain;

verus! {

/// A contract deployed at one address per chain.
#[derive(Debug, Clone)]
pub struct MultichainContract {
    /// Contract ABI.
    pub abi: JsonAbi,
    /// Deployment addresses per chain.
    pub deployments: AddressPerChain,
}

impl MultichainContract {
    /// Creates a multichain contract from its ABI and its deployments.
    pub fn new(abi: JsonAbi, deployments: AddressPerChain) -> (r: Self)
        ensures
            r.abi == abi,
            r.deployments == deployments,
    {
        MultichainContract { abi, deployments }
    }

    /// The contract address on a specific chain.
    pub fn address_on(&self, chain_id: ChainId) -> (r: Option<Address>)
        ensures
            r == self.deployed_at(chain_id),
    {
        lookup_address(&self.deployments, chain_id)
    }

    /// Whether the contract is deployed on a chain.
    pub fn is_deployed_on(&self, chain_id: ChainId) -> (r: bool)
        ensures
            r == self.deployments@.contains_key(chain_id),
            r == self.deployed_at(chain_id).is_some(),
    {
        broadcast use vstd::std_specs::hash::group_hash_axioms;

        self.deployments.contains_key(&chain_id)
    }
}

impl MultiChainEntity for MultichainContract {
    open spec fn deployed_at(&self, chain_id: ChainId) -> Option<Address> {
        deployment(self.deployments@, chain_id)
    }

    fn address_on(&self, chain_id: ChainId) -> (r: Option<Address>) {
        lookup_address(&self.deployments, chain_id)
    }
}

/// The address that `deployments` holds for `chain_id`, if any.
pub open spec fn deployment(deployments: Map<ChainId, Address>, chain_id: ChainId) -> Option<
    Address,
> {
    if deployments.contains_key(chain_id) {
        Some(deployments[chain_id])
    } else {
        None
    }
}

fn lookup_address(deployments: &AddressPerChain, chain_id: ChainId) -> (r: Option<Address>)
    ensures
        r == deployment(deployments@, chain_id),
{
    broadcast use vstd::std_specs::hash::group_hash_axioms;

    match deployments.get(&chain_id) {
        Some(a) => Some(*a),
        None => None,
    }
}

/// An ERC-20 token deployed at one address per chain.
#[derive(Debug, Clone)]
pub struct MultichainToken {
    /// Token name/symbol.
    pub name: String,
    /// Deployment addresses per chain.
    pub deployments: AddressPerChain,
}

/// What a `MultichainToken` stands for.
pub struct MultichainTokenView {
    pub name: Seq<char>,
    pub deployments: Map<ChainId, Address>,
}

impl View for MultichainToken {
    type V = MultichainTokenView;

    open spec fn view(&self) -> MultichainTokenView {
        MultichainTokenView { name: self.name@, deployments: self.deployments@ }
    }
}

impl MultichainToken {
    /// Creates a multichain token from its name and its deployments.
    pub fn new(name: String, deployments: AddressPerChain) -> (r: Self)
        ensures
            r.name == name,
            r.deployments == deployments,
    {
        MultichainToken { name, deployments }
    }

    /// The token address on a specific chain.
    pub fn address_on(&self, chain_id: ChainId) -> (r: Option<Address>)
        ensures
            r == deployment(self@.deployments, chain_id),
            r == self.deployed_at(chain_id),
    {
        lookup_address(&self.deployments, chain_id)
    }

    /// Whether the token is deployed on a chain.
    pub fn is_deployed_on(&self, chain_id: ChainId) -> (r: bool)
        ensures
            r == self.deployments@.contains_key(chain_id),
            r == self.deployed_at(chain_id).is_some(),
    {
        broadcast use vstd::std_specs::hash::group_hash_axioms;

        self.deployments.contains_key(&chain_id)
    }

    /// The standard ERC-20 interface, which every token shares: the functions
    /// `balanceOf`, `transfer`, `approve`, `allowance`, `decimals` and `symbol`, each with
    /// the selector of its signature.
    pub fn abi(&self) -> (abi: JsonAbi)
        ensures
            abi_selectors(abi) == erc20_interface(),
    {
        erc20_abi()
    }

    /// A copy of this token.
    pub fn duplicate(&self) -> (r: MultichainToken)
        ensures
            r@ == self@,
    {
        MultichainToken { name: self.name.clone(), deployments: self.deployments.clone() }
    }
}

impl MultiChainEntity for MultichainToken {
    open spec fn deployed_at(&self, chain_id: ChainId) -> Option<Address> {
        deployment(self.deployments@, chain_id)
    }

    fn address_on(&self, chain_id: ChainId) -> (r: Option<Address>) {
        lookup_address(&self.deployments, chain_id)
    }
}

/// Result of a total balance query across chains.
#[derive(Debug, Clone)]
pub struct TotalBalanceOfResult {
    /// Balance per chain.
    pub per_chain_balance: Vec<(ChainId, U256)>,
    /// Total balance across all chains.
    pub total_balance: U256,
}

} // verus!
