//! Client-side SDK for cross-chain operations under account abstraction: one logical
//! intent, spread over per-chain batches of actions that hand value to each other
//! through vouchers, built and signed once and executed chain by chain.

use vstd::prelude::*;

pub mod primitives;
pub mod types;
pub mod config;
pub mod abi;
pub mod contract_types;
pub mod hashing;
pub mod multichain;
pub mod actions;
pub mod voucher;
pub mod xlp;
pub mod translation;
pub mod builder;
pub mod planning;
pub mod signing;
pub mod wiring;
pub mod executor;
pub mod account;
pub mod network;
pub mod utils;
pub mod test_utils;

mod error;

pub use error::{EilError, EilErrorView, Result};
pub use types::{
    to_address, Address, AddressPerChain, Amount, Call, ChainId, FunctionCall, Hex, MultiChainEntity,
    OperationStatus, RuntimeVar, TokenAmount, U256,
};

verus! {

/// Main entry point of the SDK.
pub struct EilSdk {
    config: config::CrossChainConfig,
    network_env: network::NetworkEnvironment,
}

impl EilSdk {
    /// The configuration the SDK was made with.
    pub closed spec fn spec_config(&self) -> config::CrossChainConfig {
        self.config
    }

    /// The network environment of the SDK.
    pub closed spec fn env(&self) -> network::NetworkEnvironment {
        self.network_env
    }

    /// Creates an SDK instance with the given configuration.
    pub fn new(config: config::CrossChainConfig) -> (r: Self)
        ensures
            r.spec_config() == config,
            r.env().spec_config()@ == config@,
    {
        let network_env = network::NetworkEnvironment::new(&config);
        EilSdk { config, network_env }
    }

    /// Creates a builder of a cross-chain operation in the network environment of the
    /// SDK: no batch, no voucher, no account.
    pub fn create_builder(&self) -> (r: builder::CrossChainBuilder)
        ensures
            r.wf(),
            r.env().spec_config()@ == self.env().spec_config()@,
            r.plans().len() == 0,
            r.registry().entries().len() == 0,
            r.bound_account() is None,
            !r.built(),
    {
        builder::CrossChainBuilder::new(&self.network_env)
    }

    /// Creates a multichain token with the given deployment addresses.
    pub fn create_token(&self, name: &str, deployments: multichain::AddressPerChain) -> (r:
        multichain::MultichainToken)
        ensures
            r.name@ == name@,
            r.deployments == deployments,
    {
        multichain::MultichainToken::new(name.to_owned(), deployments)
    }

    /// The network environment.
    pub fn network_env(&self) -> (r: &network::NetworkEnvironment)
        ensures
            *r == self.env(),
    {
        &self.network_env
    }
}

} // verus!
