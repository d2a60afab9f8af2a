//! Common chain ids, for convenience.

use vstd::prelude::*;

verus! {

pub const MAINNET: u64 = 1;

pub const OPTIMISM: u64 = 10;

pub const ARBITRUM: u64 = 42161;

pub const BASE: u64 = 8453;

pub const POLYGON: u64 = 137;

} // verus!
