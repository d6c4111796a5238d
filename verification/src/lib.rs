//! An in-memory cache of automated-market-maker liquidity-pool states,
//! keyed by pool account address, covering constant-product (V2-style)
//! and concentrated-liquidity (V3-style) pools.

mod address;
mod manager;
mod pool;
mod uint256;

pub use address::Address;
pub use manager::{PoolState, Protocol, StateManager};
pub use pool::{PoolStateV2, PoolStateV3};
pub use uint256::U256;
