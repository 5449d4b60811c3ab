//! Decision logic of the Vero guardian-consensus contract.
pub mod address;
pub mod circuit_breaker;
pub mod consensus;
pub mod contract;
pub mod drips;
pub mod reentrancy;
pub mod snapshot;
pub mod reputation;
pub mod staking;
pub mod task;
pub mod types;
