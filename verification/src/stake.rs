//! Stake pools and the registry that keeps track of them.

pub mod role;
pub mod pool_table;
pub mod delegation;
