//! A time-locked token escrow that shares a liquidity pool's trading fees
//! with the depositor while the tokens stay locked.

pub mod address;
pub mod locker;
pub mod pool;
