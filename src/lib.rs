//! Settlement engine for cross-border stable-value transfers: fee accounting,
//! transfer and withdrawal state machines, liquidity-provider ledger and
//! deterministic record addressing.
pub mod constants;
pub mod errors;
pub mod state;
pub mod addressing;
pub mod transfer;
pub mod withdrawal;
pub mod registry;
pub mod codec;
