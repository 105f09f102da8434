//! Session engine of a UDP relay: a pool of relay ports, the manager that
//! hands port pairs to sessions and takes them back, and the per-session
//! forwarding rules, each with a machine-checked contract.

pub mod endpoint;
pub mod ledger;
pub mod manager;
pub mod pool;
pub mod relay;
pub mod trace;
