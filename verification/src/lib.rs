//! Agent-to-agent service payments: a service registry, per-agent spending
//! budgets and a settlement ledger, each as a contract whose storage is a
//! value of this library and whose entry points are verified transitions.
pub mod budget;
pub mod host;
pub mod symbol_map;
pub mod registry;
pub mod settlement;
