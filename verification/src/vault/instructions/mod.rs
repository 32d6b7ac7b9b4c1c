//! Vault instructions, each a function from the accounts it reads (and the
//! clock) to the accounts it writes and the events it emits.

pub mod claim_lp_proceeds;
pub mod emergency_pause;
pub mod initialize;
pub mod salvage_pool;
pub mod update_protocol_config;
