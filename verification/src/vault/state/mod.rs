//! Vault account state.

pub mod claim_record;
pub mod pool_registry;
pub mod protocol_config;
pub mod salvage_receipt;

pub use claim_record::ClaimRecord;
pub use pool_registry::PoolRegistry;
pub use protocol_config::ProtocolConfig;
pub use salvage_receipt::SalvageReceipt;
