//! Scanner account state.

pub mod eligibility_anchor;
pub mod eligibility_cert;
pub mod launch_price;
pub mod protocol_config;

pub use eligibility_anchor::EligibilityAnchor;
pub use eligibility_cert::EligibilityCert;
pub use launch_price::LaunchPrice;
pub use protocol_config::ProtocolConfig;
