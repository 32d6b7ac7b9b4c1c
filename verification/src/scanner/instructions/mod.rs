//! Scanner instructions, each a function from the accounts it reads (and
//! the clock) to the accounts it writes and the event it emits.

pub mod evaluate_pool_phase1;
pub mod evaluate_pool_phase2;
pub mod initialize;
pub mod invalidate_anchor;
pub mod record_launch_price;
pub mod sweep_stale_anchor;
pub mod update_protocol_config;
