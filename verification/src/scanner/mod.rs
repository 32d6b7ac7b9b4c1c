//! The scanner program: decides whether a pool is derelict and records the
//! two-phase eligibility trail (anchor, then certificate).

pub mod adapters;
pub mod constants;
pub mod criteria;
pub mod errors;
pub mod instructions;
pub mod state;
