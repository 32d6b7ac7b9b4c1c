//! The vault program: gates and records salvages against scanner
//! certificates, and accounts for LP-holder claims.

pub mod constants;
pub mod errors;
pub mod instructions;
pub mod state;
