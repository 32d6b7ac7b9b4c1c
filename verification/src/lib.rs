//! GraveYield: eligibility evaluation for derelict AMM pools (the scanner
//! program) and salvage settlement bookkeeping (the vault program), written
//! as verified state-transition functions over plain account data.

pub mod account;
pub mod clock;
pub mod laws;
pub mod pubkey;
pub mod scanner;
pub mod spl_token;
pub mod vault;
