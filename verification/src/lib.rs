//! Time-locked token grants: linear vesting with an optional cliff and a
//! creator revoke.
//!
//! The library decides every instruction of the vesting program over plain
//! values: who may act, what is refused and why, how the grant's record
//! changes, and how many tokens must move. Reading accounts and the clock and
//! performing token transfers is left to the program that calls it.

pub mod constants;
pub mod error;
pub mod instructions;
pub mod math;
pub mod state;
pub mod token_ext;

pub use constants::{vesting_signer_seeds, VESTING_SEED};
pub use instructions::create_vesting::CreateVestingParams;
pub use state::Vesting;
