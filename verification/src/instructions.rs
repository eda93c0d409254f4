//! The four instructions of the vesting program, each as a decision over the
//! grant's state: what is refused and why, how the grant changes, and how
//! many tokens the program must move.

pub mod claim;
pub mod close;
pub mod create_vesting;
pub mod revoke;
