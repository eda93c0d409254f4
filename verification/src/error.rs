//! Errors the vesting program reports.

use vstd::prelude::*;

verus! {

/// Why an instruction was refused.
#[derive(Debug, Clone, Copy, PartialEq, Eq, Structural)]
pub enum VestingError {
    /// `start_ts` must be `<= cliff_ts` and `cliff_ts` must be `< end_ts`.
    InvalidSchedule,
    /// `total_amount` must be greater than zero.
    InvalidAmount,
    /// The creator's token account does not hold enough to fund the grant.
    InsufficientFunds,
    /// Nothing is claimable at this time.
    NothingToClaim,
    /// The grant is not revocable.
    NotRevocable,
    /// The grant has already been revoked.
    AlreadyRevoked,
    /// Only the grant creator can perform this action.
    UnauthorizedCreator,
    /// Only the beneficiary can perform this action.
    UnauthorizedBeneficiary,
    /// The vault still holds tokens; claim or revoke before close.
    VaultNotEmpty,
    /// The grant is not fully settled; it cannot be closed.
    GrantNotSettled,
    /// Arithmetic overflow.
    MathOverflow,
    /// Transfer-fee Token-2022 mints are not supported; vault accounting
    /// assumes 1:1 transfers.
    TransferFeeNotSupported,
}

} // verus!
