//! The beneficiary withdrawing what has vested since the last claim.

use vstd::prelude::*;

use crate::error::VestingError;
use crate::math::lemma_linear_vested_bounded;
use crate::state::{keys_equal, Vesting};

verus! {

/// The grant after the beneficiary takes everything claimable at `now`.
pub open spec fn claimed_grant(grant: Vesting, now: int) -> Vesting {
    Vesting { claimed_amount: (grant.claimed_amount + grant.claimable_at(now)) as u64, ..grant }
}

/// What a grant has vested at any instant fits in a token amount.
proof fn lemma_vested_at_fits(grant: Vesting, now: i64)
    ensures
        0 <= grant.vested_at(now as int) <= u64::MAX,
        !grant.revoked ==> grant.vested_at(now as int) <= grant.total_amount,
{
    lemma_linear_vested_bounded(now, grant.start_ts, grant.cliff_ts, grant.end_ts, grant.total_amount);
}

/// Beneficiary withdraws tokens that have vested since the last claim.
///
/// `beneficiary` is the signer and `now` the cluster clock. On success the
/// caller moves the returned amount from the vault to the beneficiary's
/// token account; on error the grant is left as it was.
pub fn handle_claim(vesting: &mut Vesting, beneficiary: &[u8; 32], now: i64) -> (result: Result<
    u64,
    VestingError,
>)
    ensures
        old(vesting).beneficiary@ != beneficiary@ ==> result == Err::<u64, VestingError>(
            VestingError::UnauthorizedBeneficiary,
        ),
        old(vesting).beneficiary@ == beneficiary@ && old(vesting).claimable_at(now as int) == 0
            ==> result == Err::<u64, VestingError>(VestingError::NothingToClaim),
        old(vesting).beneficiary@ == beneficiary@ && old(vesting).claimable_at(now as int) > 0
            ==> result == Ok::<u64, VestingError>(old(vesting).claimable_at(now as int) as u64),
        result is Ok ==> *final(vesting) == claimed_grant(*old(vesting), now as int),
        result is Err ==> *final(vesting) == *old(vesting),
        result matches Ok(amount) ==> final(vesting).escrowed() == old(vesting).escrowed() - amount,
        final(vesting).total_amount == old(vesting).total_amount,
        old(vesting).wf() ==> final(vesting).wf(),
        result matches Ok(amount) ==> amount > 0 && final(vesting).claimed_amount == old(
            vesting,
        ).claimed_amount + amount && final(vesting).claimed_amount == old(vesting).vested_at(
            now as int,
        ) && final(vesting).revoked == old(vesting).revoked && final(vesting).vested_at_revoke == old(
            vesting,
        ).vested_at_revoke && final(vesting).beneficiary == old(vesting).beneficiary,
{
    if !keys_equal(&vesting.beneficiary, beneficiary) {
        return Err(VestingError::UnauthorizedBeneficiary);
    }
    let amount = vesting.claimable_amount(now);
    if amount == 0 {
        return Err(VestingError::NothingToClaim);
    }
    proof {
        lemma_vested_at_fits(*vesting, now);
    }
    match vesting.claimed_amount.checked_add(amount) {
        None => Err(VestingError::MathOverflow),
        Some(claimed) => {
            vesting.claimed_amount = claimed;
            Ok(amount)
        },
    }
}

/// A claim takes everything vested so far: right after a successful claim
/// the beneficiary has claimed exactly what is vested at that instant, and a
/// second claim at the same instant finds nothing to claim.
pub proof fn lemma_claim_exhausts(grant: Vesting, now: i64)
    requires
        grant.claimable_at(now as int) > 0,
    ensures
        claimed_grant(grant, now as int).claimed_amount == grant.vested_at(now as int),
        claimed_grant(grant, now as int).claimable_at(now as int) == 0,
{
    lemma_vested_at_fits(grant, now);
}

/// Once the schedule has ended, a claim on a grant that was never revoked
/// leaves it settled: everything deposited has been paid out.
pub proof fn lemma_claim_after_end_settles(grant: Vesting, now: i64)
    requires
        grant.wf(),
        !grant.revoked,
        now >= grant.end_ts,
        grant.claimable_at(now as int) > 0,
    ensures
        claimed_grant(grant, now as int).settled(),
        claimed_grant(grant, now as int).escrowed() == 0,
{
    lemma_vested_at_fits(grant, now);
}

/// After a revoke, a claim at any time leaves the grant settled as long as
/// the beneficiary had not already claimed more than the snapshot.
pub proof fn lemma_claim_after_revoke_settles(grant: Vesting, now: i64)
    requires
        grant.revoked,
        grant.claimed_amount < grant.vested_at_revoke,
    ensures
        grant.claimable_at(now as int) == grant.vested_at_revoke - grant.claimed_amount,
        claimed_grant(grant, now as int).settled(),
        claimed_grant(grant, now as int).escrowed() == 0,
{
}

} // verus!
