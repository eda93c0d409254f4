//! The creator recovering the unvested part of a revocable grant.

use vstd::prelude::*;

use crate::error::VestingError;
use crate::instructions::claim::claimed_grant;
use crate::math::{
    self, lemma_linear_vested_bounded, lemma_linear_vested_monotone, linear_vested,
};
use crate::state::{keys_equal, Vesting};

verus! {

/// What the linear schedule of a grant has unlocked at `now`, ignoring any revoke.
pub open spec fn scheduled_vested(grant: Vesting, now: int) -> int {
    linear_vested(
        now,
        grant.start_ts as int,
        grant.cliff_ts as int,
        grant.end_ts as int,
        grant.total_amount as int,
    )
}

/// The grant after a revoke at `now`: marked revoked, with the vested amount
/// at that instant as its snapshot.
pub open spec fn revoked_grant(grant: Vesting, now: int) -> Vesting {
    Vesting { revoked: true, vested_at_revoke: scheduled_vested(grant, now) as u64, ..grant }
}

/// Creator recovers unvested tokens. Already-vested amounts stay claimable.
///
/// `creator` is the signer and `now` the cluster clock. On success the
/// caller moves the returned amount (the unvested part, possibly zero, in
/// which case nothing moves) from the vault back to the creator's token
/// account; on error the grant is left as it was.
pub fn handle_revoke(vesting: &mut Vesting, creator: &[u8; 32], now: i64) -> (result: Result<
    u64,
    VestingError,
>)
    ensures
        old(vesting).creator@ != creator@ ==> result == Err::<u64, VestingError>(
            VestingError::UnauthorizedCreator,
        ),
        old(vesting).creator@ == creator@ && !old(vesting).revocable ==> result == Err::<
            u64,
            VestingError,
        >(VestingError::NotRevocable),
        old(vesting).creator@ == creator@ && old(vesting).revocable && old(vesting).revoked
            ==> result == Err::<u64, VestingError>(VestingError::AlreadyRevoked),
        old(vesting).creator@ == creator@ && old(vesting).revocable && !old(vesting).revoked
            ==> result == Ok::<u64, VestingError>(
            (old(vesting).total_amount - scheduled_vested(*old(vesting), now as int)) as u64,
        ),
        result is Ok ==> *final(vesting) == revoked_grant(*old(vesting), now as int),
        result is Err ==> *final(vesting) == *old(vesting),
        result matches Ok(amount) ==> final(vesting).escrowed() == old(vesting).escrowed() - amount,
        final(vesting).total_amount == old(vesting).total_amount,
        old(vesting).wf() ==> final(vesting).wf(),
        result matches Ok(unvested) ==> final(vesting).revoked && final(vesting).vested_at_revoke
            + unvested == old(vesting).total_amount && final(vesting).vested_at_revoke == linear_vested(
            now as int,
            old(vesting).start_ts as int,
            old(vesting).cliff_ts as int,
            old(vesting).end_ts as int,
            old(vesting).total_amount as int,
        ) && final(vesting).claimed_amount == old(vesting).claimed_amount,
{
    if !keys_equal(&vesting.creator, creator) {
        return Err(VestingError::UnauthorizedCreator);
    }
    if !vesting.revocable {
        return Err(VestingError::NotRevocable);
    }
    if vesting.revoked {
        return Err(VestingError::AlreadyRevoked);
    }
    let vested = math::vested_amount(
        now,
        vesting.start_ts,
        vesting.cliff_ts,
        vesting.end_ts,
        vesting.total_amount,
    );
    let unvested = vesting.total_amount.saturating_sub(vested);
    vesting.revoked = true;
    vesting.vested_at_revoke = vested;
    Ok(unvested)
}

/// A revoke freezes vesting and keeps what had vested: at every later (or
/// earlier) instant the revoked grant counts exactly the amount vested at the
/// revoke as unlocked, the creator gets back exactly the rest of the grant,
/// and the beneficiary can still claim the vested part they had not taken.
pub proof fn lemma_revoke_freezes_vesting(grant: Vesting, now: i64, later: i64)
    requires
        !grant.revoked,
    ensures
        revoked_grant(grant, now as int).vested_at(later as int) == grant.vested_at(now as int),
        revoked_grant(grant, now as int).vested_at_revoke + (grant.total_amount - scheduled_vested(
            grant,
            now as int,
        )) == grant.total_amount,
        revoked_grant(grant, now as int).claimable_at(later as int) == grant.claimable_at(
            now as int,
        ),
{
    lemma_linear_vested_bounded(now, grant.start_ts, grant.cliff_ts, grant.end_ts, grant.total_amount);
}

/// A revoke cannot claw back tokens already claimed: if the beneficiary
/// claimed at some instant and the creator revokes no earlier than that, the
/// snapshot covers everything claimed, so the vault still owes a
/// non-negative amount.
pub proof fn lemma_revoke_after_claim_keeps_claimed(grant: Vesting, claim_at: i64, revoke_at: i64)
    requires
        !grant.revoked,
        claim_at <= revoke_at,
        grant.claimable_at(claim_at as int) > 0,
    ensures
        claimed_grant(grant, claim_at as int).claimed_amount <= revoked_grant(
            claimed_grant(grant, claim_at as int),
            revoke_at as int,
        ).vested_at_revoke,
        revoked_grant(claimed_grant(grant, claim_at as int), revoke_at as int).escrowed() >= 0,
{
    lemma_linear_vested_bounded(
        claim_at,
        grant.start_ts,
        grant.cliff_ts,
        grant.end_ts,
        grant.total_amount,
    );
    lemma_linear_vested_bounded(
        revoke_at,
        grant.start_ts,
        grant.cliff_ts,
        grant.end_ts,
        grant.total_amount,
    );
    lemma_linear_vested_monotone(
        claim_at,
        revoke_at,
        grant.start_ts,
        grant.cliff_ts,
        grant.end_ts,
        grant.total_amount,
    );
}

} // verus!
