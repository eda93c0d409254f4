//! The on-chain record of one token grant.

use vstd::prelude::*;

use crate::math::{self, linear_vested, saturating_claimable};

verus! {

/// Whether two 32-byte account addresses are the same.
pub fn keys_equal(a: &[u8; 32], b: &[u8; 32]) -> (same: bool)
    ensures
        same == (a@ == b@),
{
    let mut i: usize = 0;
    while i < 32
        invariant
            0 <= i <= 32,
            forall|j: int| 0 <= j < i ==> a@[j] == b@[j],
        decreases 32 - i,
    {
        if a[i] != b[i] {
            assert(a@[i as int] != b@[i as int]);
            return false;
        }
        i = i + 1;
    }
    assert(a@ =~= b@);
    true
}

/// One token grant: linear vesting, optional cliff, optional creator revoke.
///
/// The grant lives at the address derived from `["vesting", creator, id]`;
/// the vault token account that holds the locked tokens is owned by it.
/// Account addresses are held as their 32 bytes.
#[derive(Debug, Clone, Copy)]
pub struct Vesting {
    /// Canonical bump of the grant's derived address.
    pub bump: u8,
    /// Wallet that created and funded the grant. May revoke if `revocable`.
    pub creator: [u8; 32],
    /// Wallet that may claim vested tokens.
    pub beneficiary: [u8; 32],
    /// Mint of the locked tokens.
    pub mint: [u8; 32],
    /// Tokens deposited at creation. Never increases.
    pub total_amount: u64,
    /// Tokens already transferred to the beneficiary.
    pub claimed_amount: u64,
    /// Unix timestamp when the linear schedule starts.
    pub start_ts: i64,
    /// Unix timestamp before which the vested amount is zero. May equal `start_ts`.
    pub cliff_ts: i64,
    /// Unix timestamp when the grant is fully vested.
    pub end_ts: i64,
    /// If true, `creator` may revoke and recover unvested tokens.
    pub revocable: bool,
    /// Set once on a successful revoke.
    pub revoked: bool,
    /// Vested amount snapshotted at revoke time. Zero until revoked.
    pub vested_at_revoke: u64,
    /// Creator-chosen grant id.
    pub id: [u8; 32],
}

impl Vesting {
    /// The grant as it can arise from creation, claims and a revoke:
    /// a valid schedule, a positive grant, never more claimed or snapshotted
    /// than was deposited, and a snapshot only on a revocable, revoked grant.
    pub open spec fn wf(self) -> bool {
        &&& self.start_ts <= self.cliff_ts < self.end_ts
        &&& self.total_amount > 0
        &&& self.claimed_amount <= self.total_amount
        &&& self.vested_at_revoke <= self.total_amount
        &&& self.revoked ==> self.revocable
        &&& !self.revoked ==> self.vested_at_revoke == 0
    }

    /// Tokens unlocked at `now`; frozen at the snapshot once revoked.
    pub open spec fn vested_at(self, now: int) -> int {
        if self.revoked {
            self.vested_at_revoke as int
        } else {
            linear_vested(
                now,
                self.start_ts as int,
                self.cliff_ts as int,
                self.end_ts as int,
                self.total_amount as int,
            )
        }
    }

    /// Tokens the beneficiary may withdraw at `now`.
    pub open spec fn claimable_at(self, now: int) -> int {
        saturating_claimable(self.vested_at(now), self.claimed_amount as int)
    }

    /// The beneficiary has taken every token still owed to them.
    pub open spec fn settled(self) -> bool {
        if self.revoked {
            self.claimed_amount == self.vested_at_revoke
        } else {
            self.claimed_amount == self.total_amount
        }
    }

    /// Tokens the grant still owes out of its vault: what the beneficiary can
    /// ever receive (the snapshot once revoked, else the whole grant) minus
    /// what was already claimed.
    pub open spec fn escrowed(self) -> int {
        if self.revoked {
            self.vested_at_revoke - self.claimed_amount
        } else {
            self.total_amount - self.claimed_amount
        }
    }

    /// What a grant counts as vested is the schedule's amount until it is
    /// revoked and the snapshot afterwards; what the beneficiary has already
    /// claimed plays no part in it.
    pub proof fn lemma_vested_at_ignores_claims(self, now: i64, claimed: u64)
        ensures
            self.revoked ==> self.vested_at(now as int) == self.vested_at_revoke,
            !self.revoked ==> self.vested_at(now as int) == linear_vested(
                now as int,
                self.start_ts as int,
                self.cliff_ts as int,
                self.end_ts as int,
                self.total_amount as int,
            ),
            (Vesting { claimed_amount: claimed, ..self }).vested_at(now as int) == self.vested_at(
                now as int,
            ),
            !self.revoked && now >= self.end_ts && now >= self.cliff_ts ==> self.vested_at(now as int)
                == self.total_amount,
    {
    }

    /// Unlocked tokens at `now`. After revoke this is frozen at the snapshot.
    pub fn currently_vested(&self, now: i64) -> (vested: u64)
        ensures
            vested == self.vested_at(now as int),
            self.revoked ==> vested == self.vested_at_revoke,
            !self.revoked ==> vested == linear_vested(
                now as int,
                self.start_ts as int,
                self.cliff_ts as int,
                self.end_ts as int,
                self.total_amount as int,
            ),
            !self.revoked && now >= self.cliff_ts && now >= self.end_ts ==> vested
                == self.total_amount,
    {
        if self.revoked {
            self.vested_at_revoke
        } else {
            math::vested_amount(now, self.start_ts, self.cliff_ts, self.end_ts, self.total_amount)
        }
    }

    /// Tokens the beneficiary may withdraw at `now`.
    pub fn claimable_amount(&self, now: i64) -> (amount: u64)
        ensures
            amount == self.claimable_at(now as int),
            ({
                let unlocked = if self.revoked {
                    self.vested_at_revoke as int
                } else {
                    linear_vested(
                        now as int,
                        self.start_ts as int,
                        self.cliff_ts as int,
                        self.end_ts as int,
                        self.total_amount as int,
                    )
                };
                &&& unlocked >= self.claimed_amount ==> amount + self.claimed_amount == unlocked
                &&& unlocked < self.claimed_amount ==> amount == 0
            }),
    {
        math::claimable(self.currently_vested(now), self.claimed_amount)
    }

    /// True when the beneficiary has taken every token they are still owed.
    pub fn is_settled(&self) -> (settled: bool)
        ensures
            settled == self.settled(),
            self.revoked ==> (settled <==> self.claimed_amount == self.vested_at_revoke),
            !self.revoked ==> (settled <==> self.claimed_amount == self.total_amount),
    {
        if self.revoked {
            self.claimed_amount == self.vested_at_revoke
        } else {
            self.claimed_amount == self.total_amount
        }
    }
}

} // verus!
