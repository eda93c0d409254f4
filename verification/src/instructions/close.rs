//! Closing an empty, settled grant.

use vstd::prelude::*;

use crate::error::VestingError;
use crate::math::lemma_linear_vested_bounded;
use crate::state::{keys_equal, Vesting};

verus! {

/// Close an empty grant and reclaim rent.
///
/// `creator` is the signer and `vault_amount` what the vault token account
/// holds. On success the caller closes the vault and the grant account,
/// sending their rent to the creator.
pub fn handle_close(vesting: &Vesting, creator: &[u8; 32], vault_amount: u64) -> (result: Result<
    (),
    VestingError,
>)
    ensures
        vesting.creator@ != creator@ ==> result == Err::<(), VestingError>(
            VestingError::UnauthorizedCreator,
        ),
        vesting.creator@ == creator@ && vault_amount != 0 ==> result == Err::<(), VestingError>(
            VestingError::VaultNotEmpty,
        ),
        vesting.creator@ == creator@ && vault_amount == 0 && !vesting.settled() ==> result == Err::<
            (),
            VestingError,
        >(VestingError::GrantNotSettled),
        vesting.creator@ == creator@ && vault_amount == 0 && vesting.settled() ==> result == Ok::<
            (),
            VestingError,
        >(()),
{
    if !keys_equal(&vesting.creator, creator) {
        return Err(VestingError::UnauthorizedCreator);
    }
    if vault_amount != 0 {
        return Err(VestingError::VaultNotEmpty);
    }
    if !vesting.is_settled() {
        return Err(VestingError::GrantNotSettled);
    }
    Ok(())
}

/// A settled grant owes nothing: its vault balance by the books is zero and
/// at no instant is anything left to claim, so closing it strands no tokens.
pub proof fn lemma_settled_owes_nothing(grant: Vesting, now: i64)
    requires
        grant.settled(),
    ensures
        grant.escrowed() == 0,
        grant.claimable_at(now as int) == 0,
{
    lemma_linear_vested_bounded(now, grant.start_ts, grant.cliff_ts, grant.end_ts, grant.total_amount);
}

} // verus!
