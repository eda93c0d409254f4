//! Creating a grant.

use vstd::prelude::*;

use crate::error::VestingError;
use crate::state::Vesting;
use crate::token_ext::{
    has_transfer_fee, mint_fee_gate, token_2022_mint_probe, token_2022_program_id_bytes,
};

verus! {

/// The schedule and amount a creator asks for.
#[derive(Debug, Clone, Copy, PartialEq, Eq, Structural)]
pub struct CreateVestingParams {
    pub start_ts: i64,
    pub cliff_ts: i64,
    pub end_ts: i64,
    pub total_amount: u64,
    pub revocable: bool,
}

/// The schedule is well ordered: `start_ts <= cliff_ts < end_ts`.
pub open spec fn valid_schedule(params: CreateVestingParams) -> bool {
    params.start_ts <= params.cliff_ts && params.cliff_ts < params.end_ts
}

/// Any schedule with `start_ts <= cliff_ts < end_ts` is accepted, whatever
/// the length of its cliff or of its vesting period, and no other schedule is.
pub proof fn lemma_valid_schedule_is_ordering(params: CreateVestingParams)
    ensures
        valid_schedule(params) <==> (params.start_ts <= params.cliff_ts && params.cliff_ts
            < params.end_ts),
{
}

/// The grant a successful creation records: nothing claimed, not revoked,
/// no snapshot.
pub open spec fn created_grant(
    creator: [u8; 32],
    beneficiary: [u8; 32],
    mint: [u8; 32],
    bump: u8,
    id: [u8; 32],
    params: CreateVestingParams,
) -> Vesting {
    Vesting {
        bump,
        creator,
        beneficiary,
        mint,
        total_amount: params.total_amount,
        claimed_amount: 0,
        start_ts: params.start_ts,
        cliff_ts: params.cliff_ts,
        end_ts: params.end_ts,
        revocable: params.revocable,
        revoked: false,
        vested_at_revoke: 0,
        id,
    }
}

/// Create a grant and lock `params.total_amount` in its vault.
///
/// `mint_owner` is the program that owns the mint account and `mint_data`
/// its data (`None` where the data could not be borrowed);
/// `creator_balance` is what the creator's token account holds. On success
/// the returned grant is recorded and the caller moves exactly
/// `params.total_amount` tokens from the creator's account into the vault.
pub fn handle_create_vesting(
    creator: &[u8; 32],
    beneficiary: &[u8; 32],
    mint: &[u8; 32],
    mint_owner: &[u8; 32],
    mint_data: Option<&[u8]>,
    creator_balance: u64,
    bump: u8,
    id: [u8; 32],
    params: CreateVestingParams,
) -> (result: Result<Vesting, VestingError>)
    ensures
        ({
            let fee = mint_fee_gate(
                mint_owner@,
                match mint_data {
                    Some(bytes) => Some(bytes@),
                    None => None,
                },
            );
            &&& fee ==> result == Err::<Vesting, VestingError>(VestingError::TransferFeeNotSupported)
            &&& !fee && params.total_amount == 0 ==> result == Err::<Vesting, VestingError>(
                VestingError::InvalidAmount,
            )
            &&& !fee && params.total_amount > 0 && !valid_schedule(params) ==> result == Err::<
                Vesting,
                VestingError,
            >(VestingError::InvalidSchedule)
            &&& !fee && params.total_amount > 0 && valid_schedule(params) && creator_balance
                < params.total_amount ==> result == Err::<Vesting, VestingError>(
                VestingError::InsufficientFunds,
            )
            &&& !fee && params.total_amount > 0 && valid_schedule(params) && creator_balance
                >= params.total_amount ==> result == Ok::<Vesting, VestingError>(
                created_grant(*creator, *beneficiary, *mint, bump, id, params),
            )
        }),
        result matches Ok(grant) ==> grant.wf() && grant.escrowed() == params.total_amount,
        result is Ok <==> ({
            &&& match mint_data {
                Some(bytes) => mint_owner@ != token_2022_program_id_bytes() || token_2022_mint_probe(
                    bytes@,
                ) == Some(false),
                None => mint_owner@ != token_2022_program_id_bytes(),
            }
            &&& params.total_amount > 0
            &&& params.start_ts <= params.cliff_ts
            &&& params.cliff_ts < params.end_ts
            &&& creator_balance >= params.total_amount
        }),
        result matches Ok(grant) ==> grant.start_ts == params.start_ts && grant.cliff_ts
            == params.cliff_ts && grant.end_ts == params.end_ts && grant.total_amount
            == params.total_amount && grant.claimed_amount == 0 && !grant.revoked,
{
    if has_transfer_fee(mint_owner, mint_data) {
        return Err(VestingError::TransferFeeNotSupported);
    }
    if params.total_amount == 0 {
        return Err(VestingError::InvalidAmount);
    }
    if !(params.start_ts <= params.cliff_ts && params.cliff_ts < params.end_ts) {
        return Err(VestingError::InvalidSchedule);
    }
    if creator_balance < params.total_amount {
        return Err(VestingError::InsufficientFunds);
    }
    Ok(Vesting {
        bump,
        creator: *creator,
        beneficiary: *beneficiary,
        mint: *mint,
        total_amount: params.total_amount,
        claimed_amount: 0,
        start_ts: params.start_ts,
        cliff_ts: params.cliff_ts,
        end_ts: params.end_ts,
        revocable: params.revocable,
        revoked: false,
        vested_at_revoke: 0,
        id,
    })
}

} // verus!
