//! Seeds of the grant's derived address.

use vstd::prelude::*;

verus! {

/// Prefix of the grant address seeds, the bytes of `"vesting"`.
/// Full seeds: `[VESTING_SEED, creator, id]`.
///
/// `id` is a 32-byte grant identifier chosen by the creator so the same
/// wallet can issue many grants.
pub const VESTING_SEED: [u8; 7] = [118u8, 101u8, 115u8, 116u8, 105u8, 110u8, 103u8];

/// Seeds used to sign token transfers as the grant's derived address:
/// the prefix, the creator, the grant id and the bump, in that order.
pub fn vesting_signer_seeds<'a>(creator: &'a [u8; 32], id: &'a [u8; 32], bump: &'a [u8]) -> (seeds:
    [&'a [u8]; 4])
    ensures
        seeds[0]@ == VESTING_SEED@,
        seeds[1]@ == creator@,
        seeds[2]@ == id@,
        seeds[3]@ == bump@,
{
    let prefix: &'static [u8; 7] = &VESTING_SEED;
    [prefix.as_slice(), creator.as_slice(), id.as_slice(), bump]
}

} // verus!
