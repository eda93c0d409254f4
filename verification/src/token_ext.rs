//! Token-2022 mint checks that are independent of instruction context.
//!
//! Vesting amounts are recorded as exact token units. A mint with the
//! transfer-fee extension would make the vault receive less than
//! `total_amount` on create, and later claims would try to pay out more than
//! the vault holds, so such mints are refused.

use vstd::prelude::*;

use anchor_spl::token_2022::spl_token_2022::{
    extension::{transfer_fee::TransferFeeConfig, BaseStateWithExtensions, StateWithExtensions},
    state::Mint as Token2022Mint,
};

verus! {

/// The 32 bytes of the Token-2022 program id
/// (`TokenzQdBNbLqP5VEhdkAS6EPFLC1PHnBqCXEpPxuEb`).
pub open spec fn token_2022_program_id_bytes() -> Seq<u8> {
    seq![
        6u8, 221u8, 246u8, 225u8, 238u8, 117u8, 143u8, 222u8,
        24u8, 66u8, 93u8, 188u8, 228u8, 108u8, 205u8, 218u8,
        182u8, 26u8, 252u8, 77u8, 131u8, 185u8, 13u8, 39u8,
        254u8, 189u8, 249u8, 40u8, 216u8, 161u8, 139u8, 252u8,
    ]
}

/// What reading `data` as a Token-2022 mint gives: `None` where the bytes do
/// not unpack as an initialized base mint (length, base state, padding and
/// account-type byte), else `Some` of whether looking up the transfer-fee
/// extension in the extension data succeeds (malformed extension entries make
/// that lookup fail, giving `Some(false)`).
pub uninterp spec fn token_2022_mint_probe(data: Seq<u8>) -> Option<bool>;

/// Calls `anchor_spl::token_2022::ID` (the Token-2022 program id of
/// `spl-token-2022-interface`) and hands back its bytes; the contract claims
/// those bytes are the id written out in `token_2022_program_id_bytes`.
#[verifier::external_body]
fn token_2022_program_id() -> (id: [u8; 32])
    ensures
        id@ == token_2022_program_id_bytes(),
{
    anchor_spl::token_2022::ID.to_bytes()
}

/// Calls `StateWithExtensions::<Mint>::unpack` of `spl-token-2022-interface`
/// on `data` and, on success, `get_extension::<TransferFeeConfig>` on the
/// result. The contract claims only that the outcome is a function of the
/// bytes alone, named `token_2022_mint_probe`.
#[verifier::external_body]
fn probe_token_2022_mint(data: &[u8]) -> (probe: Option<bool>)
    ensures
        probe == token_2022_mint_probe(data@),
{
    match StateWithExtensions::<Token2022Mint>::unpack(data) {
        Ok(mint) => Some(mint.get_extension::<TransferFeeConfig>().is_ok()),
        Err(_) => None,
    }
}

/// The verdict on a Token-2022 mint from what reading it gave: bytes that
/// do not unpack count as carrying a fee (fail closed).
pub open spec fn probe_verdict(probe: Option<bool>) -> bool {
    match probe {
        Some(has_fee) => has_fee,
        None => true,
    }
}

/// A mint account (its owner program and its data) carries a transfer fee.
pub open spec fn mint_data_fee_gate(owner: Seq<u8>, data: Seq<u8>) -> bool {
    owner == token_2022_program_id_bytes() && probe_verdict(token_2022_mint_probe(data))
}

/// The fee gate decides by the owner program and the extension lookup
/// alone: a mint of another program never carries a fee; for a Token-2022
/// mint whose data unpacks, the verdict is exactly whether the transfer-fee
/// extension was found; data that does not unpack counts as a fee mint.
pub proof fn lemma_fee_gate_is_extension_lookup(owner: Seq<u8>, data: Seq<u8>)
    ensures
        owner != token_2022_program_id_bytes() ==> !mint_fee_gate(owner, Some(data))
            && !mint_fee_gate(owner, None),
        owner == token_2022_program_id_bytes() ==> mint_fee_gate(owner, None),
        owner == token_2022_program_id_bytes() ==> (mint_fee_gate(owner, Some(data)) <==> (
        token_2022_mint_probe(data) != Some(false))),
        mint_fee_gate(owner, Some(data)) == mint_data_fee_gate(owner, data),
{
}

/// The verdict on a Token-2022 mint from what reading its data gave.
pub fn transfer_fee_verdict(probe: Option<bool>) -> (has_fee: bool)
    ensures
        has_fee == probe_verdict(probe),
{
    match probe {
        Some(has_fee) => has_fee,
        None => true,
    }
}

/// True when a mint owned by `owner` with account data `data` is a
/// Token-2022 mint with the transfer-fee extension. Mints of any other
/// program never are; Token-2022 data that fails to unpack counts as one.
pub fn mint_data_has_transfer_fee(owner: &[u8; 32], data: &[u8]) -> (has_fee: bool)
    ensures
        has_fee == mint_data_fee_gate(owner@, data@),
        owner@ != token_2022_program_id_bytes() ==> !has_fee,
        owner@ == token_2022_program_id_bytes() && token_2022_mint_probe(data@) == Some(true)
            ==> has_fee,
        owner@ == token_2022_program_id_bytes() && token_2022_mint_probe(data@) == Some(false)
            ==> !has_fee,
        owner@ == token_2022_program_id_bytes() && token_2022_mint_probe(data@) is None ==> has_fee,
{
    let token_2022 = token_2022_program_id();
    if !crate::state::keys_equal(owner, &token_2022) {
        return false;
    }
    transfer_fee_verdict(probe_token_2022_mint(data))
}

/// Whether a mint account counts as carrying a transfer fee, given its owner
/// and, where it could be borrowed, its data. Without data, exactly the
/// Token-2022 mints count.
pub open spec fn mint_fee_gate(owner: Seq<u8>, data: Option<Seq<u8>>) -> bool {
    match data {
        Some(bytes) => mint_data_fee_gate(owner, bytes),
        None => owner == token_2022_program_id_bytes(),
    }
}

/// True when the mint (owner program, and its data where it could be read)
/// is a Token-2022 mint with the transfer-fee extension.
pub fn has_transfer_fee(owner: &[u8; 32], data: Option<&[u8]>) -> (has_fee: bool)
    ensures
        has_fee == mint_fee_gate(
            owner@,
            match data {
                Some(bytes) => Some(bytes@),
                None => None,
            },
        ),
        owner@ != token_2022_program_id_bytes() ==> !has_fee,
        data is None ==> has_fee == (owner@ == token_2022_program_id_bytes()),
        data matches Some(bytes) ==> has_fee == (owner@ == token_2022_program_id_bytes()
            && token_2022_mint_probe(bytes@) != Some(false)),
{
    match data {
        Some(bytes) => mint_data_has_transfer_fee(owner, bytes),
        None => {
            let token_2022 = token_2022_program_id();
            crate::state::keys_equal(owner, &token_2022)
        },
    }
}

} // verus!
