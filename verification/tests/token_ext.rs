use anchor_lang::solana_program::program_option::COption;
use anchor_lang::solana_program::program_pack::Pack;
use anchor_spl::token_2022::spl_token_2022::{
    extension::{
        transfer_fee::{TransferFee, TransferFeeConfig},
        BaseStateWithExtensionsMut, ExtensionType, PodStateWithExtensionsMut,
    },
    pod::{PodCOption, PodMint},
    state::Mint,
};
use vesting_vault::token_ext::{has_transfer_fee, mint_data_has_transfer_fee, transfer_fee_verdict};

fn token_2022_id() -> [u8; 32] {
    anchor_spl::token_2022::ID.to_bytes()
}

fn classic_token_id() -> [u8; 32] {
    anchor_spl::token::ID.to_bytes()
}

fn pack_classic_mint() -> Vec<u8> {
    let mint = Mint {
        mint_authority: COption::None,
        supply: 1_000,
        decimals: 6,
        is_initialized: true,
        freeze_authority: COption::None,
    };
    let mut data = vec![0u8; Mint::LEN];
    Pack::pack(mint, &mut data).unwrap();
    data
}

fn pack_fee_mint(fee_bps: u16) -> Vec<u8> {
    let mint_len =
        ExtensionType::try_calculate_account_len::<Mint>(&[ExtensionType::TransferFeeConfig])
            .unwrap();
    let mut data = vec![0u8; mint_len];
    let mut state = PodStateWithExtensionsMut::<PodMint>::unpack_uninitialized(&mut data).unwrap();
    let fee = TransferFee {
        epoch: 0.into(),
        maximum_fee: u64::MAX.into(),
        transfer_fee_basis_points: fee_bps.into(),
    };
    let ext = state.init_extension::<TransferFeeConfig>(true).unwrap();
    ext.older_transfer_fee = fee;
    ext.newer_transfer_fee = fee;
    *state.base = PodMint {
        mint_authority: PodCOption::none(),
        supply: 1_000.into(),
        decimals: 6,
        is_initialized: true.into(),
        freeze_authority: PodCOption::none(),
    };
    state.init_account_type().unwrap();
    data
}

#[test]
fn classic_spl_mint_has_no_transfer_fee() {
    assert!(!mint_data_has_transfer_fee(
        &classic_token_id(),
        &pack_classic_mint()
    ));
}

#[test]
fn token_2022_mint_with_nonzero_fee_is_detected() {
    assert!(mint_data_has_transfer_fee(
        &token_2022_id(),
        &pack_fee_mint(100)
    ));
}

#[test]
fn token_2022_mint_without_fee_extension_is_allowed() {
    let mut data = pack_classic_mint();
    // Token-2022 mints with no extensions are still the base mint layout.
    assert!(!mint_data_has_transfer_fee(&token_2022_id(), &data));
    data.clear();
    assert!(mint_data_has_transfer_fee(&token_2022_id(), &data));
}

#[test]
fn fee_mint_owned_by_another_program_is_not_flagged() {
    assert!(!mint_data_has_transfer_fee(
        &classic_token_id(),
        &pack_fee_mint(100)
    ));
    assert!(!mint_data_has_transfer_fee(&[0u8; 32], &[]));
}

#[test]
fn token_2022_mint_with_zero_fee_extension_is_still_flagged() {
    assert!(mint_data_has_transfer_fee(&token_2022_id(), &pack_fee_mint(0)));
}

#[test]
fn unreadable_mint_data_fails_closed_only_for_token_2022() {
    assert!(has_transfer_fee(&token_2022_id(), None));
    assert!(!has_transfer_fee(&classic_token_id(), None));
    let fee_mint = pack_fee_mint(25);
    assert!(has_transfer_fee(&token_2022_id(), Some(&fee_mint)));
    let classic = pack_classic_mint();
    assert!(!has_transfer_fee(&token_2022_id(), Some(&classic)));
}

#[test]
fn verdict_on_probe_outcomes() {
    assert!(transfer_fee_verdict(None));
    assert!(transfer_fee_verdict(Some(true)));
    assert!(!transfer_fee_verdict(Some(false)));
}

#[test]
fn token_2022_program_id_bytes_are_the_token_2022_id() {
    let expected: [u8; 32] = [
        6, 221, 246, 225, 238, 117, 143, 222, 24, 66, 93, 188, 228, 108, 205, 218, 182, 26, 252,
        77, 131, 185, 13, 39, 254, 189, 249, 40, 216, 161, 139, 252,
    ];
    assert_eq!(token_2022_id(), expected);
    // Empty data under exactly these bytes is treated as a Token-2022 mint.
    assert!(mint_data_has_transfer_fee(&expected, &[]));
}
