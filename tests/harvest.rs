use dynamic_fee_sharing::error::FeeVaultError;
use dynamic_fee_sharing::harvest::{handle_funding_fee, settle_harvest, validate_funding};
use dynamic_fee_sharing::instructions::{
    handle_claim_fee, handle_fund_fee, handle_initialize_fee_vault, handle_initialize_fee_vault_pda,
};
use dynamic_fee_sharing::params::{InitializeFeeVaultParameters, UserShare};
use dynamic_fee_sharing::pubkey::Pubkey;
use dynamic_fee_sharing::sources::{
    handle_claim_dbc_trading_fee, handle_funding_by_claim_dammv2_fee,
    handle_funding_by_claim_dbc_creator_surplus, handle_withdraw_dbc_partner_surplus,
};
use dynamic_fee_sharing::state::FeeVault;
use dynamic_fee_sharing::token::{
    calculate_transfer_fee_excluded_amount, get_token_program_flags, is_supported_mint,
    MintExtension, TokenProgramFlags, TransferFeeExcludedAmount, TOKEN_PROGRAM_ID,
};
use std::cell::Cell;

fn key(n: u8) -> Pubkey {
    Pubkey::new_from_array([n; 32])
}

fn params(shares: &[(u8, u32)]) -> InitializeFeeVaultParameters {
    InitializeFeeVaultParameters {
        padding: [0; 8],
        users: shares.iter().map(|&(k, share)| UserShare { address: key(k), share }).collect(),
    }
}

/// A vault at a derived address: mint key(101), token account key(102).
fn pda_vault(shares: &[(u8, u32)]) -> FeeVault {
    let mut vault = FeeVault::default();
    handle_initialize_fee_vault_pda(
        &mut vault,
        &Pubkey::new_from_array(TOKEN_PROGRAM_ID),
        &[],
        &params(shares),
        &key(100),
        &key(101),
        &key(102),
        &key(103),
        254,
    )
    .unwrap();
    vault
}

#[test]
fn settle_flat_balance_is_noop() {
    let mut vault = pda_vault(&[(1, 1)]);
    vault.fund_fee(50).unwrap();
    assert_eq!(settle_harvest(&mut vault, 700, 700), Ok(0));
    assert_eq!(vault.total_funded_fee, 50);
    assert_eq!(settle_harvest(&mut vault, 700, 700), Ok(0));
    assert_eq!(vault.total_funded_fee, 50);
}

#[test]
fn settle_rise_funds_delta() {
    let mut vault = pda_vault(&[(1, 1), (2, 1)]);
    assert_eq!(settle_harvest(&mut vault, 100, 160), Ok(60));
    assert_eq!(vault.total_funded_fee, 60);
    assert_eq!(vault.fee_per_share, 30u128 << 52);
}

#[test]
fn settle_fall_is_refused() {
    let mut vault = pda_vault(&[(1, 1)]);
    assert_eq!(settle_harvest(&mut vault, 100, 99), Err(FeeVaultError::MathOverflow));
    assert_eq!(vault.total_funded_fee, 0);
    assert_eq!(vault.fee_per_share, 0);
}

#[test]
fn funding_access_checks() {
    let vault = pda_vault(&[(1, 1)]);
    assert_eq!(validate_funding(&vault, &key(1), &key(102), &key(101)), Ok(()));
    assert_eq!(validate_funding(&vault, &key(9), &key(102), &key(101)), Err(FeeVaultError::InvalidSigner));
    assert_eq!(validate_funding(&vault, &key(1), &key(9), &key(101)), Err(FeeVaultError::InvalidFeeVault));
    assert_eq!(validate_funding(&vault, &key(1), &key(102), &key(9)), Err(FeeVaultError::InvalidFeeVault));
}

#[test]
fn funding_needs_derived_vault() {
    let mut vault = FeeVault::default();
    handle_initialize_fee_vault(
        &mut vault,
        &Pubkey::new_from_array(TOKEN_PROGRAM_ID),
        &[],
        &params(&[(1, 1)]),
        &key(100),
        &key(101),
        &key(102),
    )
    .unwrap();
    assert_eq!(vault.base, Pubkey::zeroed());
    assert_eq!(vault.fee_vault_type, 0);
    assert_eq!(validate_funding(&vault, &key(1), &key(102), &key(101)), Err(FeeVaultError::InvalidFeeVault));
}

#[test]
fn funding_fee_runs_op_with_seeds_and_funds() {
    let mut vault = pda_vault(&[(1, 1), (2, 3)]);
    let seen = Cell::new(0usize);
    let r = handle_funding_fee(&mut vault, &key(2), &key(102), &key(101), 1000, |seeds: Vec<Vec<u8>>| {
        seen.set(seeds.len());
        assert_eq!(seeds[3], vec![254u8]);
        Ok(1400)
    });
    assert_eq!(r, Ok(400));
    assert_eq!(seen.get(), 4);
    assert_eq!(vault.total_funded_fee, 400);
    assert_eq!(vault.fee_per_share, 100u128 << 52);
}

#[test]
fn funding_fee_rejected_does_not_call() {
    let mut vault = pda_vault(&[(1, 1)]);
    let called = Cell::new(false);
    let r = handle_funding_fee(&mut vault, &key(5), &key(102), &key(101), 0, |_seeds: Vec<Vec<u8>>| {
        called.set(true);
        Ok(10)
    });
    assert_eq!(r, Err(FeeVaultError::InvalidSigner));
    assert!(!called.get());
    assert_eq!(vault.total_funded_fee, 0);
}

#[test]
fn funding_fee_failed_op_leaves_vault() {
    let mut vault = pda_vault(&[(1, 1)]);
    let r = handle_funding_fee(&mut vault, &key(1), &key(102), &key(101), 0, |_seeds: Vec<Vec<u8>>| {
        Err(FeeVaultError::InvalidDbcPool)
    });
    assert_eq!(r, Err(FeeVaultError::InvalidDbcPool));
    assert_eq!(vault.total_funded_fee, 0);
}

#[test]
fn dammv2_pool_mode_checked() {
    let mut vault = pda_vault(&[(1, 1)]);
    let r = handle_funding_by_claim_dammv2_fee(&mut vault, 0, &key(1), &key(102), &key(101), 0, |_s: Vec<Vec<u8>>| Ok(5));
    assert_eq!(r, Err(FeeVaultError::InvalidDammv2Pool));
    let r = handle_funding_by_claim_dammv2_fee(&mut vault, 1, &key(1), &key(102), &key(101), 0, |_s: Vec<Vec<u8>>| Ok(5));
    assert_eq!(r, Ok(5));
    assert_eq!(vault.total_funded_fee, 5);
}

#[test]
fn creator_surplus_already_withdrawn_is_noop() {
    let mut vault = pda_vault(&[(1, 1)]);
    let r = handle_funding_by_claim_dbc_creator_surplus(&mut vault, 1, &key(1), &key(102), &key(101), 0, |_s: Vec<Vec<u8>>| Ok(5));
    assert_eq!(r, Ok(0));
    assert_eq!(vault.total_funded_fee, 0);
}

#[test]
fn dbc_trading_fee_unsigned_harvest() {
    let mut vault = pda_vault(&[(1, 1)]);
    assert_eq!(
        handle_claim_dbc_trading_fee(&mut vault, 1, &key(102), &key(101), 0, || Ok(9)),
        Err(FeeVaultError::InvalidDbcPool)
    );
    assert_eq!(
        handle_claim_dbc_trading_fee(&mut vault, 0, &key(7), &key(101), 0, || Ok(9)),
        Err(FeeVaultError::InvalidFeeVault)
    );
    assert_eq!(handle_claim_dbc_trading_fee(&mut vault, 0, &key(102), &key(101), 3, || Ok(9)), Ok(6));
    assert_eq!(handle_withdraw_dbc_partner_surplus(&mut vault, &key(102), &key(101), 9, || Ok(9)), Ok(0));
    assert_eq!(vault.total_funded_fee, 6);
}

#[test]
fn fund_fee_from_user_with_transfer_fee() {
    let mut vault = pda_vault(&[(1, 2)]);
    let moved = Cell::new(0u64);
    let r = handle_fund_fee(&mut vault, 500, 300, |a: u64| Ok(a / 100), |a: u64| {
        moved.set(a);
        Ok(())
    });
    assert_eq!(r, Ok(297));
    assert_eq!(moved.get(), 300);
    assert_eq!(vault.total_funded_fee, 297);
}

#[test]
fn fund_fee_zero_amount_fails() {
    let mut vault = pda_vault(&[(1, 2)]);
    let r = handle_fund_fee(&mut vault, 500, 0, |_a: u64| Ok(0), |_a: u64| Ok(()));
    assert_eq!(r, Err(FeeVaultError::AmountIsZero));
    let r = handle_fund_fee(&mut vault, 0, 10, |_a: u64| Ok(0), |_a: u64| Ok(()));
    assert_eq!(r, Err(FeeVaultError::AmountIsZero));
}

#[test]
fn fund_fee_failed_transfer_leaves_vault() {
    let mut vault = pda_vault(&[(1, 2)]);
    let r = handle_fund_fee(&mut vault, 10, 10, |_a: u64| Ok(0), |_a: u64| Err(FeeVaultError::InvalidMint));
    assert_eq!(r, Err(FeeVaultError::InvalidMint));
    assert_eq!(vault.total_funded_fee, 0);
    assert_eq!(vault.fee_per_share, 0);
}

#[test]
fn claim_fee_pays_and_records() {
    let mut vault = pda_vault(&[(1, 1), (2, 1)]);
    vault.fund_fee(10).unwrap();
    let paid = Cell::new(0u64);
    let r = handle_claim_fee(&mut vault, 0, &key(1), |a: u64| {
        paid.set(a);
        Ok(())
    });
    assert_eq!(r, Ok(5));
    assert_eq!(paid.get(), 5);
    assert_eq!(vault.users[0].fee_claimed, 5);
}

#[test]
fn claim_fee_failed_transfer_leaves_vault() {
    let mut vault = pda_vault(&[(1, 1)]);
    vault.fund_fee(10).unwrap();
    let r = handle_claim_fee(&mut vault, 0, &key(1), |_a: u64| Err(FeeVaultError::InvalidFeeVault));
    assert_eq!(r, Err(FeeVaultError::InvalidFeeVault));
    assert_eq!(vault.users[0].fee_claimed, 0);
    assert_eq!(vault.users[0].fee_per_share_checkpoint, 0);
}

#[test]
fn initialize_rejects_unsupported_mint() {
    let mut vault = FeeVault::default();
    let r = handle_initialize_fee_vault(
        &mut vault,
        &key(77),
        &[MintExtension::TransferFeeConfig, MintExtension::Other],
        &params(&[(1, 1)]),
        &key(100),
        &key(101),
        &key(102),
    );
    assert_eq!(r, Err(FeeVaultError::InvalidMint));
    let r = handle_initialize_fee_vault(
        &mut vault,
        &key(77),
        &[MintExtension::TransferFeeConfig, MintExtension::TokenMetadata],
        &params(&[(1, 1)]),
        &key(100),
        &key(101),
        &key(102),
    );
    assert_eq!(r, Ok(()));
    assert_eq!(vault.token_flag, 1);
}

#[test]
fn initialize_rejects_bad_parameters() {
    let mut vault = FeeVault::default();
    let r = handle_initialize_fee_vault(&mut vault, &key(77), &[], &params(&[]), &key(100), &key(101), &key(102));
    assert_eq!(r, Err(FeeVaultError::InvalidFeeVaultParameters));
    let r = handle_initialize_fee_vault(
        &mut vault,
        &key(77),
        &[],
        &params(&[(1, u32::MAX), (2, 1)]),
        &key(100),
        &key(101),
        &key(102),
    );
    assert_eq!(r, Err(FeeVaultError::MathOverflow));
}

#[test]
fn token_program_flags_and_support() {
    let token = Pubkey::new_from_array(TOKEN_PROGRAM_ID);
    assert_eq!(get_token_program_flags(&token), TokenProgramFlags::TokenProgram);
    assert_eq!(get_token_program_flags(&key(3)), TokenProgramFlags::TokenProgram2022);
    assert_eq!(TokenProgramFlags::TokenProgram2022.to_u8(), 1);
    assert!(is_supported_mint(&token, &[MintExtension::Other]));
    assert!(is_supported_mint(&key(3), &[MintExtension::MetadataPointer]));
    assert!(!is_supported_mint(&key(3), &[MintExtension::Other]));
}

#[test]
fn transfer_fee_excluded_amount() {
    assert_eq!(
        calculate_transfer_fee_excluded_amount(100, 3),
        Ok(TransferFeeExcludedAmount { amount: 97, transfer_fee: 3 })
    );
    assert_eq!(calculate_transfer_fee_excluded_amount(3, 4), Err(FeeVaultError::MathOverflow));
}

#[test]
fn null_identity_cannot_fund_for_vault() {
    let vault = pda_vault(&[(1, 1)]);
    assert_eq!(
        validate_funding(&vault, &Pubkey::zeroed(), &key(102), &key(101)),
        Err(FeeVaultError::InvalidSigner)
    );
}
