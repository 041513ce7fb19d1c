use dynamic_fee_sharing::constants::{MAX_USER, PRECISION_SCALE};
use dynamic_fee_sharing::error::FeeVaultError;
use dynamic_fee_sharing::params::{InitializeFeeVaultParameters, UserShare};
use dynamic_fee_sharing::pubkey::Pubkey;
use dynamic_fee_sharing::state::{FeeVault, FeeVaultType};

fn key(n: u8) -> Pubkey {
    Pubkey::new_from_array([n; 32])
}

fn vault_with(shares: &[(u8, u32)]) -> FeeVault {
    let users: Vec<UserShare> = shares
        .iter()
        .map(|&(k, share)| UserShare { address: key(k), share })
        .collect();
    let mut vault = FeeVault::default();
    vault
        .initialize(&key(100), 0, &key(101), &key(102), &key(103), 255, 1, &users)
        .unwrap();
    vault
}

fn assert_same(a: &FeeVault, b: &FeeVault) {
    assert_eq!(a.total_share, b.total_share);
    assert_eq!(a.total_funded_fee, b.total_funded_fee);
    assert_eq!(a.fee_per_share, b.fee_per_share);
    for i in 0..MAX_USER {
        assert_eq!(a.users[i].address, b.users[i].address);
        assert_eq!(a.users[i].share, b.users[i].share);
        assert_eq!(a.users[i].fee_claimed, b.users[i].fee_claimed);
        assert_eq!(a.users[i].fee_per_share_checkpoint, b.users[i].fee_per_share_checkpoint);
    }
}

#[test]
fn fund_fee_small_amount_wont_loss_precision() {
    for amount in 1..=10000u64 {
        let mut fee_vault = FeeVault { total_share: u32::MAX, ..Default::default() };
        fee_vault.fund_fee(amount).unwrap();
        assert!(fee_vault.fee_per_share > 0);
    }
}

#[test]
fn initialize_sets_up_slots() {
    let vault = vault_with(&[(1, 1), (2, 3)]);
    assert_eq!(vault.owner, key(100));
    assert_eq!(vault.token_mint, key(101));
    assert_eq!(vault.token_vault, key(102));
    assert_eq!(vault.base, key(103));
    assert_eq!(vault.fee_vault_bump, 255);
    assert_eq!(vault.fee_vault_type, FeeVaultType::PdaAccount.to_u8());
    assert_eq!(vault.total_share, 4);
    assert_eq!(vault.fee_per_share, 0);
    assert_eq!(vault.total_funded_fee, 0);
    assert_eq!(vault.users[0].address, key(1));
    assert_eq!(vault.users[1].share, 3);
    assert_eq!(vault.users[2].share, 0);
    assert_eq!(vault.users[4].address, Pubkey::zeroed());
}

#[test]
fn initialize_too_many_users_fails() {
    let users: Vec<UserShare> = (1..=6u8).map(|k| UserShare { address: key(k), share: 1 }).collect();
    let mut vault = FeeVault::default();
    let r = vault.initialize(&key(100), 0, &key(101), &key(102), &key(103), 0, 0, &users);
    assert_eq!(r, Err(FeeVaultError::ExceededUser));
    assert_eq!(vault.total_share, 0);
}

#[test]
fn initialize_share_overflow_fails() {
    let users = vec![
        UserShare { address: key(1), share: u32::MAX },
        UserShare { address: key(2), share: 1 },
    ];
    let mut vault = FeeVault::default();
    let r = vault.initialize(&key(100), 0, &key(101), &key(102), &key(103), 0, 0, &users);
    assert_eq!(r, Err(FeeVaultError::MathOverflow));
    assert_eq!(vault.owner, Pubkey::zeroed());
}

#[test]
fn validate_parameters() {
    let ok = InitializeFeeVaultParameters {
        padding: [0; 8],
        users: vec![UserShare { address: key(1), share: 1 }, UserShare { address: key(1), share: 2 }],
    };
    assert_eq!(ok.validate(), Ok(()));
    let empty = InitializeFeeVaultParameters { padding: [0; 8], users: vec![] };
    assert_eq!(empty.validate(), Err(FeeVaultError::InvalidFeeVaultParameters));
    let six = InitializeFeeVaultParameters {
        padding: [0; 8],
        users: (1..=6u8).map(|k| UserShare { address: key(k), share: 1 }).collect(),
    };
    assert_eq!(six.validate(), Err(FeeVaultError::InvalidFeeVaultParameters));
    let zero_share = InitializeFeeVaultParameters {
        padding: [0; 8],
        users: vec![UserShare { address: key(1), share: 0 }],
    };
    assert_eq!(zero_share.validate(), Err(FeeVaultError::InvalidFeeVaultParameters));
    let null = InitializeFeeVaultParameters {
        padding: [0; 8],
        users: vec![UserShare { address: Pubkey::zeroed(), share: 5 }],
    };
    assert_eq!(null.validate(), Err(FeeVaultError::InvalidFeeVaultParameters));
}

#[test]
fn example_even_split() {
    let mut vault = vault_with(&[(1, 1), (2, 3)]);
    assert_eq!(PRECISION_SCALE, 52);
    vault.fund_fee(4000).unwrap();
    assert_eq!(vault.fee_per_share, 1000u128 << 52);
    assert_eq!(vault.total_funded_fee, 4000);
    let x = vault.validate_and_claim_fee(0, &key(1)).unwrap();
    let y = vault.validate_and_claim_fee(1, &key(2)).unwrap();
    assert_eq!(x, 1000);
    assert_eq!(y, 3000);
    assert_eq!(x + y, vault.total_funded_fee);
    assert_eq!(vault.users[0].fee_claimed, 1000);
    assert_eq!(vault.users[1].fee_per_share_checkpoint, 1000u128 << 52);
}

#[test]
fn example_rounding_dust() {
    let mut vault = vault_with(&[(1, 1), (2, 1), (3, 1)]);
    vault.fund_fee(10).unwrap();
    let delta = (10u128 << 52) / 3;
    assert_eq!(vault.fee_per_share, delta);
    assert!(delta * 3 < 10u128 << 52);
    let mut total = 0u64;
    for i in 0..3u8 {
        total += vault.validate_and_claim_fee(i, &key(i + 1)).unwrap();
    }
    assert_eq!(total, 9);
    assert!(total < 10);
}

#[test]
fn fund_raises_accumulator() {
    let mut vault = vault_with(&[(1, 7)]);
    let before = vault.fee_per_share;
    vault.fund_fee(1).unwrap();
    assert!(vault.fee_per_share > before);
}

#[test]
fn fund_without_shares_fails() {
    let mut vault = FeeVault::default();
    assert_eq!(vault.fund_fee(5), Err(FeeVaultError::MathOverflow));
    assert_eq!(vault.total_funded_fee, 0);
    assert_eq!(vault.fund_fee(0), Ok(()));
}

#[test]
fn fund_zero_changes_nothing() {
    let mut vault = vault_with(&[(1, 2), (2, 5)]);
    vault.fund_fee(70).unwrap();
    let before = vault;
    vault.fund_fee(0).unwrap();
    assert_same(&vault, &before);
}

#[test]
fn fund_total_overflow_leaves_vault() {
    let mut vault = vault_with(&[(1, 1)]);
    vault.fund_fee(u64::MAX).unwrap();
    let before = vault;
    assert_eq!(vault.fund_fee(1), Err(FeeVaultError::MathOverflow));
    assert_same(&vault, &before);
}

#[test]
fn fund_sequence_sums_exactly() {
    let mut vault = vault_with(&[(1, 3), (2, 4)]);
    let amounts = [5u64, 0, 17, 1, 1000, 3];
    let mut exact = 0u128;
    for a in amounts {
        vault.fund_fee(a).unwrap();
        exact += (a as u128) << 52;
    }
    assert_eq!(vault.total_funded_fee, amounts.iter().sum::<u64>());
    let credited = vault.fee_per_share * 7;
    assert!(credited <= exact);
    assert!(exact - credited < amounts.len() as u128 * 7);
}

#[test]
fn claim_twice_pays_once() {
    let mut vault = vault_with(&[(1, 1), (2, 3)]);
    vault.fund_fee(400).unwrap();
    let first = vault.validate_and_claim_fee(1, &key(2)).unwrap();
    let second = vault.validate_and_claim_fee(1, &key(2)).unwrap();
    assert_eq!(first, 300);
    assert_eq!(second, 0);
    assert_eq!(vault.users[1].fee_claimed, 300);
}

#[test]
fn claim_with_bad_index_fails() {
    let mut vault = vault_with(&[(1, 1)]);
    vault.fund_fee(10).unwrap();
    let before = vault;
    assert_eq!(vault.validate_and_claim_fee(5, &key(1)), Err(FeeVaultError::InvalidUserIndex));
    assert_same(&vault, &before);
}

#[test]
fn claim_by_other_address_fails() {
    let mut vault = vault_with(&[(1, 1), (2, 1)]);
    vault.fund_fee(10).unwrap();
    let before = vault;
    assert_eq!(vault.validate_and_claim_fee(0, &key(2)), Err(FeeVaultError::InvalidUserAddress));
    assert_same(&vault, &before);
}

#[test]
fn conservation_over_mixed_history() {
    let mut vault = vault_with(&[(1, 3), (2, 5), (3, 11)]);
    let mut claimed = 0u64;
    for (round, amount) in [13u64, 1, 999, 7, 123456].iter().enumerate() {
        vault.fund_fee(*amount).unwrap();
        let i = (round % 3) as u8;
        claimed += vault.validate_and_claim_fee(i, &key(i + 1)).unwrap();
        assert!(claimed <= vault.total_funded_fee);
    }
    let mut pending = 0u64;
    for i in 0..3u8 {
        pending += vault.validate_and_claim_fee(i, &key(i + 1)).unwrap();
    }
    assert!(claimed + pending <= vault.total_funded_fee);
    assert!(vault.total_funded_fee - (claimed + pending) <= 3 * 5);
}

#[test]
fn share_holder_lookup() {
    let vault = vault_with(&[(1, 1), (2, 3)]);
    assert!(vault.is_share_holder(&key(1)));
    assert!(vault.is_share_holder(&key(2)));
    assert!(!vault.is_share_holder(&key(9)));
}

#[test]
fn signer_seeds_of_vault() {
    let vault = vault_with(&[(1, 1)]);
    let seeds = vault.signer_seeds();
    assert_eq!(seeds.len(), 4);
    assert_eq!(seeds[0], b"fee_vault".to_vec());
    assert_eq!(seeds[1], vec![103u8; 32]);
    assert_eq!(seeds[2], vec![101u8; 32]);
    assert_eq!(seeds[3], vec![255u8]);
}

#[test]
fn vault_type_codes() {
    assert_eq!(FeeVaultType::NonPdaAccount.to_u8(), 0);
    assert_eq!(FeeVaultType::PdaAccount.to_u8(), 1);
    assert_eq!(FeeVaultType::from_u8(1), Some(FeeVaultType::PdaAccount));
    assert_eq!(FeeVaultType::from_u8(2), None);
}

#[test]
fn dust_after_fundings_is_at_most_one_unit_per_slot() {
    let mut vault = vault_with(&[(1, 3), (2, 5), (3, 7), (4, 11), (5, 13)]);
    for a in [1u64, 2, 3, 1_000_003, 77] {
        vault.fund_fee(a).unwrap();
    }
    let mut entitled = 0u64;
    for i in 0..5u8 {
        entitled += vault.validate_and_claim_fee(i, &key(i + 1)).unwrap();
    }
    assert!(entitled <= vault.total_funded_fee);
    assert!(vault.total_funded_fee - entitled <= MAX_USER as u64);
}

#[test]
fn null_identity_is_not_a_beneficiary() {
    let vault = vault_with(&[(1, 1), (2, 3)]);
    assert!(!vault.is_share_holder(&Pubkey::zeroed()));
}

#[test]
fn initialize_twice_is_refused() {
    let mut vault = vault_with(&[(1, 1), (2, 3)]);
    vault.fund_fee(40).unwrap();
    let users = vec![UserShare { address: key(9), share: 1 }];
    let r = vault.initialize(&key(100), 0, &key(101), &key(102), &key(103), 0, 0, &users);
    assert_eq!(r, Err(FeeVaultError::InvalidFeeVault));
    assert_eq!(vault.total_funded_fee, 40);
    assert_eq!(vault.users[0].address, key(1));
}
