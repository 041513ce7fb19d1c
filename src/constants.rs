use vstd::prelude::*;

verus! {

/// The number of beneficiary slots in a fee vault.
pub const MAX_USER: usize = 5;

/// The number of fractional bits of the fee-per-share accumulator.
pub const PRECISION_SCALE: u8 = 52;

/// `b"fee_vault"`: the label of a fee vault's signing seeds.
pub const FEE_VAULT_PREFIX: [u8; 9] = [102u8, 101, 101, 95, 118, 97, 117, 108, 116];

/// `b"fee_vault_authority"`: the label of the authority over token vaults.
pub const FEE_VAULT_AUTHORITY_PREFIX: [u8; 19] = [
    102u8, 101, 101, 95, 118, 97, 117, 108, 116, 95, 97, 117, 116, 104, 111, 114, 105, 116, 121,
];

/// `b"token_vault"`: the label of a fee vault's token account.
pub const TOKEN_VAULT_PREFIX: [u8; 11] = [116u8, 111, 107, 101, 110, 95, 118, 97, 117, 108, 116];

} // verus!
