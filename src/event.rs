use vstd::prelude::*;
use crate::params::InitializeFeeVaultParameters;
use crate::pubkey::Pubkey;

verus! {

/// Emitted when a vault is created.
#[derive(Debug)]
pub struct EvtInitializeFeeVault {
    pub fee_vault: Pubkey,
    pub token_mint: Pubkey,
    pub owner: Pubkey,
    pub base: Pubkey,
    pub params: InitializeFeeVaultParameters,
}

/// Emitted when a vault is funded.
#[derive(Debug)]
pub struct EvtFundFee {
    pub source_program: Pubkey,
    pub fee_vault: Pubkey,
    pub funded_amount: u64,
    pub fee_per_share: u128,
    pub payload: Vec<u8>,
}

/// Emitted when a beneficiary claims.
#[derive(Clone, Copy, Debug)]
pub struct EvtClaimFee {
    pub fee_vault: Pubkey,
    pub user: Pubkey,
    pub index: u8,
    pub claimed_fee: u64,
}

} // verus!
