use vstd::prelude::*;
use crate::error::FeeVaultError;
use crate::harvest::{funding_fee_result, handle_funding_fee, harvest_unsigned, unsigned_harvest_result};
use crate::pubkey::Pubkey;
use crate::state::FeeVault;

verus! {

/// The DAMM v2 pools harvested here collect fees in token B only (mode 1).
pub const DAMM_V2_COLLECT_FEE_ONLY_B: u8 = 1;

/// The bonding-curve configs harvested here collect fees in the quote token
/// only (mode 0).
pub const DBC_COLLECT_FEE_ONLY_QUOTE: u8 = 0;

/// Harvests a DAMM v2 position's fees, claimed by the vault as position
/// owner. Pools that do not collect fees in token B alone are refused.
pub fn handle_funding_by_claim_dammv2_fee<F: FnOnce(Vec<Vec<u8>>) -> Result<u64, FeeVaultError>>(
    vault: &mut FeeVault,
    collect_fee_mode: u8,
    signer: &Pubkey,
    token_b_account: &Pubkey,
    token_b_mint: &Pubkey,
    before_balance: u64,
    op: F,
) -> (r: Result<u64, FeeVaultError>)
    requires
        forall|seeds: Vec<Vec<u8>>| op.requires((seeds,)),
    ensures
        collect_fee_mode != DAMM_V2_COLLECT_FEE_ONLY_B ==> r == Err::<u64, FeeVaultError>(
            FeeVaultError::InvalidDammv2Pool,
        ) && *final(vault) == *old(vault),
        collect_fee_mode == DAMM_V2_COLLECT_FEE_ONLY_B ==> funding_fee_result(
            op,
            *old(vault),
            *signer,
            *token_b_account,
            *token_b_mint,
            before_balance,
            r,
            *final(vault),
        ),
        old(vault).wf() ==> final(vault).wf(),
{
    if collect_fee_mode != DAMM_V2_COLLECT_FEE_ONLY_B {
        return Err(FeeVaultError::InvalidDammv2Pool);
    }
    handle_funding_fee(vault, signer, token_b_account, token_b_mint, before_balance, op)
}

/// Harvests a bonding-curve pool's creator trading fee, claimed by the vault
/// as creator. Configs that do not collect fees in the quote token alone are
/// refused.
pub fn handle_funding_by_claim_dbc_creator_trading_fee<
    F: FnOnce(Vec<Vec<u8>>) -> Result<u64, FeeVaultError>,
>(
    vault: &mut FeeVault,
    collect_fee_mode: u8,
    signer: &Pubkey,
    token_b_account: &Pubkey,
    quote_mint: &Pubkey,
    before_balance: u64,
    op: F,
) -> (r: Result<u64, FeeVaultError>)
    requires
        forall|seeds: Vec<Vec<u8>>| op.requires((seeds,)),
    ensures
        collect_fee_mode != DBC_COLLECT_FEE_ONLY_QUOTE ==> r == Err::<u64, FeeVaultError>(
            FeeVaultError::InvalidDbcPool,
        ) && *final(vault) == *old(vault),
        collect_fee_mode == DBC_COLLECT_FEE_ONLY_QUOTE ==> funding_fee_result(
            op,
            *old(vault),
            *signer,
            *token_b_account,
            *quote_mint,
            before_balance,
            r,
            *final(vault),
        ),
        old(vault).wf() ==> final(vault).wf(),
{
    if collect_fee_mode != DBC_COLLECT_FEE_ONLY_QUOTE {
        return Err(FeeVaultError::InvalidDbcPool);
    }
    handle_funding_fee(vault, signer, token_b_account, quote_mint, before_balance, op)
}

/// Harvests a bonding-curve pool's partner trading fee, claimed by the vault
/// as fee claimer. Configs that do not collect fees in the quote token alone
/// are refused.
pub fn handle_funding_by_claim_dbc_partner_trading_fee<
    F: FnOnce(Vec<Vec<u8>>) -> Result<u64, FeeVaultError>,
>(
    vault: &mut FeeVault,
    collect_fee_mode: u8,
    signer: &Pubkey,
    token_b_account: &Pubkey,
    quote_mint: &Pubkey,
    before_balance: u64,
    op: F,
) -> (r: Result<u64, FeeVaultError>)
    requires
        forall|seeds: Vec<Vec<u8>>| op.requires((seeds,)),
    ensures
        collect_fee_mode != DBC_COLLECT_FEE_ONLY_QUOTE ==> r == Err::<u64, FeeVaultError>(
            FeeVaultError::InvalidDbcPool,
        ) && *final(vault) == *old(vault),
        collect_fee_mode == DBC_COLLECT_FEE_ONLY_QUOTE ==> funding_fee_result(
            op,
            *old(vault),
            *signer,
            *token_b_account,
            *quote_mint,
            before_balance,
            r,
            *final(vault),
        ),
        old(vault).wf() ==> final(vault).wf(),
{
    if collect_fee_mode != DBC_COLLECT_FEE_ONLY_QUOTE {
        return Err(FeeVaultError::InvalidDbcPool);
    }
    handle_funding_fee(vault, signer, token_b_account, quote_mint, before_balance, op)
}

/// Harvests a bonding-curve pool's creator surplus, withdrawn by the vault
/// as creator. Once the surplus has been withdrawn there is nothing to do.
pub fn handle_funding_by_claim_dbc_creator_surplus<
    F: FnOnce(Vec<Vec<u8>>) -> Result<u64, FeeVaultError>,
>(
    vault: &mut FeeVault,
    is_creator_withdraw_surplus: u8,
    signer: &Pubkey,
    token_quote_account: &Pubkey,
    quote_mint: &Pubkey,
    before_balance: u64,
    op: F,
) -> (r: Result<u64, FeeVaultError>)
    requires
        forall|seeds: Vec<Vec<u8>>| op.requires((seeds,)),
    ensures
        is_creator_withdraw_surplus == 1 ==> r == Ok::<u64, FeeVaultError>(0) && *final(vault)
            == *old(vault),
        is_creator_withdraw_surplus != 1 ==> funding_fee_result(
            op,
            *old(vault),
            *signer,
            *token_quote_account,
            *quote_mint,
            before_balance,
            r,
            *final(vault),
        ),
        old(vault).wf() ==> final(vault).wf(),
{
    if is_creator_withdraw_surplus == 1 {
        return Ok(0);
    }
    handle_funding_fee(vault, signer, token_quote_account, quote_mint, before_balance, op)
}

/// Harvests a bonding-curve pool's partner surplus, withdrawn by the vault
/// as partner. Once the surplus has been withdrawn there is nothing to do.
pub fn handle_funding_by_claim_dbc_partner_surplus<
    F: FnOnce(Vec<Vec<u8>>) -> Result<u64, FeeVaultError>,
>(
    vault: &mut FeeVault,
    is_partner_withdraw_surplus: u8,
    signer: &Pubkey,
    token_quote_account: &Pubkey,
    quote_mint: &Pubkey,
    before_balance: u64,
    op: F,
) -> (r: Result<u64, FeeVaultError>)
    requires
        forall|seeds: Vec<Vec<u8>>| op.requires((seeds,)),
    ensures
        is_partner_withdraw_surplus == 1 ==> r == Ok::<u64, FeeVaultError>(0) && *final(vault)
            == *old(vault),
        is_partner_withdraw_surplus != 1 ==> funding_fee_result(
            op,
            *old(vault),
            *signer,
            *token_quote_account,
            *quote_mint,
            before_balance,
            r,
            *final(vault),
        ),
        old(vault).wf() ==> final(vault).wf(),
{
    if is_partner_withdraw_surplus == 1 {
        return Ok(0);
    }
    handle_funding_fee(vault, signer, token_quote_account, quote_mint, before_balance, op)
}

/// Harvests a bonding-curve pool's partner trading fee, paid into the vault's
/// token account by the fee claimer. Configs that do not collect fees in the
/// quote token alone are refused.
pub fn handle_claim_dbc_trading_fee<F: FnOnce() -> Result<u64, FeeVaultError>>(
    vault: &mut FeeVault,
    collect_fee_mode: u8,
    token_b_account: &Pubkey,
    quote_mint: &Pubkey,
    before_balance: u64,
    op: F,
) -> (r: Result<u64, FeeVaultError>)
    requires
        op.requires(()),
    ensures
        collect_fee_mode != DBC_COLLECT_FEE_ONLY_QUOTE ==> r == Err::<u64, FeeVaultError>(
            FeeVaultError::InvalidDbcPool,
        ) && *final(vault) == *old(vault),
        collect_fee_mode == DBC_COLLECT_FEE_ONLY_QUOTE ==> unsigned_harvest_result(
            op,
            *old(vault),
            *token_b_account,
            *quote_mint,
            before_balance,
            r,
            *final(vault),
        ),
        old(vault).wf() ==> final(vault).wf(),
{
    if collect_fee_mode != DBC_COLLECT_FEE_ONLY_QUOTE {
        return Err(FeeVaultError::InvalidDbcPool);
    }
    harvest_unsigned(vault, token_b_account, quote_mint, before_balance, op)
}

/// Harvests a bonding-curve pool's creator trading fee, paid into the
/// vault's token account by the creator. Configs that do not collect fees in
/// the quote token alone are refused.
pub fn handle_claim_dbc_creator_trading_fee<F: FnOnce() -> Result<u64, FeeVaultError>>(
    vault: &mut FeeVault,
    collect_fee_mode: u8,
    token_b_account: &Pubkey,
    quote_mint: &Pubkey,
    before_balance: u64,
    op: F,
) -> (r: Result<u64, FeeVaultError>)
    requires
        op.requires(()),
    ensures
        collect_fee_mode != DBC_COLLECT_FEE_ONLY_QUOTE ==> r == Err::<u64, FeeVaultError>(
            FeeVaultError::InvalidDbcPool,
        ) && *final(vault) == *old(vault),
        collect_fee_mode == DBC_COLLECT_FEE_ONLY_QUOTE ==> unsigned_harvest_result(
            op,
            *old(vault),
            *token_b_account,
            *quote_mint,
            before_balance,
            r,
            *final(vault),
        ),
        old(vault).wf() ==> final(vault).wf(),
{
    if collect_fee_mode != DBC_COLLECT_FEE_ONLY_QUOTE {
        return Err(FeeVaultError::InvalidDbcPool);
    }
    harvest_unsigned(vault, token_b_account, quote_mint, before_balance, op)
}

/// Harvests a bonding-curve pool's partner surplus, paid into the vault's
/// token account by the fee claimer.
pub fn handle_withdraw_dbc_partner_surplus<F: FnOnce() -> Result<u64, FeeVaultError>>(
    vault: &mut FeeVault,
    token_quote_account: &Pubkey,
    quote_mint: &Pubkey,
    before_balance: u64,
    op: F,
) -> (r: Result<u64, FeeVaultError>)
    requires
        op.requires(()),
    ensures
        unsigned_harvest_result(
            op,
            *old(vault),
            *token_quote_account,
            *quote_mint,
            before_balance,
            r,
            *final(vault),
        ),
        old(vault).wf() ==> final(vault).wf(),
{
    harvest_unsigned(vault, token_quote_account, quote_mint, before_balance, op)
}

} // verus!
