use vstd::prelude::*;
use crate::error::FeeVaultError;
use crate::pubkey::Pubkey;
use crate::state::{FeeVault, seeds_view};

verus! {

/// What a harvest makes of the custody balance before and after the outside
/// operation: a fall is an error, no change funds nothing, and a rise is
/// funded once, in full. The pair is the new record and the funded amount.
pub open spec fn harvest_outcome(vault: FeeVault, before: u64, after: u64) -> Result<
    (FeeVault, u64),
    FeeVaultError,
> {
    if after < before {
        Err(FeeVaultError::MathOverflow)
    } else if after == before {
        Ok((vault, 0))
    } else {
        let delta = (after - before) as u64;
        match vault.fund_error(delta) {
            Some(e) => Err(e),
            None => Ok((vault.funded(delta), delta)),
        }
    }
}

/// Whether `r` and the record `after_vault` are what a harvest of `vault`
/// from balance `before` to balance `after` leaves.
pub open spec fn harvested(
    vault: FeeVault,
    before: u64,
    after: u64,
    r: Result<u64, FeeVaultError>,
    after_vault: FeeVault,
) -> bool {
    match harvest_outcome(vault, before, after) {
        Ok((v, amount)) => r == Ok::<u64, FeeVaultError>(amount) && after_vault == v,
        Err(e) => r == Err::<u64, FeeVaultError>(e) && after_vault == vault,
    }
}

/// The failure, if any, of a funding path that signs for the vault: the
/// signer must be a beneficiary, the token account and mint must be the
/// vault's own, and the vault must sit at a derived address.
pub open spec fn funding_access_error(
    vault: FeeVault,
    signer: Pubkey,
    token_vault: Pubkey,
    token_mint: Pubkey,
) -> Option<FeeVaultError> {
    if !vault.has_share_holder(signer) {
        Some(FeeVaultError::InvalidSigner)
    } else if vault.token_vault != token_vault || vault.token_mint != token_mint {
        Some(FeeVaultError::InvalidFeeVault)
    } else if vault.fee_vault_type != 1 {
        Some(FeeVaultError::InvalidFeeVault)
    } else {
        None
    }
}

/// Checks a funding path's accounts against the vault.
pub fn validate_funding(
    vault: &FeeVault,
    signer: &Pubkey,
    token_vault: &Pubkey,
    token_mint: &Pubkey,
) -> (r: Result<(), FeeVaultError>)
    ensures
        r == match funding_access_error(*vault, *signer, *token_vault, *token_mint) {
            Some(e) => Err::<(), FeeVaultError>(e),
            None => Ok(()),
        },
{
    if !vault.is_share_holder(signer) {
        return Err(FeeVaultError::InvalidSigner);
    }
    if !(vault.token_vault.same(token_vault) && vault.token_mint.same(token_mint)) {
        return Err(FeeVaultError::InvalidFeeVault);
    }
    if vault.fee_vault_type != 1 {
        return Err(FeeVaultError::InvalidFeeVault);
    }
    Ok(())
}

/// Funds the vault with the rise of its custody balance from `before` to
/// `after`, and returns the funded amount.
pub fn settle_harvest(vault: &mut FeeVault, before: u64, after: u64) -> (r: Result<
    u64,
    FeeVaultError,
>)
    ensures
        harvested(*old(vault), before, after, r, *final(vault)),
        old(vault).wf() ==> final(vault).wf(),
{
    if after < before {
        return Err(FeeVaultError::MathOverflow);
    }
    let claimed_amount = after - before;
    if claimed_amount == 0 {
        return Ok(0);
    }
    match vault.fund_fee(claimed_amount) {
        Ok(()) => Ok(claimed_amount),
        Err(e) => Err(e),
    }
}

/// What `handle_funding_fee` may return and leave: a rejection changes
/// nothing; otherwise `op` was run with the vault's seeds, and the record
/// ends as `harvested` says for the balance it returned, or unchanged when it
/// failed.
pub open spec fn funding_fee_result<F: FnOnce(Vec<Vec<u8>>) -> Result<u64, FeeVaultError>>(
    op: F,
    vault: FeeVault,
    signer: Pubkey,
    token_vault: Pubkey,
    token_mint: Pubkey,
    before: u64,
    r: Result<u64, FeeVaultError>,
    after_vault: FeeVault,
) -> bool {
    match funding_access_error(vault, signer, token_vault, token_mint) {
        Some(e) => r == Err::<u64, FeeVaultError>(e) && after_vault == vault,
        None => exists|seeds: Vec<Vec<u8>>, out: Result<u64, FeeVaultError>|
            {
                &&& seeds_view(seeds@) == vault.seeds()
                &&& op.ensures((seeds,), out)
                &&& match out {
                    Ok(after) => harvested(vault, before, after, r, after_vault),
                    Err(e) => r == Err::<u64, FeeVaultError>(e) && after_vault == vault,
                }
            },
    }
}

/// What a harvest that the vault does not sign may return and leave: the
/// token account and mint must be the vault's own; then `op` was run, and
/// the record ends as `harvested` says for the balance it returned, or
/// unchanged when it failed.
pub open spec fn unsigned_harvest_result<F: FnOnce() -> Result<u64, FeeVaultError>>(
    op: F,
    vault: FeeVault,
    token_account: Pubkey,
    token_mint: Pubkey,
    before: u64,
    r: Result<u64, FeeVaultError>,
    after_vault: FeeVault,
) -> bool {
    if vault.token_vault != token_account || vault.token_mint != token_mint {
        r == Err::<u64, FeeVaultError>(FeeVaultError::InvalidFeeVault) && after_vault == vault
    } else {
        exists|out: Result<u64, FeeVaultError>|
            {
                &&& op.ensures((), out)
                &&& match out {
                    Ok(after) => harvested(vault, before, after, r, after_vault),
                    Err(e) => r == Err::<u64, FeeVaultError>(e) && after_vault == vault,
                }
            }
    }
}

/// A harvest from an outside module that pays the vault's token account
/// without the vault signing: checks the token account and mint, runs `op`,
/// which returns the balance read afterwards, and funds the rise from
/// `before_balance`.
pub fn harvest_unsigned<F: FnOnce() -> Result<u64, FeeVaultError>>(
    vault: &mut FeeVault,
    token_account: &Pubkey,
    token_mint: &Pubkey,
    before_balance: u64,
    op: F,
) -> (r: Result<u64, FeeVaultError>)
    requires
        op.requires(()),
    ensures
        unsigned_harvest_result(op, *old(vault), *token_account, *token_mint, before_balance, r, *final(vault)),
        old(vault).wf() ==> final(vault).wf(),
{
    if !(vault.token_vault.same(token_account) && vault.token_mint.same(token_mint)) {
        return Err(FeeVaultError::InvalidFeeVault);
    }
    let out = op();
    match out {
        Ok(after) => settle_harvest(vault, before_balance, after),
        Err(e) => Err(e),
    }
}

/// A funding path that pulls revenue from an outside module: validates the
/// accounts, runs `op` with the vault's signing seeds, which performs the
/// outside call and returns the custody balance read afterwards, and funds
/// the rise from `before_balance`. Whatever `op` returns, the record ends
/// as `harvested` says for that balance, or unchanged when `op` fails.
pub fn handle_funding_fee<F: FnOnce(Vec<Vec<u8>>) -> Result<u64, FeeVaultError>>(
    vault: &mut FeeVault,
    signer: &Pubkey,
    token_vault: &Pubkey,
    token_mint: &Pubkey,
    before_balance: u64,
    op: F,
) -> (r: Result<u64, FeeVaultError>)
    requires
        forall|seeds: Vec<Vec<u8>>| op.requires((seeds,)),
    ensures
        funding_fee_result(
            op,
            *old(vault),
            *signer,
            *token_vault,
            *token_mint,
            before_balance,
            r,
            *final(vault),
        ),
        old(vault).wf() ==> final(vault).wf(),
{
    match validate_funding(vault, signer, token_vault, token_mint) {
        Ok(()) => {},
        Err(e) => {
            return Err(e);
        },
    }
    let seeds = vault.signer_seeds();
    let ghost seeds_given = seeds;
    let out = op(seeds);
    match out {
        Ok(after) => {
            let r = settle_harvest(vault, before_balance, after);
            assert(op.ensures((seeds_given,), out));
            r
        },
        Err(e) => {
            assert(op.ensures((seeds_given,), out));
            Err(e)
        },
    }
}

} // verus!
