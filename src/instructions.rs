use vstd::prelude::*;
use crate::error::FeeVaultError;
use crate::params::{InitializeFeeVaultParameters, requested_share_sum, valid_users};
use crate::pubkey::Pubkey;
use crate::state::{FeeVault, FeeVaultType};
use crate::token::{
    MintExtension, TOKEN_PROGRAM_ID, calculate_transfer_fee_excluded_amount,
    get_token_program_flags, is_supported_mint, supported_mint,
};

verus! {

/// The amount a user funds: what was asked, up to the user's balance.
pub open spec fn transfer_amount(max_amount: u64, funder_balance: u64) -> u64 {
    if max_amount < funder_balance {
        max_amount
    } else {
        funder_balance
    }
}

/// What funding from a user's own tokens may return and leave. The amount
/// moved is the smaller of `max_amount` and the user's balance, and must not
/// be zero; the vault is funded with what arrives once `fee_of` (the token
/// program's transfer fee for that amount) is taken out; the record changes
/// only when the transfer `transfer` also succeeds.
pub open spec fn fund_fee_result<
    G: FnOnce(u64) -> Result<u64, FeeVaultError>,
    T: FnOnce(u64) -> Result<(), FeeVaultError>,
>(
    fee_of: G,
    transfer: T,
    vault: FeeVault,
    max_amount: u64,
    funder_balance: u64,
    r: Result<u64, FeeVaultError>,
    after_vault: FeeVault,
) -> bool {
    let amount = transfer_amount(max_amount, funder_balance);
    if amount == 0 {
        r == Err::<u64, FeeVaultError>(FeeVaultError::AmountIsZero) && after_vault == vault
    } else {
        exists|fee_out: Result<u64, FeeVaultError>|
            {
                &&& fee_of.ensures((amount,), fee_out)
                &&& match fee_out {
                    Err(e) => r == Err::<u64, FeeVaultError>(e) && after_vault == vault,
                    Ok(fee) => if fee > amount {
                        r == Err::<u64, FeeVaultError>(FeeVaultError::MathOverflow) && after_vault
                            == vault
                    } else {
                        let net = (amount - fee) as u64;
                        match vault.fund_error(net) {
                            Some(e) => r == Err::<u64, FeeVaultError>(e) && after_vault == vault,
                            None => exists|sent: Result<(), FeeVaultError>|
                                {
                                    &&& transfer.ensures((amount,), sent)
                                    &&& match sent {
                                        Err(e) => r == Err::<u64, FeeVaultError>(e) && after_vault
                                            == vault,
                                        Ok(()) => r == Ok::<u64, FeeVaultError>(net) && after_vault
                                            == vault.funded(net),
                                    }
                                },
                        }
                    },
                }
            }
    }
}

/// Funds the vault from a user's tokens and returns the amount funded.
/// `fee_of` gives the token program's transfer fee for an amount and
/// `transfer` moves an amount from the user to the vault's token account.
pub fn handle_fund_fee<
    G: FnOnce(u64) -> Result<u64, FeeVaultError>,
    T: FnOnce(u64) -> Result<(), FeeVaultError>,
>(
    vault: &mut FeeVault,
    max_amount: u64,
    funder_balance: u64,
    fee_of: G,
    transfer: T,
) -> (r: Result<u64, FeeVaultError>)
    requires
        forall|a: u64| fee_of.requires((a,)),
        forall|a: u64| transfer.requires((a,)),
    ensures
        fund_fee_result(fee_of, transfer, *old(vault), max_amount, funder_balance, r, *final(vault)),
        old(vault).wf() ==> final(vault).wf(),
{
    let amount = if max_amount < funder_balance {
        max_amount
    } else {
        funder_balance
    };
    if amount == 0 {
        return Err(FeeVaultError::AmountIsZero);
    }
    let fee_out = fee_of(amount);
    assert(fee_of.ensures((amount,), fee_out));
    let fee = match fee_out {
        Ok(f) => f,
        Err(e) => {
            return Err(e);
        },
    };
    let excluded = match calculate_transfer_fee_excluded_amount(amount, fee) {
        Ok(x) => x,
        Err(e) => {
            return Err(e);
        },
    };
    let mut next = *vault;
    match next.fund_fee(excluded.amount) {
        Ok(()) => {},
        Err(e) => {
            return Err(e);
        },
    }
    let sent = transfer(amount);
    assert(transfer.ensures((amount,), sent));
    match sent {
        Ok(()) => {},
        Err(e) => {
            return Err(e);
        },
    }
    *vault = next;
    Ok(excluded.amount)
}

/// What a claim that pays out may return and leave: the claim as
/// `validate_and_claim_fee` makes it, and, when it pays something, the
/// transfer `transfer` of that amount to the beneficiary; the record
/// changes only when both succeed.
pub open spec fn claim_fee_result<T: FnOnce(u64) -> Result<(), FeeVaultError>>(
    transfer: T,
    vault: FeeVault,
    index: u8,
    user: Pubkey,
    r: Result<u64, FeeVaultError>,
    after_vault: FeeVault,
) -> bool {
    match vault.claim_error(index, user) {
        Some(e) => r == Err::<u64, FeeVaultError>(e) && after_vault == vault,
        None => {
            let amount = vault.users[index as int].pending(vault.fee_per_share) as u64;
            if amount == 0 {
                r == Ok::<u64, FeeVaultError>(0) && after_vault == vault.claimed(index as int)
            } else {
                exists|sent: Result<(), FeeVaultError>|
                    {
                        &&& transfer.ensures((amount,), sent)
                        &&& match sent {
                            Err(e) => r == Err::<u64, FeeVaultError>(e) && after_vault == vault,
                            Ok(()) => r == Ok::<u64, FeeVaultError>(amount) && after_vault
                                == vault.claimed(index as int),
                        }
                    }
            }
        },
    }
}

/// Pays out slot `index` to `user` and returns the amount paid.
/// `transfer` moves an amount from the vault's token account to the user.
pub fn handle_claim_fee<T: FnOnce(u64) -> Result<(), FeeVaultError>>(
    vault: &mut FeeVault,
    index: u8,
    user: &Pubkey,
    transfer: T,
) -> (r: Result<u64, FeeVaultError>)
    requires
        forall|a: u64| transfer.requires((a,)),
    ensures
        claim_fee_result(transfer, *old(vault), index, *user, r, *final(vault)),
        old(vault).wf() ==> final(vault).wf(),
{
    let mut next = *vault;
    let amount = match next.validate_and_claim_fee(index, user) {
        Ok(a) => a,
        Err(e) => {
            return Err(e);
        },
    };
    if amount > 0 {
        let sent = transfer(amount);
        assert(transfer.ensures((amount,), sent));
        match sent {
            Ok(()) => {},
            Err(e) => {
                return Err(e);
            },
        }
    }
    *vault = next;
    Ok(amount)
}

/// The failure, if any, of creating a vault: an unsupported mint, invalid
/// users, a record already set up, or shares that do not add up within 32
/// bits.
pub open spec fn creation_error(
    vault: FeeVault,
    mint_supported: bool,
    users: Seq<crate::params::UserShare>,
) -> Option<FeeVaultError> {
    if !mint_supported {
        Some(FeeVaultError::InvalidMint)
    } else if !valid_users(users) {
        Some(FeeVaultError::InvalidFeeVaultParameters)
    } else if !vault.is_zeroed() {
        Some(FeeVaultError::InvalidFeeVault)
    } else if requested_share_sum(users) > u32::MAX {
        Some(FeeVaultError::MathOverflow)
    } else {
        None
    }
}

/// Validates the parameters and sets up the vault.
pub fn create_fee_vault(
    vault: &mut FeeVault,
    mint_supported: bool,
    params: &InitializeFeeVaultParameters,
    owner: &Pubkey,
    token_flag: u8,
    token_mint: &Pubkey,
    token_vault: &Pubkey,
    base: &Pubkey,
    fee_vault_bump: u8,
    fee_vault_type: u8,
) -> (r: Result<(), FeeVaultError>)
    ensures
        r == match creation_error(*old(vault), mint_supported, params.users@) {
            Some(e) => Err::<(), FeeVaultError>(e),
            None => Ok(()),
        },
        r is Err ==> *final(vault) == *old(vault),
        r is Ok ==> final(vault).initialized_as(
            *owner,
            token_flag,
            *token_mint,
            *token_vault,
            *base,
            fee_vault_bump,
            fee_vault_type,
            params.users@,
        ),
        r is Ok ==> final(vault).wf(),
{
    if !mint_supported {
        return Err(FeeVaultError::InvalidMint);
    }
    match params.validate() {
        Ok(()) => {},
        Err(e) => {
            return Err(e);
        },
    }
    vault.initialize(
        owner,
        token_flag,
        token_mint,
        token_vault,
        base,
        fee_vault_bump,
        fee_vault_type,
        params.users.as_slice(),
    )
}

/// Creates a vault at a plain account, which cannot sign for itself: no
/// base key, no bump. `mint_owner` and `extensions` describe the token mint.
pub fn handle_initialize_fee_vault(
    vault: &mut FeeVault,
    mint_owner: &Pubkey,
    extensions: &[MintExtension],
    params: &InitializeFeeVaultParameters,
    owner: &Pubkey,
    token_mint: &Pubkey,
    token_vault: &Pubkey,
) -> (r: Result<(), FeeVaultError>)
    ensures
        r == match creation_error(
            *old(vault),
            supported_mint(mint_owner.bytes == TOKEN_PROGRAM_ID, extensions@),
            params.users@,
        ) {
            Some(e) => Err::<(), FeeVaultError>(e),
            None => Ok(()),
        },
        r is Err ==> *final(vault) == *old(vault),
        r is Ok ==> final(vault).initialized_as(
            *owner,
            if mint_owner.bytes == TOKEN_PROGRAM_ID {
                0u8
            } else {
                1u8
            },
            *token_mint,
            *token_vault,
            final(vault).base,
            0,
            FeeVaultType::NonPdaAccount.code(),
            params.users@,
        ),
        r is Ok ==> final(vault).base.is_null(),
        r is Ok ==> final(vault).wf(),
{
    let supported = is_supported_mint(mint_owner, extensions);
    let flag = get_token_program_flags(mint_owner).to_u8();
    let base = Pubkey::zeroed();
    create_fee_vault(
        vault,
        supported,
        params,
        owner,
        flag,
        token_mint,
        token_vault,
        &base,
        0,
        FeeVaultType::NonPdaAccount.to_u8(),
    )
}

/// Creates a vault at the address derived from `base` and the mint, which
/// signs for itself with `fee_vault_bump`.
pub fn handle_initialize_fee_vault_pda(
    vault: &mut FeeVault,
    mint_owner: &Pubkey,
    extensions: &[MintExtension],
    params: &InitializeFeeVaultParameters,
    owner: &Pubkey,
    token_mint: &Pubkey,
    token_vault: &Pubkey,
    base: &Pubkey,
    fee_vault_bump: u8,
) -> (r: Result<(), FeeVaultError>)
    ensures
        r == match creation_error(
            *old(vault),
            supported_mint(mint_owner.bytes == TOKEN_PROGRAM_ID, extensions@),
            params.users@,
        ) {
            Some(e) => Err::<(), FeeVaultError>(e),
            None => Ok(()),
        },
        r is Err ==> *final(vault) == *old(vault),
        r is Ok ==> final(vault).initialized_as(
            *owner,
            if mint_owner.bytes == TOKEN_PROGRAM_ID {
                0u8
            } else {
                1u8
            },
            *token_mint,
            *token_vault,
            *base,
            fee_vault_bump,
            FeeVaultType::PdaAccount.code(),
            params.users@,
        ),
        r is Ok ==> final(vault).wf(),
{
    let supported = is_supported_mint(mint_owner, extensions);
    let flag = get_token_program_flags(mint_owner).to_u8();
    create_fee_vault(
        vault,
        supported,
        params,
        owner,
        flag,
        token_mint,
        token_vault,
        base,
        fee_vault_bump,
        FeeVaultType::PdaAccount.to_u8(),
    )
}

} // verus!
