use vstd::prelude::*;
use crate::error::FeeVaultError;
use crate::harvest::{harvested, settle_harvest};
use crate::pubkey::Pubkey;
use crate::state::{FeeVault, bytes_to_vec, seeds_view};

verus! {

/// The address of the DAMM v2 program.
pub const DAMM_V2_PROGRAM_ID: [u8; 32] = [
    9u8, 45, 33, 53, 101, 122, 21, 156, 43, 135, 212, 182, 106, 112, 219, 142, 151, 82, 56, 159,
    247, 106, 175, 32, 108, 237, 6, 58, 56, 249, 90, 237,
];

/// The address of the dynamic bonding curve program.
pub const DBC_PROGRAM_ID: [u8; 32] = [
    9u8, 96, 12, 165, 36, 247, 177, 183, 214, 204, 177, 195, 151, 58, 160, 51, 13, 25, 3, 218, 96,
    28, 201, 181, 222, 227, 198, 98, 180, 202, 209, 73,
];

/// Instruction tags (the first eight bytes of an instruction's data) of the
/// operations that only move earned revenue to its owner.
pub const CLAIM_POSITION_FEE: [u8; 8] = [180u8, 38, 154, 17, 133, 33, 162, 211];

pub const CLAIM_REWARD: [u8; 8] = [149u8, 95, 181, 242, 94, 90, 158, 162];

pub const CREATOR_WITHDRAW_SURPLUS: [u8; 8] = [165u8, 3, 137, 7, 28, 134, 76, 80];

pub const CLAIM_CREATOR_TRADING_FEE: [u8; 8] = [82u8, 220, 250, 189, 3, 85, 107, 45];

pub const PARTNER_WITHDRAW_SURPLUS: [u8; 8] = [168u8, 173, 72, 100, 201, 98, 38, 92];

pub const CLAIM_TRADING_FEE: [u8; 8] = [8u8, 236, 89, 49, 152, 125, 177, 81];

pub const WITHDRAW_MIGRATION_FEE: [u8; 8] = [237u8, 142, 45, 23, 129, 6, 222, 162];

/// The length of an instruction tag.
pub const DISCRIMINATOR_LEN: usize = 8;

/// An operation that the relay may forward: the program, the instruction
/// tag, and the position of the vault's token account among its accounts.
#[derive(Clone, Copy, Debug)]
pub struct WhitelistedAction {
    pub program: Pubkey,
    pub discriminator: [u8; 8],
    pub token_vault_index: usize,
}

/// An account handed to a forwarded call, with its flags.
#[derive(Clone, Copy, Debug)]
pub struct AccountMeta {
    pub pubkey: Pubkey,
    pub is_signer: bool,
    pub is_writable: bool,
}

/// A call that the relay forwards, with the seeds that sign for the vault.
#[derive(Debug)]
pub struct ForwardedCall {
    pub program_id: Pubkey,
    pub accounts: Vec<AccountMeta>,
    pub data: Vec<u8>,
    pub signer_seeds: Vec<Vec<u8>>,
}

pub open spec fn action(program: [u8; 32], discriminator: [u8; 8], index: usize) -> WhitelistedAction {
    WhitelistedAction { program: Pubkey { bytes: program }, discriminator, token_vault_index: index }
}

/// The allow-list. It is fixed here and nothing changes it.
pub open spec fn whitelist() -> Seq<WhitelistedAction> {
    seq![
        action(DAMM_V2_PROGRAM_ID, CLAIM_POSITION_FEE, 4),
        action(DAMM_V2_PROGRAM_ID, CLAIM_REWARD, 5),
        action(DBC_PROGRAM_ID, CREATOR_WITHDRAW_SURPLUS, 3),
        action(DBC_PROGRAM_ID, CLAIM_CREATOR_TRADING_FEE, 3),
        action(DBC_PROGRAM_ID, PARTNER_WITHDRAW_SURPLUS, 3),
        action(DBC_PROGRAM_ID, CLAIM_TRADING_FEE, 4),
        action(DBC_PROGRAM_ID, WITHDRAW_MIGRATION_FEE, 3),
    ]
}

/// Whether `(program, discriminator)` is on the allow-list.
pub open spec fn is_whitelisted(program: Pubkey, discriminator: Seq<u8>) -> bool {
    exists|i: int|
        0 <= i < whitelist().len() && (#[trigger] whitelist()[i]).program == program
            && whitelist()[i].discriminator@ == discriminator
}

pub fn whitelisted_actions() -> (r: Vec<WhitelistedAction>)
    ensures
        r@ == whitelist(),
{
    let damm = Pubkey { bytes: DAMM_V2_PROGRAM_ID };
    let dbc = Pubkey { bytes: DBC_PROGRAM_ID };
    let r = vec![
        WhitelistedAction { program: damm, discriminator: CLAIM_POSITION_FEE, token_vault_index: 4 },
        WhitelistedAction { program: damm, discriminator: CLAIM_REWARD, token_vault_index: 5 },
        WhitelistedAction { program: dbc, discriminator: CREATOR_WITHDRAW_SURPLUS, token_vault_index: 3 },
        WhitelistedAction { program: dbc, discriminator: CLAIM_CREATOR_TRADING_FEE, token_vault_index: 3 },
        WhitelistedAction { program: dbc, discriminator: PARTNER_WITHDRAW_SURPLUS, token_vault_index: 3 },
        WhitelistedAction { program: dbc, discriminator: CLAIM_TRADING_FEE, token_vault_index: 4 },
        WhitelistedAction { program: dbc, discriminator: WITHDRAW_MIGRATION_FEE, token_vault_index: 3 },
    ];
    proof {
        assert(r@ =~= whitelist());
    }
    r
}

/// Whether two byte strings are equal.
pub fn bytes_eq(a: &[u8], b: &[u8]) -> (r: bool)
    ensures
        r == (a@ == b@),
{
    if a.len() != b.len() {
        return false;
    }
    let mut i: usize = 0;
    while i < a.len()
        invariant
            a@.len() == b@.len(),
            0 <= i <= a@.len(),
            forall|j: int| 0 <= j < i ==> a@[j] == b@[j],
        decreases a@.len() - i,
    {
        if a[i] != b[i] {
            return false;
        }
        i = i + 1;
    }
    proof {
        assert(a@ =~= b@);
    }
    true
}

/// Whether `(source_program, discriminator)` is on the allow-list.
pub fn is_support_action(source_program: &Pubkey, discriminator: &[u8]) -> (r: bool)
    ensures
        r == is_whitelisted(*source_program, discriminator@),
{
    let actions = whitelisted_actions();
    let mut i: usize = 0;
    while i < actions.len()
        invariant
            actions@ == whitelist(),
            0 <= i <= actions@.len(),
            forall|j: int|
                0 <= j < i ==> !((#[trigger] whitelist()[j]).program == *source_program
                    && whitelist()[j].discriminator@ == discriminator@),
        decreases actions@.len() - i,
    {
        let a = actions[i];
        if a.program.same(source_program) && bytes_eq(&a.discriminator, discriminator) {
            return true;
        }
        i = i + 1;
    }
    false
}

/// The failure, if any, of forwarding `payload` to `source_program` for
/// `signer`, in the order the checks are made: the token account must be
/// the vault's, the operation must be on the allow-list, the signer must be
/// a beneficiary, and the vault must sit at a derived address.
pub open spec fn relay_error(
    vault: FeeVault,
    token_vault: Pubkey,
    source_program: Pubkey,
    payload: Seq<u8>,
    signer: Pubkey,
) -> Option<FeeVaultError> {
    if vault.token_vault != token_vault {
        Some(FeeVaultError::InvalidFeeVault)
    } else if payload.len() < DISCRIMINATOR_LEN || !is_whitelisted(
        source_program,
        payload.take(DISCRIMINATOR_LEN as int),
    ) {
        Some(FeeVaultError::InvalidAction)
    } else if !vault.has_share_holder(signer) {
        Some(FeeVaultError::InvalidSigner)
    } else if vault.fee_vault_type != 1 {
        Some(FeeVaultError::InvalidFeeVault)
    } else {
        None
    }
}

/// The accounts as forwarded: keys and writability kept, and only the
/// vault's own account marked as signing.
pub open spec fn forwarded(accounts: Seq<AccountMeta>, fee_vault: Pubkey) -> Seq<AccountMeta> {
    accounts.map_values(
        |a: AccountMeta|
            AccountMeta { pubkey: a.pubkey, is_signer: a.pubkey == fee_vault, is_writable: a.is_writable },
    )
}

pub fn forwarded_accounts(accounts: &Vec<AccountMeta>, fee_vault: &Pubkey) -> (r: Vec<
    AccountMeta,
>)
    ensures
        r@ == forwarded(accounts@, *fee_vault),
{
    let mut r: Vec<AccountMeta> = Vec::new();
    let mut i: usize = 0;
    while i < accounts.len()
        invariant
            0 <= i <= accounts@.len(),
            r@ == forwarded(accounts@.take(i as int), *fee_vault),
        decreases accounts@.len() - i,
    {
        let a = accounts[i];
        r.push(AccountMeta { pubkey: a.pubkey, is_signer: a.pubkey.same(fee_vault), is_writable: a.is_writable });
        i = i + 1;
        proof {
            assert(r@ =~= forwarded(accounts@.take(i as int), *fee_vault));
        }
    }
    proof {
        assert(accounts@.take(i as int) =~= accounts@);
    }
    r
}

/// Checks a relayed call and builds it: the target, the forwarded accounts,
/// the payload unchanged, and the vault's signing seeds.
pub fn prepare_forwarded_call(
    vault: &FeeVault,
    fee_vault: &Pubkey,
    token_vault: &Pubkey,
    source_program: &Pubkey,
    payload: &Vec<u8>,
    remaining_accounts: &Vec<AccountMeta>,
    signer: &Pubkey,
) -> (r: Result<ForwardedCall, FeeVaultError>)
    ensures
        match relay_error(*vault, *token_vault, *source_program, payload@, *signer) {
            Some(e) => r matches Err(x) && x == e,
            None => r matches Ok(call) && {
                &&& call.program_id == *source_program
                &&& call.accounts@ == forwarded(remaining_accounts@, *fee_vault)
                &&& call.data@ == payload@
                &&& seeds_view(call.signer_seeds@) == vault.seeds()
            },
        },
{
    if !vault.token_vault.same(token_vault) {
        return Err(FeeVaultError::InvalidFeeVault);
    }
    if payload.len() < DISCRIMINATOR_LEN {
        return Err(FeeVaultError::InvalidAction);
    }
    let mut discriminator: Vec<u8> = Vec::new();
    let mut i: usize = 0;
    while i < DISCRIMINATOR_LEN
        invariant
            DISCRIMINATOR_LEN <= payload@.len(),
            0 <= i <= DISCRIMINATOR_LEN,
            discriminator@ == payload@.take(i as int),
        decreases DISCRIMINATOR_LEN - i,
    {
        discriminator.push(payload[i]);
        i = i + 1;
        proof {
            assert(discriminator@ =~= payload@.take(i as int));
        }
    }
    if !is_support_action(source_program, discriminator.as_slice()) {
        return Err(FeeVaultError::InvalidAction);
    }
    if !vault.is_share_holder(signer) {
        return Err(FeeVaultError::InvalidSigner);
    }
    if vault.fee_vault_type != 1 {
        return Err(FeeVaultError::InvalidFeeVault);
    }
    let accounts = forwarded_accounts(remaining_accounts, fee_vault);
    let data = bytes_to_vec(payload.as_slice());
    let signer_seeds = vault.signer_seeds();
    Ok(ForwardedCall { program_id: *source_program, accounts, data, signer_seeds })
}

/// Forwards an allow-listed revenue claim on behalf of the vault and funds
/// what it brought in. `op` performs the call and returns the custody
/// balance read afterwards. A rejected call leaves the record unchanged and
/// `op` is not run; otherwise the record ends as `harvested` says for the
/// balance that `op` returned, or unchanged when `op` fails.
pub fn handle_fund_by_claiming_fee<F: FnOnce(ForwardedCall) -> Result<u64, FeeVaultError>>(
    vault: &mut FeeVault,
    fee_vault: &Pubkey,
    token_vault: &Pubkey,
    source_program: &Pubkey,
    payload: &Vec<u8>,
    remaining_accounts: &Vec<AccountMeta>,
    signer: &Pubkey,
    before_balance: u64,
    op: F,
) -> (r: Result<u64, FeeVaultError>)
    requires
        forall|call: ForwardedCall| op.requires((call,)),
    ensures
        relay_error(*old(vault), *token_vault, *source_program, payload@, *signer) matches Some(e)
            ==> r == Err::<u64, FeeVaultError>(e) && *final(vault) == *old(vault),
        relay_error(*old(vault), *token_vault, *source_program, payload@, *signer) is None ==> exists|
            call: ForwardedCall,
            out: Result<u64, FeeVaultError>,
        |
            {
                &&& call.program_id == *source_program
                &&& call.accounts@ == forwarded(remaining_accounts@, *fee_vault)
                &&& call.data@ == payload@
                &&& seeds_view(call.signer_seeds@) == old(vault).seeds()
                &&& op.ensures((call,), out)
                &&& match out {
                    Ok(after) => harvested(*old(vault), before_balance, after, r, *final(vault)),
                    Err(e) => r == Err::<u64, FeeVaultError>(e) && *final(vault) == *old(vault),
                }
            },
        old(vault).wf() ==> final(vault).wf(),
{
    let call = match prepare_forwarded_call(
        vault,
        fee_vault,
        token_vault,
        source_program,
        payload,
        remaining_accounts,
        signer,
    ) {
        Ok(c) => c,
        Err(e) => {
            return Err(e);
        },
    };
    let ghost call_given = call;
    let out = op(call);
    match out {
        Ok(after) => {
            let r = settle_harvest(vault, before_balance, after);
            assert(op.ensures((call_given,), out));
            r
        },
        Err(e) => {
            assert(op.ensures((call_given,), out));
            Err(e)
        },
    }
}

} // verus!
