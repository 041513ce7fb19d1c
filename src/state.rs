use vstd::prelude::*;
use vstd::array::*;
use vstd::arithmetic::power2::{pow2, lemma_pow2_pos};
use vstd::arithmetic::div_mod::{lemma_fundamental_div_mod, lemma_div_pos_is_pos};
use vstd::arithmetic::mul::lemma_mul_nonnegative;
use crate::constants::{FEE_VAULT_PREFIX, MAX_USER, PRECISION_SCALE};
use crate::error::FeeVaultError;
use crate::math::{shl_div, shl_div_spec, mul_shr};
use crate::params::{UserShare, requested_share_sum, lemma_requested_prefix_le};
use crate::pubkey::Pubkey;

verus! {

broadcast use group_array_axioms;

/// How a fee vault's account was created; only a vault at a derived address
/// can sign for itself.
#[derive(Clone, Copy, Debug, PartialEq, Eq, Structural)]
pub enum FeeVaultType {
    NonPdaAccount,
    PdaAccount,
}

impl FeeVaultType {
    pub open spec fn code(self) -> u8 {
        match self {
            FeeVaultType::NonPdaAccount => 0,
            FeeVaultType::PdaAccount => 1,
        }
    }

    pub fn to_u8(self) -> (r: u8)
        ensures
            r == self.code(),
    {
        match self {
            FeeVaultType::NonPdaAccount => 0,
            FeeVaultType::PdaAccount => 1,
        }
    }

    pub fn from_u8(v: u8) -> (r: Option<FeeVaultType>)
        ensures
            match r {
                Some(t) => t.code() == v,
                None => v > 1,
            },
    {
        if v == 0 {
            Some(FeeVaultType::NonPdaAccount)
        } else if v == 1 {
            Some(FeeVaultType::PdaAccount)
        } else {
            None
        }
    }
}

/// One beneficiary slot of a fee vault.
#[derive(Clone, Copy, Debug)]
pub struct UserFee {
    pub address: Pubkey,
    pub share: u32,
    pub padding_0: [u8; 4],
    pub fee_claimed: u64,
    pub padding: [u8; 16],
    pub fee_per_share_checkpoint: u128,
}

/// The fee vault record: the accumulator and the beneficiary table.
#[derive(Clone, Copy, Debug)]
pub struct FeeVault {
    pub owner: Pubkey,
    pub token_mint: Pubkey,
    pub token_vault: Pubkey,
    pub token_flag: u8,
    pub fee_vault_type: u8,
    pub fee_vault_bump: u8,
    pub padding_0: [u8; 13],
    pub total_share: u32,
    pub padding_1: [u8; 4],
    pub total_funded_fee: u64,
    pub fee_per_share: u128,
    pub base: Pubkey,
    pub padding: [u128; 4],
    pub users: [UserFee; MAX_USER],
}

/// `2^PRECISION_SCALE`, one unit of fee per share in the accumulator.
pub open spec fn scale_unit() -> int {
    pow2(PRECISION_SCALE as nat) as int
}

/// The sum of the shares of a sequence of slots.
pub open spec fn share_sum(users: Seq<UserFee>) -> int
    decreases users.len(),
{
    if users.len() == 0 {
        0
    } else {
        share_sum(users.drop_last()) + users.last().share
    }
}

impl UserFee {
    pub open spec fn is_zeroed(self) -> bool {
        &&& self.address.is_null()
        &&& self.share == 0
        &&& self.fee_claimed == 0
        &&& self.fee_per_share_checkpoint == 0
    }

    /// What this slot could claim now, at accumulator value `fee_per_share`.
    pub open spec fn pending(self, fee_per_share: u128) -> int {
        (self.share * (fee_per_share - self.fee_per_share_checkpoint)) / scale_unit()
    }

    /// This slot's claims stay within its share of the accumulator.
    pub open spec fn within(self, fee_per_share: u128) -> bool {
        &&& self.fee_per_share_checkpoint <= fee_per_share
        &&& self.fee_claimed * scale_unit() <= self.share * self.fee_per_share_checkpoint
    }

    pub fn zeroed() -> (r: UserFee)
        ensures
            r.is_zeroed(),
    {
        UserFee {
            address: Pubkey::zeroed(),
            share: 0,
            padding_0: [0u8; 4],
            fee_claimed: 0,
            padding: [0u8; 16],
            fee_per_share_checkpoint: 0,
        }
    }
}

impl Default for FeeVault {
    fn default() -> (r: FeeVault)
        ensures
            r.is_zeroed(),
    {
        FeeVault::zeroed()
    }
}

impl Default for UserFee {
    fn default() -> (r: UserFee)
        ensures
            r.is_zeroed(),
    {
        UserFee::zeroed()
    }
}

impl FeeVault {
    /// The ledger invariant: shares add up, every checkpoint is behind the
    /// accumulator, every beneficiary's claims stay within its share of it,
    /// and the accumulator never credits more than was funded.
    pub open spec fn wf(self) -> bool {
        &&& self.total_share as int == share_sum(self.users@)
        &&& forall|i: int| 0 <= i < MAX_USER ==> (#[trigger] self.users[i]).within(self.fee_per_share)
        &&& self.total_share * self.fee_per_share <= self.total_funded_fee * scale_unit()
    }

    /// The failure, if any, of funding `amount`.
    pub open spec fn fund_error(self, amount: u64) -> Option<FeeVaultError> {
        if amount == 0 {
            None
        } else if self.total_funded_fee + amount > u64::MAX {
            Some(FeeVaultError::MathOverflow)
        } else {
            match shl_div_spec(amount, self.total_share as u64, PRECISION_SCALE) {
                None => Some(FeeVaultError::MathOverflow),
                Some(delta) => if self.fee_per_share + delta > u128::MAX {
                    Some(FeeVaultError::MathOverflow)
                } else {
                    None
                },
            }
        }
    }

    /// The record after funding `amount`, where that succeeds.
    pub open spec fn funded(self, amount: u64) -> FeeVault {
        if amount == 0 {
            self
        } else {
            FeeVault {
                total_funded_fee: (self.total_funded_fee + amount) as u64,
                fee_per_share: (self.fee_per_share + shl_div_spec(
                    amount,
                    self.total_share as u64,
                    PRECISION_SCALE,
                )->Some_0) as u128,
                ..self
            }
        }
    }

    /// The failure, if any, of a claim on slot `index` by `signer`.
    pub open spec fn claim_error(self, index: u8, signer: Pubkey) -> Option<FeeVaultError> {
        if index as int >= MAX_USER {
            Some(FeeVaultError::InvalidUserIndex)
        } else {
            let u = self.users[index as int];
            if u.address != signer {
                Some(FeeVaultError::InvalidUserAddress)
            } else if self.fee_per_share < u.fee_per_share_checkpoint {
                Some(FeeVaultError::MathOverflow)
            } else if u.pending(self.fee_per_share) > u64::MAX {
                Some(FeeVaultError::MathOverflow)
            } else if u.fee_claimed + u.pending(self.fee_per_share) > u64::MAX {
                Some(FeeVaultError::MathOverflow)
            } else {
                None
            }
        }
    }

    /// The record after a successful claim on slot `index`: the slot's
    /// checkpoint moves up to the accumulator and its pending amount is
    /// added to what it has claimed.
    pub open spec fn claimed(self, index: int) -> FeeVault {
        let u = self.users[index];
        FeeVault {
            users: spec_array_update(
                self.users,
                index,
                UserFee {
                    fee_claimed: (u.fee_claimed + u.pending(self.fee_per_share)) as u64,
                    fee_per_share_checkpoint: self.fee_per_share,
                    ..u
                },
            ),
            ..self
        }
    }

    /// Whether `signer` is a registered beneficiary: the identity of a slot
    /// that holds a share. Unused slots are zeroed and belong to nobody.
    pub open spec fn has_share_holder(self, signer: Pubkey) -> bool {
        exists|i: int|
            0 <= i < MAX_USER && (#[trigger] self.users[i]).share > 0 && self.users[i].address
                == signer
    }

    /// Adds `amount` to the pool: the lifetime total grows by `amount` and
    /// the accumulator by `floor((amount << PRECISION_SCALE) / total_share)`.
    /// Funding nothing changes nothing; on failure nothing changes.
    pub fn fund_fee(&mut self, amount: u64) -> (r: Result<(), FeeVaultError>)
        ensures
            r == match old(self).fund_error(amount) {
                Some(e) => Err::<(), FeeVaultError>(e),
                None => Ok(()),
            },
            *final(self) == if r is Ok {
                old(self).funded(amount)
            } else {
                *old(self)
            },
            old(self).wf() ==> final(self).wf(),
    {
        if amount == 0 {
            return Ok(());
        }
        let total_funded_fee = match self.total_funded_fee.checked_add(amount) {
            Some(v) => v,
            None => {
                return Err(FeeVaultError::MathOverflow);
            },
        };
        let delta = match shl_div(amount, self.total_share as u64, PRECISION_SCALE) {
            Some(d) => d,
            None => {
                return Err(FeeVaultError::MathOverflow);
            },
        };
        let fee_per_share = match self.fee_per_share.checked_add(delta) {
            Some(v) => v,
            None => {
                return Err(FeeVaultError::MathOverflow);
            },
        };
        proof {
            if old(self).wf() {
                lemma_fund_keeps_bound(
                    self.total_share as int,
                    self.fee_per_share as int,
                    self.total_funded_fee as int,
                    amount as int,
                    delta as int,
                );
            }
        }
        self.total_funded_fee = total_funded_fee;
        self.fee_per_share = fee_per_share;
        Ok(())
    }

    /// Pays out slot `index` to `signer`: returns what the slot has earned
    /// since its checkpoint, `floor(share * (fee_per_share - checkpoint) >>
    /// PRECISION_SCALE)`, and moves the checkpoint to the accumulator. On
    /// failure nothing changes.
    pub fn validate_and_claim_fee(&mut self, index: u8, signer: &Pubkey) -> (r: Result<
        u64,
        FeeVaultError,
    >)
        ensures
            match r {
                Ok(amount) => {
                    &&& old(self).claim_error(index, *signer) is None
                    &&& amount as int == old(self).users[index as int].pending(old(self).fee_per_share)
                    &&& *final(self) == old(self).claimed(index as int)
                },
                Err(e) => {
                    &&& old(self).claim_error(index, *signer) == Some(e)
                    &&& *final(self) == *old(self)
                },
            },
            old(self).wf() ==> final(self).wf(),
    {
        let idx = index as usize;
        if idx >= MAX_USER {
            return Err(FeeVaultError::InvalidUserIndex);
        }
        let user = self.users[idx];
        if !user.address.same(signer) {
            return Err(FeeVaultError::InvalidUserAddress);
        }
        let delta = match self.fee_per_share.checked_sub(user.fee_per_share_checkpoint) {
            Some(d) => d,
            None => {
                return Err(FeeVaultError::MathOverflow);
            },
        };
        let wide = match mul_shr(user.share as u128, delta, PRECISION_SCALE) {
            Some(v) => v,
            None => {
                return Err(FeeVaultError::MathOverflow);
            },
        };
        proof {
            lemma_mul_nonnegative(user.share as int, delta as int);
            lemma_pow2_pos(PRECISION_SCALE as nat);
            lemma_div_pos_is_pos(user.share * delta, scale_unit());
        }
        if wide > u64::MAX as u128 {
            return Err(FeeVaultError::MathOverflow);
        }
        let amount = wide as u64;
        let fee_claimed = match user.fee_claimed.checked_add(amount) {
            Some(v) => v,
            None => {
                return Err(FeeVaultError::MathOverflow);
            },
        };
        let ghost before = *self;
        self.users[idx] = UserFee {
            fee_claimed,
            fee_per_share_checkpoint: self.fee_per_share,
            ..user
        };
        proof {
            assert(self.users =~= before.claimed(index as int).users);
            if before.wf() {
                lemma_claim_keeps_wf(before, index as int);
            }
        }
        Ok(amount)
    }

    pub open spec fn is_zeroed(self) -> bool {
        &&& self.owner.is_null()
        &&& self.token_mint.is_null()
        &&& self.token_vault.is_null()
        &&& self.base.is_null()
        &&& self.token_flag == 0
        &&& self.fee_vault_type == 0
        &&& self.fee_vault_bump == 0
        &&& self.total_share == 0
        &&& self.total_funded_fee == 0
        &&& self.fee_per_share == 0
        &&& forall|i: int| 0 <= i < MAX_USER ==> (#[trigger] self.users[i]).is_zeroed()
    }

    /// The record as `initialize` leaves it: the given identities and
    /// flags, one fresh slot per requested user in order, the other slots
    /// zeroed, and an empty accumulator.
    pub open spec fn initialized_as(
        self,
        owner: Pubkey,
        token_flag: u8,
        token_mint: Pubkey,
        token_vault: Pubkey,
        base: Pubkey,
        fee_vault_bump: u8,
        fee_vault_type: u8,
        users: Seq<UserShare>,
    ) -> bool {
        &&& self.owner == owner
        &&& self.token_flag == token_flag
        &&& self.token_mint == token_mint
        &&& self.token_vault == token_vault
        &&& self.base == base
        &&& self.fee_vault_bump == fee_vault_bump
        &&& self.fee_vault_type == fee_vault_type
        &&& self.total_share as int == requested_share_sum(users)
        &&& self.total_funded_fee == 0
        &&& self.fee_per_share == 0
        &&& forall|i: int|
            0 <= i < users.len() ==> {
                let u = #[trigger] self.users[i];
                &&& u.address == users[i].address
                &&& u.share == users[i].share
                &&& u.fee_claimed == 0
                &&& u.fee_per_share_checkpoint == 0
            }
        &&& forall|i: int| users.len() <= i < MAX_USER ==> (#[trigger] self.users[i]).is_zeroed()
    }

    pub fn zeroed() -> (r: FeeVault)
        ensures
            r.is_zeroed(),
            r.wf(),
    {
        let z = UserFee::zeroed();
        let r = FeeVault {
            owner: Pubkey::zeroed(),
            token_mint: Pubkey::zeroed(),
            token_vault: Pubkey::zeroed(),
            token_flag: 0,
            fee_vault_type: 0,
            fee_vault_bump: 0,
            padding_0: [0u8; 13],
            total_share: 0,
            padding_1: [0u8; 4],
            total_funded_fee: 0,
            fee_per_share: 0,
            base: Pubkey::zeroed(),
            padding: [0u128; 4],
            users: [z; MAX_USER],
        };
        proof {
            lemma_share_sum_zero(r.users@);
            assert forall|i: int| 0 <= i < MAX_USER implies (#[trigger] r.users[i]).within(
                r.fee_per_share,
            ) by {
                assert(r.users[i] == z);
            }
        }
        r
    }

    /// Whether the record is still zeroed, as a new account is.
    pub fn is_uninitialized(&self) -> (r: bool)
        ensures
            r == self.is_zeroed(),
    {
        if !(self.owner.is_zero() && self.token_mint.is_zero() && self.token_vault.is_zero()
            && self.base.is_zero()) {
            return false;
        }
        if !(self.token_flag == 0 && self.fee_vault_type == 0 && self.fee_vault_bump == 0
            && self.total_share == 0 && self.total_funded_fee == 0 && self.fee_per_share == 0) {
            return false;
        }
        let mut i: usize = 0;
        while i < MAX_USER
            invariant
                0 <= i <= MAX_USER,
                forall|j: int| 0 <= j < i ==> (#[trigger] self.users[j]).is_zeroed(),
            decreases MAX_USER - i,
        {
            let u = self.users[i];
            if !(u.address.is_zero() && u.share == 0 && u.fee_claimed == 0
                && u.fee_per_share_checkpoint == 0) {
                return false;
            }
            i = i + 1;
        }
        true
    }

    /// Sets up a new vault for `users`. A vault is set up once: a record
    /// that is no longer zeroed is refused with `InvalidFeeVault`. Fails
    /// with `ExceededUser` when there are more users than slots and with
    /// `MathOverflow` when the shares do not add up within 32 bits; on
    /// failure nothing changes.
    pub fn initialize(
        &mut self,
        owner: &Pubkey,
        token_flag: u8,
        token_mint: &Pubkey,
        token_vault: &Pubkey,
        base: &Pubkey,
        fee_vault_bump: u8,
        fee_vault_type: u8,
        users: &[UserShare],
    ) -> (r: Result<(), FeeVaultError>)
        ensures
            r == if !old(self).is_zeroed() {
                Err::<(), FeeVaultError>(FeeVaultError::InvalidFeeVault)
            } else if users@.len() > MAX_USER {
                Err::<(), FeeVaultError>(FeeVaultError::ExceededUser)
            } else if requested_share_sum(users@) > u32::MAX {
                Err(FeeVaultError::MathOverflow)
            } else {
                Ok(())
            },
            r is Err ==> *final(self) == *old(self),
            r is Ok ==> final(self).initialized_as(
                *owner,
                token_flag,
                *token_mint,
                *token_vault,
                *base,
                fee_vault_bump,
                fee_vault_type,
                users@,
            ),
            r is Ok ==> final(self).wf(),
    {
        if !self.is_uninitialized() {
            return Err(FeeVaultError::InvalidFeeVault);
        }
        let n = users.len();
        if n > MAX_USER {
            return Err(FeeVaultError::ExceededUser);
        }
        let z = UserFee::zeroed();
        let mut slots: [UserFee; MAX_USER] = [z; MAX_USER];
        let mut total_share: u32 = 0;
        proof {
            lemma_share_sum_zero(slots@);
        }
        let mut i: usize = 0;
        while i < n
            invariant
                old(self).is_zeroed(),
                *self == *old(self),
                n == users@.len() <= MAX_USER,
                0 <= i <= n,
                total_share as int == requested_share_sum(users@.take(i as int)),
                total_share as int == share_sum(slots@),
                forall|j: int|
                    0 <= j < i ==> {
                        let u = #[trigger] slots[j];
                        &&& u.address == users@[j].address
                        &&& u.share == users@[j].share
                        &&& u.fee_claimed == 0
                        &&& u.fee_per_share_checkpoint == 0
                    },
                forall|j: int| i <= j < MAX_USER ==> (#[trigger] slots[j]).is_zeroed(),
            decreases n - i,
        {
            let u = users[i];
            proof {
                assert(users@.take(i + 1).drop_last() =~= users@.take(i as int));
            }
            total_share = match total_share.checked_add(u.share) {
                Some(t) => t,
                None => {
                    proof {
                        lemma_requested_prefix_le(users@, i + 1);
                    }
                    return Err(FeeVaultError::MathOverflow);
                },
            };
            let ghost old_slots = slots;
            slots[i] = UserFee {
                address: u.address,
                share: u.share,
                padding_0: [0u8; 4],
                fee_claimed: 0,
                padding: [0u8; 16],
                fee_per_share_checkpoint: 0,
            };
            proof {
                assert(slots@ == old_slots@.update(i as int, slots[i as int]));
                lemma_share_sum_update(old_slots@, i as int, slots[i as int]);
            }
            i = i + 1;
        }
        proof {
            assert(users@.take(n as int) =~= users@);
        }
        self.owner = *owner;
        self.token_flag = token_flag;
        self.token_mint = *token_mint;
        self.token_vault = *token_vault;
        self.base = *base;
        self.fee_vault_bump = fee_vault_bump;
        self.fee_vault_type = fee_vault_type;
        self.total_share = total_share;
        self.total_funded_fee = 0;
        self.fee_per_share = 0;
        self.users = slots;
        Ok(())
    }

    /// The seeds from which a vault at a derived address signs: a fixed
    /// label, the base key, the token mint and the bump.
    pub open spec fn seeds(self) -> Seq<Seq<u8>> {
        seq![FEE_VAULT_PREFIX@, self.base.bytes@, self.token_mint.bytes@, seq![self.fee_vault_bump]]
    }

    pub fn signer_seeds(&self) -> (r: Vec<Vec<u8>>)
        ensures
            seeds_view(r@) == self.seeds(),
    {
        let mut r: Vec<Vec<u8>> = Vec::new();
        r.push(bytes_to_vec(&FEE_VAULT_PREFIX));
        r.push(bytes_to_vec(&self.base.bytes));
        r.push(bytes_to_vec(&self.token_mint.bytes));
        let mut bump: Vec<u8> = Vec::new();
        bump.push(self.fee_vault_bump);
        r.push(bump);
        proof {
            assert(seeds_view(r@) =~= self.seeds());
        }
        r
    }

    /// Whether `signer` is a registered beneficiary.
    pub fn is_share_holder(&self, signer: &Pubkey) -> (r: bool)
        ensures
            r == self.has_share_holder(*signer),
    {
        let mut i: usize = 0;
        while i < MAX_USER
            invariant
                0 <= i <= MAX_USER,
                forall|j: int|
                    0 <= j < i ==> !((#[trigger] self.users[j]).share > 0 && self.users[j].address
                        == *signer),
            decreases MAX_USER - i,
        {
            if self.users[i].share > 0 && self.users[i].address.same(signer) {
                return true;
            }
            i = i + 1;
        }
        false
    }
}

/// The byte strings held by a vector of seeds.
pub open spec fn seeds_view(seeds: Seq<Vec<u8>>) -> Seq<Seq<u8>> {
    seeds.map_values(|v: Vec<u8>| v@)
}

/// Copies bytes into a vector.
pub fn bytes_to_vec(b: &[u8]) -> (r: Vec<u8>)
    ensures
        r@ == b@,
{
    let mut r: Vec<u8> = Vec::new();
    let mut i: usize = 0;
    while i < b.len()
        invariant
            0 <= i <= b@.len(),
            r@ == b@.take(i as int),
        decreases b@.len() - i,
    {
        r.push(b[i]);
        i = i + 1;
        proof {
            assert(r@ =~= b@.take(i as int));
        }
    }
    proof {
        assert(b@.take(i as int) =~= b@);
    }
    r
}

proof fn lemma_share_sum_zero(users: Seq<UserFee>)
    requires
        forall|i: int| 0 <= i < users.len() ==> (#[trigger] users[i]).share == 0,
    ensures
        share_sum(users) == 0,
    decreases users.len(),
{
    if users.len() > 0 {
        lemma_share_sum_zero(users.drop_last());
    }
}

/// A successful funding keeps the ledger invariant.
pub proof fn lemma_funded_keeps_wf(v: FeeVault, amount: u64)
    requires
        v.wf(),
        v.fund_error(amount) is None,
    ensures
        v.funded(amount).wf(),
{
    if amount > 0 {
        lemma_fund_keeps_bound(
            v.total_share as int,
            v.fee_per_share as int,
            v.total_funded_fee as int,
            amount as int,
            shl_div_spec(amount, v.total_share as u64, PRECISION_SCALE)->Some_0 as int,
        );
    }
}

pub proof fn lemma_fund_keeps_bound(ts: int, fps: int, tf: int, amount: int, delta: int)
    requires
        ts > 0,
        fps >= 0,
        amount > 0,
        ts * fps <= tf * scale_unit(),
        delta == (amount * scale_unit()) / ts,
    ensures
        ts * (fps + delta) <= (tf + amount) * scale_unit(),
{
    let s = scale_unit();
    lemma_fundamental_div_mod(amount * s, ts);
    assert(ts * delta <= amount * s);
    assert(ts * (fps + delta) == ts * fps + ts * delta) by (nonlinear_arith);
    assert((tf + amount) * s == tf * s + amount * s) by (nonlinear_arith);
}

/// Replacing a slot changes the sum of shares by the difference of the two
/// shares.
pub proof fn lemma_share_sum_update(users: Seq<UserFee>, i: int, u: UserFee)
    requires
        0 <= i < users.len(),
    ensures
        share_sum(users.update(i, u)) == share_sum(users) - users[i].share + u.share,
    decreases users.len(),
{
    let updated = users.update(i, u);
    if i == users.len() - 1 {
        assert(updated.drop_last() =~= users.drop_last());
    } else {
        assert(updated.drop_last() =~= users.drop_last().update(i, u));
        lemma_share_sum_update(users.drop_last(), i, u);
    }
}

/// A successful claim keeps the ledger invariant.
pub proof fn lemma_claim_keeps_wf(v: FeeVault, index: int)
    requires
        v.wf(),
        0 <= index < MAX_USER,
        v.claim_error(index as u8, v.users[index].address) is None,
    ensures
        v.claimed(index).wf(),
{
    let u = v.users[index];
    let w = v.claimed(index);
    let s = scale_unit();
    let d = v.fee_per_share - u.fee_per_share_checkpoint;
    let p = u.pending(v.fee_per_share);
    lemma_pow2_pos(PRECISION_SCALE as nat);
    lemma_fundamental_div_mod(u.share * d, s);
    assert(p * s <= u.share * d);
    let fps = v.fee_per_share as int;
    let ck = u.fee_per_share_checkpoint as int;
    let sh = u.share as int;
    assert(sh * d == sh * fps - sh * ck) by (nonlinear_arith)
        requires d == fps - ck;
    assert((u.fee_claimed + p) * s == u.fee_claimed * s + p * s) by (nonlinear_arith);
    assert(w.users@ == v.users@.update(index, w.users[index]));
    lemma_share_sum_update(v.users@, index, w.users[index]);
    assert forall|i: int| 0 <= i < MAX_USER implies (#[trigger] w.users[i]).within(w.fee_per_share) by {
        if i != index {
            assert(w.users[i] == v.users[i]);
        }
    }
}

} // verus!
