use vstd::prelude::*;
use vstd::array::*;
use vstd::arithmetic::power2::{pow2, lemma2_to64, lemma2_to64_rest, lemma_pow2_pos};
use vstd::arithmetic::div_mod::{
    lemma_fundamental_div_mod, lemma_div_non_zero, lemma_mod_pos_bound,
};
use vstd::arithmetic::mul::{lemma_mul_nonnegative, lemma_mul_inequality};
use crate::constants::{MAX_USER, PRECISION_SCALE};
use crate::error::FeeVaultError;
use crate::harvest::harvest_outcome;
use crate::math::shl_div_spec;
use crate::pubkey::Pubkey;
use crate::relay::{DISCRIMINATOR_LEN, is_whitelisted, relay_error};
use crate::state::{
    FeeVault, UserFee, lemma_claim_keeps_wf, lemma_funded_keeps_wf, scale_unit, share_sum,
};

verus! {

broadcast use group_array_axioms;

/// The record after funding each amount in turn, or `None` when one of the
/// fundings fails.
pub open spec fn fund_all(vault: FeeVault, amounts: Seq<u64>) -> Option<FeeVault>
    decreases amounts.len(),
{
    if amounts.len() == 0 {
        Some(vault)
    } else {
        match fund_all(vault, amounts.drop_last()) {
            Some(v) => if v.fund_error(amounts.last()) is None {
                Some(v.funded(amounts.last()))
            } else {
                None
            },
            None => None,
        }
    }
}

pub open spec fn amount_sum(amounts: Seq<u64>) -> int
    decreases amounts.len(),
{
    if amounts.len() == 0 {
        0
    } else {
        amount_sum(amounts.drop_last()) + amounts.last()
    }
}

/// What the slots have claimed plus what they could claim now.
pub open spec fn entitled_sum(users: Seq<UserFee>, fee_per_share: u128) -> int
    decreases users.len(),
{
    if users.len() == 0 {
        0
    } else {
        entitled_sum(users.drop_last(), fee_per_share) + users.last().fee_claimed + users.last().pending(
            fee_per_share,
        )
    }
}

proof fn lemma_scale_unit_value()
    ensures
        scale_unit() == 0x10_0000_0000_0000,
{
    lemma2_to64();
    lemma2_to64_rest();
}

/// Funding a positive amount into a vault with shares strictly raises the
/// accumulator whenever it succeeds; into a vault without shares it always
/// fails.
pub proof fn law_fund_raises_accumulator(vault: FeeVault, amount: u64)
    requires
        amount > 0,
    ensures
        vault.total_share > 0 && vault.fund_error(amount) is None ==> vault.funded(amount).fee_per_share
            > vault.fee_per_share,
        vault.total_share == 0 ==> vault.fund_error(amount) == Some(FeeVaultError::MathOverflow),
{
    if vault.total_share > 0 && vault.fund_error(amount) is None {
        let s = pow2(PRECISION_SCALE as nat) as int;
        lemma_scale_unit_value();
        lemma_mul_inequality(1, amount as int, s);
        lemma_div_non_zero(amount * s, vault.total_share as int);
    }
}

/// Funding a sequence of amounts adds exactly their sum to the lifetime
/// total, and raises the accumulator by the sum of the floored increments:
/// at most the exact `sum << PRECISION_SCALE / total_share`, and short of it
/// by less than one accumulator unit per funding.
pub proof fn law_fund_sequence(vault: FeeVault, amounts: Seq<u64>)
    requires
        vault.total_share > 0,
        fund_all(vault, amounts) is Some,
    ensures
        ({
            let w = fund_all(vault, amounts)->Some_0;
            let ts = vault.total_share as int;
            let gained = w.fee_per_share - vault.fee_per_share;
            &&& w.total_share == vault.total_share
            &&& w.users == vault.users
            &&& w.total_funded_fee == vault.total_funded_fee + amount_sum(amounts)
            &&& 0 <= amount_sum(amounts) * scale_unit() - ts * gained
            &&& amount_sum(amounts) * scale_unit() - ts * gained <= amounts.len() * (ts - 1)
        }),
    decreases amounts.len(),
{
    if amounts.len() > 0 {
        let prefix = amounts.drop_last();
        let a = amounts.last();
        law_fund_sequence(vault, prefix);
        let u = fund_all(vault, prefix)->Some_0;
        let w = fund_all(vault, amounts)->Some_0;
        let ts = vault.total_share as int;
        let s = scale_unit();
        let n = prefix.len() as int;
        let prev = amount_sum(prefix) * s - ts * (u.fee_per_share - vault.fee_per_share);
        assert((amount_sum(prefix) + a) * s == amount_sum(prefix) * s + a * s) by (nonlinear_arith);
        assert((n + 1) * (ts - 1) == n * (ts - 1) + (ts - 1)) by (nonlinear_arith);
        if a > 0 {
            let d = shl_div_spec(a, ts as u64, PRECISION_SCALE)->Some_0 as int;
            lemma_pow2_pos(PRECISION_SCALE as nat);
            lemma_mul_nonnegative(a as int, s);
            lemma_fundamental_div_mod(a * s, ts);
            lemma_mod_pos_bound(a * s, ts);
            assert(d == (a * s) / ts);
            assert(ts * (u.fee_per_share - vault.fee_per_share + d) == ts * (u.fee_per_share
                - vault.fee_per_share) + ts * d) by (nonlinear_arith);
        } else {
            lemma_mul_nonnegative(n + 1, ts - 1);
        }
    }
}

/// A second claim right after a claim, with no funding between, succeeds
/// and pays nothing, and leaves the record as it was; the first pays what
/// was pending, which is positive once the slot's share of the accumulator
/// growth reaches one unit.
pub proof fn law_claim_twice(vault: FeeVault, index: u8, signer: Pubkey)
    requires
        vault.claim_error(index, signer) is None,
    ensures
        ({
            let u = vault.users[index as int];
            u.share * (vault.fee_per_share - u.fee_per_share_checkpoint) >= scale_unit() ==> u.pending(
                vault.fee_per_share,
            ) > 0
        }),
        vault.claimed(index as int).claim_error(index, signer) is None,
        vault.claimed(index as int).users[index as int].pending(vault.fee_per_share) == 0,
        vault.claimed(index as int).claimed(index as int) == vault.claimed(index as int),
{
    let u = vault.users[index as int];
    let w = vault.claimed(index as int);
    lemma_pow2_pos(PRECISION_SCALE as nat);
    if u.share * (vault.fee_per_share - u.fee_per_share_checkpoint) >= scale_unit() {
        lemma_div_non_zero(u.share * (vault.fee_per_share - u.fee_per_share_checkpoint), scale_unit());
    }
    let wu = w.users[index as int];
    assert(w.users@ == vault.users@.update(index as int, wu));
    assert(wu.fee_per_share_checkpoint == w.fee_per_share);
    assert(wu.share * (w.fee_per_share - wu.fee_per_share_checkpoint) == 0) by (nonlinear_arith)
        requires wu.fee_per_share_checkpoint == w.fee_per_share;
    assert(w.claimed(index as int).users =~= w.users);
}

/// Conservation: in a well-formed vault, what the beneficiaries have claimed
/// plus what they could claim now never exceeds what was ever funded.
pub proof fn law_conservation(vault: FeeVault)
    requires
        vault.wf(),
    ensures
        entitled_sum(vault.users@, vault.fee_per_share) <= vault.total_funded_fee,
{
    let s = scale_unit();
    lemma_pow2_pos(PRECISION_SCALE as nat);
    lemma_entitled_bound(vault.users@, vault.fee_per_share);
    assert(entitled_sum(vault.users@, vault.fee_per_share) * s <= vault.total_funded_fee * s);
    lemma_mul_inequality_converse_pos(
        entitled_sum(vault.users@, vault.fee_per_share),
        vault.total_funded_fee as int,
        s,
    );
}

proof fn lemma_mul_inequality_converse_pos(x: int, y: int, s: int)
    requires
        s > 0,
        x * s <= y * s,
    ensures
        x <= y,
{
    if x > y {
        assert(x * s > y * s) by (nonlinear_arith)
            requires x > y, s > 0;
    }
}

proof fn lemma_entitled_bound(users: Seq<UserFee>, fps: u128)
    requires
        forall|i: int| 0 <= i < users.len() ==> (#[trigger] users[i]).within(fps),
    ensures
        entitled_sum(users, fps) * scale_unit() <= share_sum(users) * fps,
    decreases users.len(),
{
    let s = scale_unit();
    lemma_pow2_pos(PRECISION_SCALE as nat);
    if users.len() > 0 {
        let rest = users.drop_last();
        let u = users.last();
        assert(u == users[users.len() - 1]);
        assert forall|i: int| 0 <= i < rest.len() implies (#[trigger] rest[i]).within(fps) by {
            assert(rest[i] == users[i]);
        }
        lemma_entitled_bound(rest, fps);
        let d = fps - u.fee_per_share_checkpoint;
        let p = u.pending(fps);
        lemma_mul_nonnegative(u.share as int, d);
        lemma_fundamental_div_mod(u.share * d, s);
        lemma_mod_pos_bound(u.share * d, s);
        let sh = u.share as int;
        let ck = u.fee_per_share_checkpoint as int;
        assert(sh * d == sh * fps - sh * ck) by (nonlinear_arith)
            requires d == fps - ck;
        let e = entitled_sum(rest, fps);
        assert((e + u.fee_claimed + p) * s == e * s + u.fee_claimed * s + p * s) by (nonlinear_arith);
        assert((share_sum(rest) + sh) * fps == share_sum(rest) * fps + sh * fps) by (nonlinear_arith);
    }
}

/// One step of a ledger's history: funding an amount, or a claim on a slot
/// by that slot's own identity.
#[derive(Clone, Copy, Debug)]
pub enum LedgerOp {
    Fund(u64),
    Claim(u8),
}

/// The record after one step, or `None` when the step fails.
pub open spec fn apply_op(vault: FeeVault, op: LedgerOp) -> Option<FeeVault> {
    match op {
        LedgerOp::Fund(amount) => if vault.fund_error(amount) is None {
            Some(vault.funded(amount))
        } else {
            None
        },
        LedgerOp::Claim(index) => if (index as int) < MAX_USER && vault.claim_error(
            index,
            vault.users[index as int].address,
        ) is None {
            Some(vault.claimed(index as int))
        } else {
            None
        },
    }
}

/// The record after each step in turn, or `None` when one of them fails.
pub open spec fn run_ops(vault: FeeVault, ops: Seq<LedgerOp>) -> Option<FeeVault>
    decreases ops.len(),
{
    if ops.len() == 0 {
        Some(vault)
    } else {
        match run_ops(vault, ops.drop_last()) {
            Some(v) => apply_op(v, ops.last()),
            None => None,
        }
    }
}

/// The number of fundings of a positive amount in a history.
pub open spec fn positive_fundings(ops: Seq<LedgerOp>) -> int
    decreases ops.len(),
{
    if ops.len() == 0 {
        0
    } else {
        positive_fundings(ops.drop_last()) + match ops.last() {
            LedgerOp::Fund(amount) => if amount > 0 {
                1int
            } else {
                0
            },
            LedgerOp::Claim(_) => 0,
        }
    }
}

/// The number of slots that hold a share.
pub open spec fn beneficiary_count(users: Seq<UserFee>) -> int
    decreases users.len(),
{
    if users.len() == 0 {
        0
    } else {
        beneficiary_count(users.drop_last()) + if users.last().share > 0 {
            1int
        } else {
            0
        }
    }
}

/// A vault just set up: well formed, with shares, and nothing funded,
/// credited or claimed yet.
pub open spec fn fresh(vault: FeeVault) -> bool {
    &&& vault.wf()
    &&& vault.total_share > 0
    &&& vault.fee_per_share == 0
    &&& vault.total_funded_fee == 0
    &&& forall|i: int|
        0 <= i < MAX_USER ==> (#[trigger] vault.users[i]).fee_claimed == 0
            && vault.users[i].fee_per_share_checkpoint == 0
}

/// What a slot has lost to flooring at its past claims, in accumulator
/// units times share.
pub open spec fn slot_loss(u: UserFee) -> int {
    u.share * u.fee_per_share_checkpoint - scale_unit() * u.fee_claimed
}

proof fn lemma_floor_split(x: int, s: int)
    requires
        x >= 0,
        s > 0,
    ensures
        s * (x / s) == x - x % s,
        0 <= x % s < s,
        x == 0 ==> x % s == 0,
{
    lemma_fundamental_div_mod(x, s);
    lemma_mod_pos_bound(x, s);
    if x == 0 {
        assert(0int % s == 0);
    }
}

/// Slot `i` matches its share in `vault`, has `ks[i]` in `0..=k`, below `k`
/// while it has something pending, zero without a share, and has lost at
/// most `ks[i]` units short of one each.
pub open spec fn slot_inv(vault: FeeVault, w: FeeVault, k: int, ks: Seq<int>, i: int) -> bool {
    let u = w.users[i];
    let s = scale_unit();
    &&& u.share == vault.users[i].share
    &&& 0 <= ks[i] <= k
    &&& (u.fee_per_share_checkpoint < w.fee_per_share ==> ks[i] < k)
    &&& (u.share == 0 ==> ks[i] == 0)
    &&& slot_loss(u) <= (s - 1) * ks[i]
}

pub open spec fn dust_inv(vault: FeeVault, w: FeeVault, k: int, ks: Seq<int>) -> bool {
    let ts = vault.total_share as int;
    &&& w.wf()
    &&& w.total_share == vault.total_share
    &&& w.total_funded_fee * scale_unit() - ts * w.fee_per_share <= k * (ts - 1)
    &&& ks.len() == MAX_USER
    &&& forall|i: int| 0 <= i < MAX_USER ==> #[trigger] slot_inv(vault, w, k, ks, i)
}

/// The bookkeeping behind the dust bound: `ks[i]` counts the fundings
/// before slot `i`'s last claim that lost something at it.
proof fn lemma_run_dust(vault: FeeVault, ops: Seq<LedgerOp>) -> (ks: Seq<int>)
    requires
        fresh(vault),
        run_ops(vault, ops) is Some,
    ensures
        dust_inv(vault, run_ops(vault, ops)->Some_0, positive_fundings(ops), ks),
    decreases ops.len(),
{
    let s = scale_unit();
    lemma_pow2_pos(PRECISION_SCALE as nat);
    lemma_scale_unit_value();
    let ts0 = vault.total_share as int;
    if ops.len() == 0 {
        let ks = seq![0int, 0, 0, 0, 0];
        assert forall|i: int| 0 <= i < MAX_USER implies slot_loss(#[trigger] vault.users[i]) <= (s - 1) * ks[i] by {
            let u = vault.users[i];
            assert(u.share * u.fee_per_share_checkpoint == 0) by (nonlinear_arith)
                requires u.fee_per_share_checkpoint == 0;
            assert(s * u.fee_claimed == 0) by (nonlinear_arith)
                requires u.fee_claimed == 0;
        }
        assert(vault.total_funded_fee * s - ts0 * vault.fee_per_share == 0) by (nonlinear_arith)
            requires vault.total_funded_fee == 0, vault.fee_per_share == 0;
        assert forall|i: int| 0 <= i < MAX_USER implies #[trigger] slot_inv(vault, vault, 0, ks, i) by {}
        ks
    } else {
        let prefix = ops.drop_last();
        let op = ops.last();
        let ks0 = lemma_run_dust(vault, prefix);
        let v = run_ops(vault, prefix)->Some_0;
        let w = run_ops(vault, ops)->Some_0;
        let k0 = positive_fundings(prefix);
        let ts = vault.total_share as int;
        assert(apply_op(v, op) == Some(w));
        match op {
            LedgerOp::Fund(a) => {
                lemma_funded_keeps_wf(v, a);
                if a > 0 {
                    law_fund_raises_accumulator(v, a);
                    let d = shl_div_spec(a, ts as u64, PRECISION_SCALE)->Some_0 as int;
                    lemma_mul_nonnegative(a as int, s);
                    lemma_floor_split(a * s, ts);
                    assert(d == (a * s) / ts);
                    assert(w.total_funded_fee * s - ts * w.fee_per_share == (v.total_funded_fee * s
                        - ts * v.fee_per_share) + (a * s - ts * d)) by (nonlinear_arith)
                        requires
                            w.total_funded_fee == v.total_funded_fee + a,
                            w.fee_per_share == v.fee_per_share + d;
                    assert(ts * d == (a * s) - (a * s) % ts) by (nonlinear_arith)
                        requires ts * ((a * s) / ts) == (a * s) - (a * s) % ts, d == (a * s) / ts;
                    assert(positive_fundings(ops) == k0 + 1);
                    assert((k0 + 1) * (ts - 1) == k0 * (ts - 1) + (ts - 1)) by (nonlinear_arith);
                } else {
                    assert(positive_fundings(ops) == k0);
                }
                let k = positive_fundings(ops);
                assert forall|i: int| 0 <= i < MAX_USER implies #[trigger] slot_inv(vault, w, k, ks0, i) by {
                    assert(w.users[i] == v.users[i]);
                    assert(slot_inv(vault, v, k0, ks0, i));
                }
                ks0
            },
            LedgerOp::Claim(index) => {
                let idx = index as int;
                lemma_claim_keeps_wf(v, idx);
                let u = v.users[idx];
                let delta = v.fee_per_share - u.fee_per_share_checkpoint;
                let sh = u.share as int;
                lemma_mul_nonnegative(sh, delta);
                lemma_floor_split(sh * delta, s);
                let wu = w.users[idx];
                assert(w.users@ == v.users@.update(idx, wu));
                assert(slot_inv(vault, v, k0, ks0, idx));
                let r = (sh * delta) % s;
                assert(slot_loss(wu) == slot_loss(u) + r) by (nonlinear_arith)
                    requires
                        slot_loss(wu) == sh * v.fee_per_share - s * (u.fee_claimed + (sh * delta) / s),
                        slot_loss(u) == sh * u.fee_per_share_checkpoint - s * u.fee_claimed,
                        s * ((sh * delta) / s) == sh * delta - r,
                        delta == v.fee_per_share - u.fee_per_share_checkpoint;
                assert(positive_fundings(ops) == k0);
                assert(w.total_funded_fee == v.total_funded_fee && w.fee_per_share == v.fee_per_share);
                let ks = if sh > 0 && delta > 0 {
                    ks0.update(idx, k0)
                } else {
                    ks0
                };
                if !(sh > 0 && delta > 0) {
                    assert(sh * delta == 0) by (nonlinear_arith)
                        requires sh >= 0, delta >= 0, !(sh > 0 && delta > 0);
                } else {
                    assert((s - 1) * ks0[idx] + (s - 1) <= (s - 1) * k0) by (nonlinear_arith)
                        requires ks0[idx] < k0, s > 1;
                }
                assert forall|i: int| 0 <= i < MAX_USER implies #[trigger] slot_inv(vault, w, k0, ks, i) by {
                    assert(slot_inv(vault, v, k0, ks0, i));
                    if i != idx {
                        assert(w.users[i] == v.users[i]);
                        assert(ks[i] == ks0[i]);
                    } else {
                        assert(wu.fee_per_share_checkpoint == w.fee_per_share);
                    }
                }
                ks
            },
        }
    }
}

proof fn lemma_entitled_lower(users: Seq<UserFee>, fps: u128, k: int)
    requires
        k >= 0,
        forall|i: int|
            0 <= i < users.len() ==> scale_unit() * ((#[trigger] users[i]).fee_claimed + users[i].pending(
                fps,
            )) >= users[i].share * fps - if users[i].share > 0 {
                (scale_unit() - 1) * k
            } else {
                0
            },
    ensures
        entitled_sum(users, fps) * scale_unit() >= share_sum(users) * fps - beneficiary_count(users)
            * ((scale_unit() - 1) * k),
    decreases users.len(),
{
    let s = scale_unit();
    if users.len() > 0 {
        let rest = users.drop_last();
        let u = users.last();
        assert(u == users[users.len() - 1]);
        assert forall|i: int| 0 <= i < rest.len() implies scale_unit() * ((#[trigger] rest[i]).fee_claimed
            + rest[i].pending(fps)) >= rest[i].share * fps - if rest[i].share > 0 {
            (scale_unit() - 1) * k
        } else {
            0
        } by {
            assert(rest[i] == users[i]);
        }
        lemma_entitled_lower(rest, fps, k);
        let e = entitled_sum(rest, fps);
        let c = u.fee_claimed + u.pending(fps);
        let m = (s - 1) * k;
        let b = beneficiary_count(rest);
        assert((e + c) * s == e * s + s * c) by (nonlinear_arith);
        assert((share_sum(rest) + u.share) * fps == share_sum(rest) * fps + u.share * fps)
            by (nonlinear_arith);
        assert((b + 1) * m == b * m + m) by (nonlinear_arith);
    }
}

/// The dust bound over any history of fundings and claims from a new vault:
/// what the beneficiaries have claimed plus what they can claim now falls
/// short of what was funded by less than one unit per beneficiary per
/// positive funding, plus the accumulator's rounding, below one unit per
/// funding in all; so by at most one unit per beneficiary per funding while
/// the fundings times the total share stay below one accumulator unit.
pub proof fn law_dust_with_claims(vault: FeeVault, ops: Seq<LedgerOp>)
    requires
        fresh(vault),
        run_ops(vault, ops) is Some,
    ensures
        ({
            let w = run_ops(vault, ops)->Some_0;
            let gap = w.total_funded_fee - entitled_sum(w.users@, w.fee_per_share);
            let k = positive_fundings(ops);
            let n = beneficiary_count(vault.users@);
            let ts = vault.total_share as int;
            &&& 0 <= gap
            &&& gap * scale_unit() <= n * k * (scale_unit() - 1) + k * (ts - 1)
            &&& k * (ts - 1) < scale_unit() ==> gap <= n * k
        }),
{
    let s = scale_unit();
    let ks = lemma_run_dust(vault, ops);
    let w = run_ops(vault, ops)->Some_0;
    let k = positive_fundings(ops);
    let ts = vault.total_share as int;
    let fps = w.fee_per_share;
    lemma_pow2_pos(PRECISION_SCALE as nat);
    lemma_scale_unit_value();
    law_conservation(w);
    lemma_positive_fundings_nonneg(ops);
    assert forall|i: int| 0 <= i < w.users@.len() implies s * ((#[trigger] w.users@[i]).fee_claimed
        + w.users@[i].pending(fps)) >= w.users@[i].share * fps - if w.users@[i].share > 0 {
        (s - 1) * k
    } else {
        0
    } by {
        let u = w.users[i];
        assert(u == w.users@[i]);
        assert(u.within(fps));
        assert(slot_inv(vault, w, k, ks, i));
        let sh = u.share as int;
        let delta = fps - u.fee_per_share_checkpoint;
        lemma_mul_nonnegative(sh, delta);
        lemma_floor_split(sh * delta, s);
        let r = (sh * delta) % s;
        assert(s * (u.fee_claimed + u.pending(fps)) == sh * fps - slot_loss(u) - r) by (nonlinear_arith)
            requires
                s * ((sh * delta) / s) == sh * delta - r,
                u.pending(fps) == (sh * delta) / s,
                slot_loss(u) == sh * u.fee_per_share_checkpoint - s * u.fee_claimed,
                delta == fps - u.fee_per_share_checkpoint;
        if sh > 0 {
            if delta > 0 {
                assert((s - 1) * ks[i] + (s - 1) <= (s - 1) * k) by (nonlinear_arith)
                    requires ks[i] < k, s > 1;
            } else {
                assert(sh * delta == 0) by (nonlinear_arith) requires delta == 0;
                assert((s - 1) * ks[i] <= (s - 1) * k) by (nonlinear_arith)
                    requires ks[i] <= k, s > 1;
            }
        } else {
            lemma_mul_nonnegative(u.fee_claimed as int, s);
            assert(sh * fps == 0) by (nonlinear_arith) requires sh == 0;
            lemma_mul_nonnegative(s, u.fee_claimed + u.pending(fps));
        }
    }
    lemma_entitled_lower(w.users@, fps, k);
    assert forall|i: int| 0 <= i < vault.users@.len() implies (#[trigger] vault.users@[i]).share
        == w.users@[i].share by {
        assert(slot_inv(vault, w, k, ks, i));
    }
    lemma_beneficiary_count_same(vault.users@, w.users@);
    let e = entitled_sum(w.users@, fps);
    let n = beneficiary_count(vault.users@);
    assert(share_sum(w.users@) == ts);
    assert((w.total_funded_fee - e) * s == w.total_funded_fee * s - e * s) by (nonlinear_arith);
    assert(n * ((s - 1) * k) == n * k * (s - 1)) by (nonlinear_arith);
    let gap = w.total_funded_fee - e;
    if k * (ts - 1) < s {
        lemma_beneficiary_count_nonneg(vault.users@);
        assert(gap <= n * k) by (nonlinear_arith)
            requires
                gap * s <= n * k * (s - 1) + k * (ts - 1),
                k * (ts - 1) < s,
                n >= 0,
                k >= 0,
                s > 0;
    }
}

proof fn lemma_positive_fundings_nonneg(ops: Seq<LedgerOp>)
    ensures
        positive_fundings(ops) >= 0,
    decreases ops.len(),
{
    if ops.len() > 0 {
        lemma_positive_fundings_nonneg(ops.drop_last());
    }
}

proof fn lemma_beneficiary_count_nonneg(users: Seq<UserFee>)
    ensures
        beneficiary_count(users) >= 0,
    decreases users.len(),
{
    if users.len() > 0 {
        lemma_beneficiary_count_nonneg(users.drop_last());
    }
}

proof fn lemma_beneficiary_count_same(a: Seq<UserFee>, b: Seq<UserFee>)
    requires
        a.len() == b.len(),
        forall|i: int| 0 <= i < a.len() ==> (#[trigger] a[i]).share == b[i].share,
    ensures
        beneficiary_count(a) == beneficiary_count(b),
    decreases a.len(),
{
    if a.len() > 0 {
        assert forall|i: int| 0 <= i < a.len() - 1 implies (#[trigger] a.drop_last()[i]).share
            == b.drop_last()[i].share by {
            assert(a.drop_last()[i] == a[i]);
            assert(b.drop_last()[i] == b[i]);
        }
        lemma_beneficiary_count_same(a.drop_last(), b.drop_last());
        assert(a.last().share == b.last().share) by {
            assert(a[a.len() - 1].share == b[a.len() - 1].share);
        }
    }
}

/// A harvest funds exactly the rise of the custody balance, once; a flat
/// balance changes nothing and funds nothing, so repeating a harvest that
/// brought nothing is a no-op; a falling balance is refused.
pub proof fn law_harvest(vault: FeeVault, before: u64, after: u64)
    ensures
        after < before ==> harvest_outcome(vault, before, after) == Err::<(FeeVault, u64), FeeVaultError>(
            FeeVaultError::MathOverflow,
        ),
        after == before ==> harvest_outcome(vault, before, after) == Ok::<(FeeVault, u64), FeeVaultError>((vault, 0)),
        after > before && vault.fund_error((after - before) as u64) is None ==> {
            let w = vault.funded((after - before) as u64);
            &&& harvest_outcome(vault, before, after) == Ok::<(FeeVault, u64), FeeVaultError>(
                (w, (after - before) as u64),
            )
            &&& w.total_funded_fee == vault.total_funded_fee + (after - before)
        },
{
}

/// The relay refuses an operation that is not on the allow-list, and a
/// caller that is not a beneficiary; a refused relay leaves the record as it
/// was (see `handle_fund_by_claiming_fee`).
pub proof fn law_relay_rejects(
    vault: FeeVault,
    token_vault: Pubkey,
    source_program: Pubkey,
    payload: Seq<u8>,
    signer: Pubkey,
)
    requires
        vault.token_vault == token_vault,
    ensures
        (payload.len() < DISCRIMINATOR_LEN || !is_whitelisted(
            source_program,
            payload.take(DISCRIMINATOR_LEN as int),
        )) ==> relay_error(vault, token_vault, source_program, payload, signer) == Some(
            FeeVaultError::InvalidAction,
        ),
        !vault.has_share_holder(signer) ==> relay_error(
            vault,
            token_vault,
            source_program,
            payload,
            signer,
        ) is Some,
{
}

} // verus!
