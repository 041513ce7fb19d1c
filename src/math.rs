use vstd::prelude::*;
use vstd::arithmetic::power2::{pow2, lemma_pow2_unfold, lemma_pow2_strictly_increases, lemma_pow2_adds, lemma2_to64};
use vstd::arithmetic::mul::{lemma_mul_inequality, lemma_mul_upper_bound};
use crate::wide::{widen, checked_product, shift_right, narrow};

verus! {

/// `floor((x << offset) / y)`, when `y` is non-zero and `x << offset` fits in
/// 128 bits.
pub open spec fn shl_div_spec(x: u64, y: u64, offset: u8) -> Option<u128> {
    let shifted = x * pow2(offset as nat);
    if y == 0 || shifted > u128::MAX {
        None
    } else {
        Some((shifted / (y as int)) as u128)
    }
}

/// `floor((x * y) >> offset)`, when it fits in 128 bits.
pub open spec fn mul_shr_spec(x: u128, y: u128, offset: u8) -> Option<u128> {
    let q = (x * y) / (pow2(offset as nat) as int);
    if q > u128::MAX {
        None
    } else {
        Some(q as u128)
    }
}

/// Computes `(x << offset) / y` in 128 bits; `None` when `y` is zero or the
/// shift would lose bits.
pub fn shl_div(x: u64, y: u64, offset: u8) -> (r: Option<u128>)
    ensures
        r == shl_div_spec(x, y, offset),
{
    if y == 0 {
        return None;
    }
    let mut prod: u128 = x as u128;
    let mut i: u8 = 0;
    proof {
        lemma2_to64();
    }
    while i < offset
        invariant
            i <= offset,
            prod == x * pow2(i as nat),
        decreases offset - i,
    {
        proof {
            lemma_pow2_unfold((i + 1) as nat);
        }
        match prod.checked_mul(2) {
            Some(p) => {
                proof {
                    assert(x * pow2((i + 1) as nat) == prod * 2) by (nonlinear_arith)
                        requires prod == x * pow2(i as nat), pow2((i + 1) as nat) == 2 * pow2(i as nat);
                }
                prod = p;
            },
            None => {
                proof {
                    if (i + 1) < offset {
                        lemma_pow2_strictly_increases((i + 1) as nat, offset as nat);
                    }
                    lemma_mul_inequality(pow2((i + 1) as nat) as int, pow2(offset as nat) as int, x as int);
                    assert(x * pow2((i + 1) as nat) == prod * 2) by (nonlinear_arith)
                        requires prod == x * pow2(i as nat), pow2((i + 1) as nat) == 2 * pow2(i as nat);
                }
                return None;
            },
        }
        i = i + 1;
    }
    Some(prod / (y as u128))
}

proof fn lemma_pow2_256()
    ensures
        pow2(256) == 0x1_0000_0000_0000_0000_0000_0000_0000_0000_0000_0000_0000_0000_0000_0000_0000_0000,
{
    lemma2_to64();
    lemma_pow2_adds(64, 64);
    lemma_pow2_adds(128, 128);
    let p64 = pow2(64);
    let p128 = pow2(128);
    assert(p128 == 0x1_0000_0000_0000_0000_0000_0000_0000_0000) by {
        assert(p128 == p64 * p64);
    }
    assert(pow2(256) == p128 * p128);
    assert(p128 * p128 == 0x1_0000_0000_0000_0000_0000_0000_0000_0000_0000_0000_0000_0000_0000_0000_0000_0000) by (nonlinear_arith)
        requires p128 == 0x1_0000_0000_0000_0000_0000_0000_0000_0000;
}

/// Computes `(x * y) >> offset` through a 256-bit product; `None` when the
/// result does not fit in 128 bits.
pub fn mul_shr(x: u128, y: u128, offset: u8) -> (r: Option<u128>)
    ensures
        r == mul_shr_spec(x, y, offset),
{
    let wx = widen(x);
    let wy = widen(y);
    let prod = match checked_product(wx, wy) {
        Some(p) => p,
        None => {
            proof {
                lemma_mul_upper_bound(x as int, u128::MAX as int, y as int, u128::MAX as int);
                lemma_pow2_256();
            }
            return None;
        },
    };
    let q = shift_right(prod, offset as usize);
    narrow(q)
}

} // verus!
