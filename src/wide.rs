use vstd::prelude::*;
use vstd::arithmetic::power2::pow2;
use ruint::aliases::U256;

verus! {

/// A 256-bit unsigned value held as four little-endian 64-bit limbs.
#[derive(Clone, Copy, Debug)]
pub struct Wide {
    pub limbs: [u64; 4],
}

impl Wide {
    pub open spec fn value(self) -> int {
        self.limbs[0] as int + self.limbs[1] as int * 0x1_0000_0000_0000_0000
            + self.limbs[2] as int * 0x1_0000_0000_0000_0000_0000_0000_0000_0000
            + self.limbs[3] as int * 0x1_0000_0000_0000_0000_0000_0000_0000_0000_0000_0000_0000_0000
    }
}

/// Relies on ruint's `Uint::from` for a `u128`: the value is kept, since a
/// `u128` always fits in 256 bits.
#[verifier::external_body]
pub(crate) fn widen(x: u128) -> (r: Wide)
    ensures
        r.value() == x as int,
{
    Wide { limbs: U256::from(x).into_limbs() }
}

/// Relies on ruint's `Uint::checked_mul`: the product, or `None` when it does
/// not fit in 256 bits.
#[verifier::external_body]
pub(crate) fn checked_product(x: Wide, y: Wide) -> (r: Option<Wide>)
    ensures
        match r {
            Some(p) => p.value() == x.value() * y.value(),
            None => x.value() * y.value() >= pow2(256),
        },
{
    match U256::from_limbs(x.limbs).checked_mul(U256::from_limbs(y.limbs)) {
        Some(p) => Some(Wide { limbs: p.into_limbs() }),
        None => None,
    }
}

/// Relies on ruint's `Uint::overflowing_shr`, whose first component is
/// `floor(x / 2^shift)` for every shift.
#[verifier::external_body]
pub(crate) fn shift_right(x: Wide, shift: usize) -> (r: Wide)
    ensures
        r.value() == x.value() / (pow2(shift as nat) as int),
{
    Wide { limbs: U256::from_limbs(x.limbs).overflowing_shr(shift).0.into_limbs() }
}

/// Relies on ruint's `TryFrom<Uint> for u128`: it succeeds exactly when the
/// value fits in 128 bits.
#[verifier::external_body]
pub(crate) fn narrow(x: Wide) -> (r: Option<u128>)
    ensures
        match r {
            Some(v) => v as int == x.value(),
            None => x.value() > u128::MAX,
        },
{
    u128::try_from(U256::from_limbs(x.limbs)).ok()
}

} // verus!
