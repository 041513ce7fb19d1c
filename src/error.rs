use vstd::prelude::*;

verus! {

/// Every way an operation on a fee vault can fail.
#[derive(Clone, Copy, Debug, PartialEq, Eq, Structural)]
pub enum FeeVaultError {
    MathOverflow,
    InvalidMint,
    InvalidFeeVaultParameters,
    AmountIsZero,
    InvalidUserIndex,
    InvalidUserAddress,
    ExceededUser,
    InvalidFeeVault,
    InvalidDammv2Pool,
    InvalidDbcPool,
    InvalidSigner,
    InvalidAction,
}

} // verus!
