use vstd::prelude::*;
use crate::error::FeeVaultError;
use crate::pubkey::Pubkey;

verus! {

/// The address of the legacy SPL token program.
pub const TOKEN_PROGRAM_ID: [u8; 32] = [
    6u8, 221, 246, 225, 215, 101, 161, 147, 217, 203, 225, 70, 206, 235, 121, 172, 28, 180, 133,
    237, 95, 91, 55, 145, 58, 140, 245, 133, 126, 255, 0, 169,
];

/// Which token program owns a mint.
#[derive(Clone, Copy, Debug, PartialEq, Eq, Structural)]
pub enum TokenProgramFlags {
    TokenProgram,
    TokenProgram2022,
}

impl TokenProgramFlags {
    pub open spec fn code(self) -> u8 {
        match self {
            TokenProgramFlags::TokenProgram => 0,
            TokenProgramFlags::TokenProgram2022 => 1,
        }
    }

    pub fn to_u8(self) -> (r: u8)
        ensures
            r == self.code(),
    {
        match self {
            TokenProgramFlags::TokenProgram => 0,
            TokenProgramFlags::TokenProgram2022 => 1,
        }
    }
}

/// The extensions a token-2022 mint may carry, as far as support goes.
#[derive(Clone, Copy, Debug, PartialEq, Eq, Structural)]
pub enum MintExtension {
    TransferFeeConfig,
    MetadataPointer,
    TokenMetadata,
    Other,
}

/// A transfer amount with its transfer fee taken out.
#[derive(Clone, Copy, Debug, PartialEq, Eq, Structural)]
pub struct TransferFeeExcludedAmount {
    pub amount: u64,
    pub transfer_fee: u64,
}

/// The legacy token program for a mint it owns, token-2022 otherwise.
pub fn get_token_program_flags(mint_owner: &Pubkey) -> (r: TokenProgramFlags)
    ensures
        r == if mint_owner.bytes == TOKEN_PROGRAM_ID {
            TokenProgramFlags::TokenProgram
        } else {
            TokenProgramFlags::TokenProgram2022
        },
{
    let token_program = Pubkey { bytes: TOKEN_PROGRAM_ID };
    if mint_owner.same(&token_program) {
        TokenProgramFlags::TokenProgram
    } else {
        TokenProgramFlags::TokenProgram2022
    }
}

/// A mint is supported when the legacy token program owns it, or when
/// all its extensions are a transfer fee or metadata.
pub open spec fn supported_mint(owner_is_token_program: bool, extensions: Seq<MintExtension>) -> bool {
    owner_is_token_program || forall|i: int|
        0 <= i < extensions.len() ==> (#[trigger] extensions[i]) != MintExtension::Other
}

pub fn is_supported_mint(mint_owner: &Pubkey, extensions: &[MintExtension]) -> (r: bool)
    ensures
        r == supported_mint(mint_owner.bytes == TOKEN_PROGRAM_ID, extensions@),
{
    let token_program = Pubkey { bytes: TOKEN_PROGRAM_ID };
    if mint_owner.same(&token_program) {
        return true;
    }
    assert(mint_owner.bytes != TOKEN_PROGRAM_ID) by {
        if mint_owner.bytes == TOKEN_PROGRAM_ID {
            assert(mint_owner.bytes =~= token_program.bytes);
        }
    }
    let mut i: usize = 0;
    while i < extensions.len()
        invariant
            mint_owner.bytes != TOKEN_PROGRAM_ID,
            0 <= i <= extensions@.len(),
            forall|j: int| 0 <= j < i ==> (#[trigger] extensions@[j]) != MintExtension::Other,
        decreases extensions@.len() - i,
    {
        match extensions[i] {
            MintExtension::Other => {
                assert(extensions@[i as int] == MintExtension::Other);
                return false;
            },
            _ => {},
        }
        i = i + 1;
    }
    true
}

/// Splits `transfer_fee_included_amount` into what arrives and the
/// `transfer_fee` the token program withholds; a fee above the amount is an
/// overflow.
pub fn calculate_transfer_fee_excluded_amount(
    transfer_fee_included_amount: u64,
    transfer_fee: u64,
) -> (r: Result<TransferFeeExcludedAmount, FeeVaultError>)
    ensures
        r == if transfer_fee > transfer_fee_included_amount {
            Err::<TransferFeeExcludedAmount, FeeVaultError>(FeeVaultError::MathOverflow)
        } else {
            Ok(
                TransferFeeExcludedAmount {
                    amount: (transfer_fee_included_amount - transfer_fee) as u64,
                    transfer_fee,
                },
            )
        },
{
    match transfer_fee_included_amount.checked_sub(transfer_fee) {
        Some(amount) => Ok(TransferFeeExcludedAmount { amount, transfer_fee }),
        None => Err(FeeVaultError::MathOverflow),
    }
}

} // verus!
