//! The records of the token whitelist.

use vstd::prelude::*;
use crate::error::TokenValidatorError;
use crate::pubkey::Pubkey;

verus! {

/// The whitelist of one access controller.
#[derive(Clone, Copy, Debug, PartialEq, Eq)]
pub struct TokenValidator {
    pub access_controller: Pubkey,
    pub bump: u8,
}

/// One whitelisted token: its mint, the decimals of the mint and the
/// precision in which the backend states amounts of it.
#[derive(Clone, Copy, Debug, PartialEq, Eq)]
pub struct WhitelistedToken {
    pub token_mint: Pubkey,
    pub token_decimals: u8,
    pub token_precision: u8,
    pub bump: u8,
}

/// Whether a token with `decimals` decimal places is fungible: it has at
/// least one.
pub open spec fn fungible(decimals: u8) -> bool {
    decimals > 0
}

/// Rejects a token that is not fungible.
pub fn check_fungible(decimals: u8) -> (checked: Result<(), TokenValidatorError>)
    ensures
        checked == if fungible(decimals) {
            Ok::<(), TokenValidatorError>(())
        } else {
            Err(TokenValidatorError::NonFungibleToken)
        },
{
    if decimals > 0 {
        Ok(())
    } else {
        Err(TokenValidatorError::NonFungibleToken)
    }
}

impl TokenValidator {
    /// The bytes that the stored record takes: its tag, the access
    /// controller, the bump.
    pub const INIT_SPACE: usize = 8 + 32 + 1;
}

impl WhitelistedToken {
    /// The bytes that the stored record takes: its tag, the mint, the
    /// decimals, the precision, the bump.
    pub const INIT_SPACE: usize = 8 + 32 + 1 + 1 + 1;
}

} // verus!
