//! The addition of a token to the whitelist.

use vstd::prelude::*;
use crate::constants::{role_name, same_str, Roles};
use crate::error::{AccessControlError, IthacaError, TokenValidatorError};
use crate::pubkey::Pubkey;
use crate::state::access_controller_state::Role;
use crate::state::token_validator_state::{check_fungible, fungible, WhitelistedToken};

verus! {

/// The addition of the token with mint `new_token_to_whitelist`, which has
/// `token_decimals` decimal places, asked for by a member of `role`.
#[derive(Clone, Debug, PartialEq, Eq)]
pub struct AddTokenToWhitelist {
    pub role: Role,
    pub new_token_to_whitelist: Pubkey,
    pub token_decimals: u8,
    pub whitelisted_token: WhitelistedToken,
}

/// The bump of the record that the token is stored in.
#[derive(Clone, Copy, Debug, PartialEq, Eq)]
pub struct AddTokenToWhitelistBumps {
    pub whitelisted_token: u8,
}

/// Why the addition of a token is rejected, if it is. The checks are made in
/// this order: the token is fungible; the role is the admin role.
pub open spec fn add_token_rejection(token_decimals: u8, role: Seq<char>) -> Option<IthacaError> {
    if !fungible(token_decimals) {
        Some(IthacaError::TokenValidator(TokenValidatorError::NonFungibleToken))
    } else if role != role_name(Roles::Admin) {
        Some(IthacaError::AccessControl(AccessControlError::UnauthorizedAdmin))
    } else {
        None
    }
}

impl AddTokenToWhitelist {
    /// Whitelists the token, with the precision in which the backend states
    /// amounts of it. A rejected addition changes nothing.
    pub fn add_token_to_whitelist(
        &mut self,
        bumps: &AddTokenToWhitelistBumps,
        token_precision: u8,
    ) -> (added: Result<(), IthacaError>)
        ensures
            added == match add_token_rejection(old(self).token_decimals, old(self).role.role@) {
                Some(e) => Err::<(), IthacaError>(e),
                None => Ok(()),
            },
            added is Err ==> *final(self) == *old(self),
            added is Ok ==> final(self).whitelisted_token == (WhitelistedToken {
                token_mint: old(self).new_token_to_whitelist,
                token_decimals: old(self).token_decimals,
                token_precision,
                bump: bumps.whitelisted_token,
            }),
            final(self).role == old(self).role,
            final(self).new_token_to_whitelist == old(self).new_token_to_whitelist,
            final(self).token_decimals == old(self).token_decimals,
    {
        match check_fungible(self.token_decimals) {
            Err(e) => {
                return Err(IthacaError::TokenValidator(e));
            },
            Ok(()) => {},
        }
        if !same_str(self.role.role.as_str(), Roles::Admin.as_str()) {
            return Err(IthacaError::AccessControl(AccessControlError::UnauthorizedAdmin));
        }
        self.whitelisted_token = WhitelistedToken {
            token_mint: self.new_token_to_whitelist,
            token_decimals: self.token_decimals,
            token_precision,
            bump: bumps.whitelisted_token,
        };
        Ok(())
    }
}

} // verus!
