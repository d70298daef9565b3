//! The creation of a token whitelist.

use vstd::prelude::*;
use crate::constants::{role_name, same_str, Roles};
use crate::error::AccessControlError;
use crate::pubkey::Pubkey;
use crate::state::access_controller_state::Role;
use crate::state::token_validator_state::TokenValidator;

verus! {

/// The creation of the whitelist of a directory, asked for by a member of
/// `role`.
#[derive(Clone, Debug, PartialEq, Eq)]
pub struct InitTokenValidator {
    pub role: Role,
    pub access_controller: Pubkey,
    pub token_validator: TokenValidator,
}

/// The bump of the record that the whitelist is stored in.
#[derive(Clone, Copy, Debug, PartialEq, Eq)]
pub struct InitTokenValidatorBumps {
    pub token_validator: u8,
}

impl InitTokenValidator {
    /// Creates the whitelist, where the role is the admin role. A rejected
    /// creation changes nothing.
    pub fn init_token_validator(&mut self, bumps: &InitTokenValidatorBumps) -> (created: Result<
        (),
        AccessControlError,
    >)
        ensures
            created == if old(self).role.role@ == role_name(Roles::Admin) {
                Ok::<(), AccessControlError>(())
            } else {
                Err(AccessControlError::UnauthorizedAdmin)
            },
            created is Err ==> *final(self) == *old(self),
            created is Ok ==> final(self).token_validator == (TokenValidator {
                access_controller: old(self).access_controller,
                bump: bumps.token_validator,
            }),
            final(self).role == old(self).role,
            final(self).access_controller == old(self).access_controller,
    {
        if !same_str(self.role.role.as_str(), Roles::Admin.as_str()) {
            return Err(AccessControlError::UnauthorizedAdmin);
        }
        self.token_validator = TokenValidator {
            access_controller: self.access_controller,
            bump: bumps.token_validator,
        };
        Ok(())
    }
}

} // verus!
