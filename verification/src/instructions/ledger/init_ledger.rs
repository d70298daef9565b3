//! The creation of a ledger.

use vstd::prelude::*;
use crate::constants::{role_name, same_str, Roles};
use crate::error::{AccessControlError, IthacaError, LedgerError, TokenValidatorError};
use crate::fixed_point::{multiplier, multiplier_of};
use crate::pubkey::Pubkey;
use crate::state::access_controller_state::Role;
use crate::state::ledger_state::Ledger;
use crate::state::token_validator_state::{check_fungible, fungible, WhitelistedToken};

verus! {

/// The creation of the ledger of an underlying token and a strike token,
/// asked for by a member of `role`. The decimals are those of the mints of
/// the two tokens.
#[derive(Clone, Debug, PartialEq, Eq)]
pub struct InitLedger {
    pub role: Role,
    pub access_controller: Pubkey,
    pub token_validator: Pubkey,
    pub fundlock: Pubkey,
    pub underlying_token: Pubkey,
    pub underlying_decimals: u8,
    pub whitelisted_underlying_token: WhitelistedToken,
    pub strike_token: Pubkey,
    pub strike_decimals: u8,
    pub whitelisted_strike_token: WhitelistedToken,
    pub ledger: Ledger,
}

/// The bump of the record that the ledger is stored in.
#[derive(Clone, Copy, Debug, PartialEq, Eq)]
pub struct InitLedgerBumps {
    pub ledger: u8,
}

/// Why the creation of a ledger is rejected, if it is. The checks are made in
/// this order: both tokens are fungible; the role is the admin role; each
/// token has a multiplier.
pub open spec fn init_ledger_rejection(
    role: Seq<char>,
    strike_decimals: u8,
    strike_precision: u8,
    underlying_decimals: u8,
    underlying_precision: u8,
) -> Option<IthacaError> {
    if !fungible(underlying_decimals) || !fungible(strike_decimals) {
        Some(IthacaError::TokenValidator(TokenValidatorError::NonFungibleToken))
    } else if role != role_name(Roles::Admin) {
        Some(IthacaError::AccessControl(AccessControlError::UnauthorizedAdmin))
    } else if multiplier_of(strike_decimals, strike_precision) is None || multiplier_of(
        underlying_decimals,
        underlying_precision,
    ) is None {
        Some(IthacaError::Ledger(LedgerError::InvalidPrecision))
    } else {
        None
    }
}

impl InitLedger {
    /// Creates the ledger, with the multiplier of each of its tokens: ten to
    /// the power of the difference between the decimals of the token and the
    /// precision declared for it. A rejected creation changes nothing.
    pub fn init_ledger(&mut self, bumps: &InitLedgerBumps) -> (created: Result<(), IthacaError>)
        ensures
            created == match init_ledger_rejection(
                old(self).role.role@,
                old(self).strike_decimals,
                old(self).whitelisted_strike_token.token_precision,
                old(self).underlying_decimals,
                old(self).whitelisted_underlying_token.token_precision,
            ) {
                Some(e) => Err::<(), IthacaError>(e),
                None => Ok(()),
            },
            created is Err ==> *final(self) == *old(self),
            created is Ok ==> final(self).ledger == (Ledger {
                access_controller: old(self).access_controller,
                token_validator: old(self).token_validator,
                fundlock: old(self).fundlock,
                underlying_token: old(self).underlying_token,
                strike_token: old(self).strike_token,
                underlying_multiplier: multiplier_of(
                    old(self).underlying_decimals,
                    old(self).whitelisted_underlying_token.token_precision,
                )->Some_0 as i64,
                strike_multiplier: multiplier_of(
                    old(self).strike_decimals,
                    old(self).whitelisted_strike_token.token_precision,
                )->Some_0 as i64,
                bump: bumps.ledger,
            }),
            created is Ok ==> final(self).ledger.underlying_multiplier >= 1,
            created is Ok ==> final(self).ledger.strike_multiplier >= 1,
            final(self).role == old(self).role,
            final(self).access_controller == old(self).access_controller,
            final(self).token_validator == old(self).token_validator,
            final(self).fundlock == old(self).fundlock,
            final(self).underlying_token == old(self).underlying_token,
            final(self).underlying_decimals == old(self).underlying_decimals,
            final(self).whitelisted_underlying_token == old(self).whitelisted_underlying_token,
            final(self).strike_token == old(self).strike_token,
            final(self).strike_decimals == old(self).strike_decimals,
            final(self).whitelisted_strike_token == old(self).whitelisted_strike_token,
    {
        match check_fungible(self.underlying_decimals) {
            Err(e) => {
                return Err(IthacaError::TokenValidator(e));
            },
            Ok(()) => {},
        }
        match check_fungible(self.strike_decimals) {
            Err(e) => {
                return Err(IthacaError::TokenValidator(e));
            },
            Ok(()) => {},
        }
        if !same_str(self.role.role.as_str(), Roles::Admin.as_str()) {
            return Err(IthacaError::AccessControl(AccessControlError::UnauthorizedAdmin));
        }
        let strike_multiplier = match multiplier(
            self.strike_decimals,
            self.whitelisted_strike_token.token_precision,
        ) {
            Some(m) => m,
            None => {
                return Err(IthacaError::Ledger(LedgerError::InvalidPrecision));
            },
        };
        let underlying_multiplier = match multiplier(
            self.underlying_decimals,
            self.whitelisted_underlying_token.token_precision,
        ) {
            Some(m) => m,
            None => {
                return Err(IthacaError::Ledger(LedgerError::InvalidPrecision));
            },
        };
        self.ledger = Ledger {
            access_controller: self.access_controller,
            token_validator: self.token_validator,
            fundlock: self.fundlock,
            underlying_token: self.underlying_token,
            strike_token: self.strike_token,
            underlying_multiplier,
            strike_multiplier,
            bump: bumps.ledger,
        };
        Ok(())
    }
}

} // verus!
