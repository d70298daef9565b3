//! The configuration of a vault.

use vstd::prelude::*;
use crate::pubkey::Pubkey;
use crate::state::fundlock_state::Fundlock;

verus! {

/// The creation of the configuration of the vault of one access controller
/// and token whitelist.
#[derive(Clone, Copy, Debug, PartialEq, Eq)]
pub struct InitFundlock {
    pub access_controller: Pubkey,
    pub token_validator: Pubkey,
    pub fundlock: Fundlock,
}

/// The bump of the record that the configuration is stored in.
#[derive(Clone, Copy, Debug, PartialEq, Eq)]
pub struct InitFundlockBumps {
    pub fundlock: u8,
}

impl InitFundlock {
    /// Sets the two locks of the vault, in seconds.
    pub fn init_fundlock(&mut self, trade_lock: i64, release_lock: i64, bumps: &InitFundlockBumps)
        ensures
            final(self).fundlock == (Fundlock {
                access_controller: old(self).access_controller,
                token_validator: old(self).token_validator,
                trade_lock,
                release_lock,
                bump: bumps.fundlock,
            }),
            final(self).access_controller == old(self).access_controller,
            final(self).token_validator == old(self).token_validator,
    {
        self.fundlock = Fundlock {
            access_controller: self.access_controller,
            token_validator: self.token_validator,
            trade_lock,
            release_lock,
            bump: bumps.fundlock,
        };
    }
}

} // verus!
