//! The creation of a role directory.

use vstd::prelude::*;
use crate::constants::{role_name, Roles};
use crate::pubkey::Pubkey;
use crate::state::access_controller_state::{AccessController, Member, Role};

verus! {

/// The creation of the directory of `admin`, with the admin role and the
/// admin as its first member.
#[derive(Clone, Debug, PartialEq, Eq)]
pub struct InitAccessController {
    pub admin: Pubkey,
    pub access_controller: AccessController,
    pub role: Role,
    pub member: Member,
}

/// The bumps of the records that the creation of a directory stores.
#[derive(Clone, Copy, Debug, PartialEq, Eq)]
pub struct InitAccessControllerBumps {
    pub access_controller: u8,
    pub role: u8,
    pub member: u8,
}

impl InitAccessController {
    /// Makes `admin` the admin of the directory and the only member of its
    /// admin role.
    pub fn initialize(&mut self, bumps: &InitAccessControllerBumps)
        ensures
            final(self).admin == old(self).admin,
            final(self).access_controller == (AccessController {
                admin: old(self).admin,
                bump: bumps.access_controller,
            }),
            final(self).role.role@ == role_name(Roles::Admin),
            final(self).role.member_count == 1,
            final(self).role.bump == bumps.role,
            final(self).member == (Member { member: old(self).admin, bump: bumps.member }),
    {
        self.access_controller = AccessController {
            admin: self.admin,
            bump: bumps.access_controller,
        };
        self.role = Role {
            role: Roles::Admin.as_str().to_owned(),
            member_count: 1,
            bump: bumps.role,
        };
        self.member = Member { member: self.admin, bump: bumps.member };
    }
}

} // verus!
