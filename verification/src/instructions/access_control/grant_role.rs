//! The grant of a role to a member.

use vstd::prelude::*;
use crate::constants::{names_a_role, Roles};
use crate::error::AccessControlError;
use crate::pubkey::Pubkey;
use crate::state::access_controller_state::{AccessController, Member, Role};

verus! {

/// The grant of a role of a directory, asked for by `admin`.
#[derive(Clone, Debug, PartialEq, Eq)]
pub struct GrantRole {
    pub admin: Pubkey,
    pub access_controller: AccessController,
    pub role: Role,
    pub member: Member,
}

/// The bumps of the records that a grant stores.
#[derive(Clone, Copy, Debug, PartialEq, Eq)]
pub struct GrantRoleBumps {
    pub role: u8,
    pub member: u8,
}

/// Why a grant is rejected, if it is. The checks are made in this order: the
/// one who asks is the admin of the directory; the name is that of a role.
pub open spec fn grant_rejection(
    directory_admin: Pubkey,
    admin: Pubkey,
    role_granted: Seq<char>,
) -> Option<AccessControlError> {
    if directory_admin != admin {
        Some(AccessControlError::UnauthorizedAdmin)
    } else if !names_a_role(role_granted) {
        Some(AccessControlError::InvalidRole)
    } else {
        None
    }
}

impl GrantRole {
    /// Grants the role named `role_granted` to `new_member`. A rejected grant
    /// changes nothing.
    pub fn grant_role(&mut self, role_granted: String, new_member: Pubkey, bumps: &GrantRoleBumps) -> (granted:
        Result<(), AccessControlError>)
        requires
            old(self).role.member_count < u64::MAX,
        ensures
            granted == match grant_rejection(
                old(self).access_controller.admin,
                old(self).admin,
                role_granted@,
            ) {
                Some(e) => Err::<(), AccessControlError>(e),
                None => Ok(()),
            },
            granted is Err ==> *final(self) == *old(self),
            granted is Ok ==> final(self).role.role@ == role_granted@,
            granted is Ok ==> final(self).role.member_count == old(self).role.member_count + 1,
            granted is Ok ==> final(self).role.bump == bumps.role,
            granted is Ok ==> final(self).member == (Member {
                member: new_member,
                bump: bumps.member,
            }),
            final(self).admin == old(self).admin,
            final(self).access_controller == old(self).access_controller,
    {
        if !(self.access_controller.admin == self.admin) {
            return Err(AccessControlError::UnauthorizedAdmin);
        }
        if !Roles::is_valid_role(role_granted.as_str()) {
            return Err(AccessControlError::InvalidRole);
        }
        self.role = Role {
            role: role_granted,
            member_count: self.role.member_count + 1,
            bump: bumps.role,
        };
        self.member = Member { member: new_member, bump: bumps.member };
        Ok(())
    }
}

} // verus!
