//! The renunciation of a role by a member.

use vstd::prelude::*;
use crate::error::AccessControlError;
use crate::state::access_controller_state::Role;

verus! {

/// The renunciation of a role.
#[derive(Clone, Debug, PartialEq, Eq)]
pub struct RenounceRole {
    pub role: Role,
}

impl RenounceRole {
    /// Says whether a member may renounce the role: the last member of a role
    /// may not.
    pub fn renounce_role(&self) -> (renounced: Result<(), AccessControlError>)
        ensures
            renounced == if self.role.member_count == 1 {
                Err::<(), AccessControlError>(AccessControlError::LastMember)
            } else {
                Ok(())
            },
    {
        if self.role.member_count == 1 {
            return Err(AccessControlError::LastMember);
        }
        Ok(())
    }
}

} // verus!
