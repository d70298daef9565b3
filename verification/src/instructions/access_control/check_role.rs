//! The check that a member holds a role.

use vstd::prelude::*;
use crate::error::AccessControlError;
use crate::state::access_controller_state::Role;

verus! {

/// The check of a membership: `member_exists` says whether a member record
/// is stored for the member under the role.
#[derive(Clone, Debug, PartialEq, Eq)]
pub struct CheckRole {
    pub role: Role,
    pub member_exists: bool,
}

impl CheckRole {
    /// Says whether the member holds the role.
    pub fn check_role(&self) -> (checked: Result<(), AccessControlError>)
        ensures
            checked == if self.member_exists {
                Ok::<(), AccessControlError>(())
            } else {
                Err(AccessControlError::NoRole)
            },
    {
        if !self.member_exists {
            return Err(AccessControlError::NoRole);
        }
        Ok(())
    }
}

} // verus!
