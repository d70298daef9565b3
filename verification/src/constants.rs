//! Limits and role names.

use vstd::prelude::*;

verus! {

/// Largest number of withdrawals that may be pending for one client balance.
pub const ALLOWED_WITHDRAWAL_LIMIT: usize = 5;

/// The roles that the access controller knows.
#[derive(Clone, Copy, Debug, PartialEq, Eq, Structural)]
pub enum Roles {
    Admin,
    UtilityAccount,
    Liquidator,
}

/// The name under which a role is stored.
pub open spec fn role_name(role: Roles) -> Seq<char> {
    match role {
        Roles::Admin => "DEFAULT_ADMIN_ROLE"@,
        Roles::UtilityAccount => "UTILITY_ACCOUNT_ROLE"@,
        Roles::Liquidator => "LIQUIDATOR_ROLE"@,
    }
}

/// Whether a name is the name of a role.
pub open spec fn names_a_role(name: Seq<char>) -> bool {
    name == role_name(Roles::Admin) || name == role_name(Roles::UtilityAccount) || name
        == role_name(Roles::Liquidator)
}

/// No two roles have the same name.
pub proof fn lemma_role_names_differ(a: Roles, b: Roles)
    ensures
        role_name(a) == role_name(b) <==> a == b,
{
    reveal_strlit("DEFAULT_ADMIN_ROLE");
    reveal_strlit("UTILITY_ACCOUNT_ROLE");
    reveal_strlit("LIQUIDATOR_ROLE");
    assert("UTILITY_ACCOUNT_ROLE"@.len() == 20);
    assert("LIQUIDATOR_ROLE"@.len() == 15);
}

/// Whether two strings hold the same characters.
pub fn same_str(a: &str, b: &str) -> (same: bool)
    ensures
        same == (a@ == b@),
{
    a.to_owned() == b.to_owned()
}

impl Roles {
    /// The name under which this role is stored.
    pub fn as_str(&self) -> (name: &'static str)
        ensures
            name@ == role_name(*self),
    {
        match self {
            Roles::Admin => "DEFAULT_ADMIN_ROLE",
            Roles::UtilityAccount => "UTILITY_ACCOUNT_ROLE",
            Roles::Liquidator => "LIQUIDATOR_ROLE",
        }
    }

    /// The role stored under a name, if the name is that of a role.
    pub fn from_str(role: &str) -> (found: Option<Self>)
        ensures
            found is Some <==> names_a_role(role@),
            found matches Some(named) ==> role_name(named) == role@,
    {
        if same_str(role, "DEFAULT_ADMIN_ROLE") {
            Some(Roles::Admin)
        } else if same_str(role, "UTILITY_ACCOUNT_ROLE") {
            Some(Roles::UtilityAccount)
        } else if same_str(role, "LIQUIDATOR_ROLE") {
            Some(Roles::Liquidator)
        } else {
            None
        }
    }

    /// Whether a name is the name of a role.
    pub fn is_valid_role(role: &str) -> (valid: bool)
        ensures
            valid == names_a_role(role@),
    {
        same_str(role, "DEFAULT_ADMIN_ROLE") || same_str(role, "UTILITY_ACCOUNT_ROLE") || same_str(
            role,
            "LIQUIDATOR_ROLE",
        )
    }
}

} // verus!
