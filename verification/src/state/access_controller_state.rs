//! The records of the role directory.

use vstd::prelude::*;
use crate::pubkey::Pubkey;

verus! {

/// The directory of one admin.
#[derive(Clone, Copy, Debug, PartialEq, Eq)]
pub struct AccessController {
    pub admin: Pubkey,
    pub bump: u8,
}

/// One role of a directory, by its name, with the number of its members.
#[derive(Clone, Debug, PartialEq, Eq)]
pub struct Role {
    pub role: String,
    pub member_count: u64,
    pub bump: u8,
}

/// One member of a role.
#[derive(Clone, Copy, Debug, PartialEq, Eq)]
pub struct Member {
    pub member: Pubkey,
    pub bump: u8,
}

impl AccessController {
    /// The bytes that the stored record takes: its tag, the admin, the bump.
    pub const INIT_SPACE: usize = 8 + 32 + 1;
}

impl Role {
    /// The bytes that the stored record takes: its tag, the length of the
    /// name, the name of at most 32 bytes, the member count, the bump.
    pub const INIT_SPACE: usize = 8 + 4 + 32 + 8 + 1;
}

impl Member {
    /// The bytes that the stored record takes: its tag, the member, the bump.
    pub const INIT_SPACE: usize = 8 + 32 + 1;
}

} // verus!
