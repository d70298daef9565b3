//! The records of a ledger: the token pair it settles, its derivative
//! contracts and the positions held in them.

use vstd::prelude::*;
use crate::pubkey::Pubkey;

verus! {

/// A ledger settles movements of one underlying token against one strike
/// token. Its multipliers turn an amount in the backend's precision into
/// balance units of the token.
#[derive(Clone, Copy, Debug, PartialEq, Eq)]
pub struct Ledger {
    pub access_controller: Pubkey,
    pub token_validator: Pubkey,
    pub fundlock: Pubkey,
    pub underlying_token: Pubkey,
    pub strike_token: Pubkey,
    pub underlying_multiplier: i64,
    pub strike_multiplier: i64,
    pub bump: u8,
}

/// A derivative contract, one per ledger and contract id.
#[derive(Clone, Copy, Debug, PartialEq, Eq)]
pub struct Contract {
    pub contract_id: u64,
    pub bump: u8,
}

/// The position of one client in one contract.
#[derive(Clone, Copy, Debug, PartialEq, Eq)]
pub struct Position {
    pub contract_id: u64,
    pub client: Pubkey,
    pub size: u64,
    pub bump: u8,
}

/// A position to create or update, as the backend submits it.
#[derive(Clone, Copy, Debug, PartialEq, Eq)]
pub struct PositionsParam {
    pub contract_id: u64,
    pub client: Pubkey,
    pub size: u64,
}

/// A net change to the two balances of one client, as the backend submits it,
/// in the backend's precision. A positive amount is owed by the client.
#[derive(Clone, Copy, Debug, PartialEq, Eq)]
pub struct FundMovementParam {
    pub client: Pubkey,
    pub underlying_amount: i64,
    pub strike_amount: i64,
}

/// A fund movement without its client.
#[derive(Clone, Copy, Debug, PartialEq, Eq)]
pub struct FundMovementParamOptimized {
    pub underlying_amount: i64,
    pub strike_amount: i64,
}

impl Ledger {
    /// The bytes that the stored record takes: its tag, five identities, two
    /// multipliers, the bump.
    pub const INIT_SPACE: usize = 8 + 32 + 32 + 32 + 32 + 32 + 8 + 8 + 1;
}

impl Contract {
    /// The bytes that the stored record takes: its tag, the id, the bump.
    pub const INIT_SPACE: usize = 8 + 8 + 1;
}

impl Position {
    /// The bytes that the stored record takes: its tag, the id, the client,
    /// the size, the bump.
    pub const INIT_SPACE: usize = 8 + 8 + 32 + 8 + 1;
}

} // verus!
