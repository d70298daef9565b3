//! The balance sheet of a client.

use vstd::prelude::*;
use crate::pubkey::Pubkey;
use crate::state::fundlock_state::ClientBalance;

verus! {

/// The request of a client for the balance it holds in one token.
#[derive(Clone, Copy, Debug, PartialEq, Eq)]
pub struct BalanceSheetFundlock {
    pub client: Pubkey,
    pub token: Pubkey,
    pub client_balance: ClientBalance,
}

impl BalanceSheetFundlock {
    /// The client, the token and the free balance of the client in it.
    pub fn balance_sheet_fundlock(&self) -> (sheet: (Pubkey, Pubkey, u64))
        ensures
            sheet == (self.client, self.token, self.client_balance.amount),
    {
        (self.client, self.token, self.client_balance.amount)
    }
}

} // verus!
