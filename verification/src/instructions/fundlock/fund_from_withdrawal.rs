//! The recall of pending withdrawals into the trading balance.

use vstd::prelude::*;
use crate::state::fundlock_state::{
    drained, recallable_total, ClientBalance, Fundlock, Withdrawals,
};

verus! {

/// The recall of funds from the pending withdrawals of one client balance.
#[derive(Clone, Debug, PartialEq, Eq)]
pub struct FundFromWithdrawal {
    pub fundlock: Fundlock,
    pub client_balance: ClientBalance,
    pub withdrawals: Withdrawals,
}

impl FundFromWithdrawal {
    /// Recalls `amount` from the pending withdrawals that are still inside the
    /// trade lock, oldest first, and says whether it could. An attempt that
    /// fails changes nothing.
    pub fn fund_from_withdrawal(&mut self, amount: u64, now: i64) -> (funded: bool)
        requires
            old(self).withdrawals.wf(),
        ensures
            funded == (amount <= recallable_total(
                old(self).withdrawals.withdrawal_queue@,
                old(self).fundlock.trade_lock,
                now,
            )),
            funded ==> final(self).withdrawals.withdrawal_queue@ == drained(
                old(self).withdrawals.withdrawal_queue@,
                amount as nat,
                old(self).fundlock.trade_lock,
                now,
            ),
            funded ==> final(self).withdrawals.active_withdrawals_amount == old(
                self,
            ).withdrawals.active_withdrawals_amount - amount,
            !funded ==> *final(self) == *old(self),
            final(self).withdrawals.client == old(self).withdrawals.client,
            final(self).withdrawals.bump == old(self).withdrawals.bump,
            final(self).client_balance == old(self).client_balance,
            final(self).fundlock == old(self).fundlock,
            final(self).withdrawals.wf(),
    {
        let trade_lock = self.fundlock.trade_lock;
        self.withdrawals.fund_from_withdrawal(amount, trade_lock, now)
    }
}

} // verus!
