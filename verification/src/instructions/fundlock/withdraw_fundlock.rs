//! The request to withdraw: funds leave the free balance and wait in the queue.

use vstd::prelude::*;
use crate::constants::ALLOWED_WITHDRAWAL_LIMIT;
use crate::error::FundlockError;
use crate::pubkey::Pubkey;
use crate::state::fundlock_state::{
    account_of, lemma_queue_total_push, Account, ClientBalance, WithdrawalState, Withdrawals,
};

verus! {

/// A client's request to withdraw from the balance it holds in one token.
#[derive(Clone, Debug, PartialEq, Eq)]
pub struct WithdrawFundlock {
    pub client: Pubkey,
    pub token: Pubkey,
    pub client_ata: Pubkey,
    pub client_balance: ClientBalance,
    pub withdrawals: Withdrawals,
}

/// Why a request to withdraw `amount` is rejected, if it is. The checks are
/// made in this order: the amount, the free balance, the room in the queue,
/// the room in the recorded total.
pub open spec fn withdraw_rejection(account: Account, amount: u64) -> Option<FundlockError> {
    if amount == 0 {
        Some(FundlockError::AmountZero)
    } else if account.balance < amount {
        Some(FundlockError::InsufficientFunds)
    } else if account.queue.len() >= ALLOWED_WITHDRAWAL_LIMIT {
        Some(FundlockError::WithdrawalLimitReached)
    } else if account.active + amount > u64::MAX {
        Some(FundlockError::BalanceOverflow)
    } else {
        None
    }
}

/// The account after a request to withdraw `amount` at time `now`: the
/// amount has left the balance for a new entry at the back of the queue. A
/// rejected request leaves the account as it was.
pub open spec fn withdrawn(account: Account, amount: u64, now: i64) -> Account {
    if withdraw_rejection(account, amount) is Some {
        account
    } else {
        Account {
            balance: account.balance - amount,
            queue: account.queue.push(WithdrawalState { amount, timestamp: now }),
            active: account.active + amount,
        }
    }
}

impl WithdrawFundlock {
    /// Moves `amount` from the free balance into a new entry at the back of
    /// the queue, stamped with `now`. A rejected request changes nothing.
    pub fn withdraw_fundlock(&mut self, amount: u64, now: i64) -> (queued: Result<
        (),
        FundlockError,
    >)
        requires
            old(self).withdrawals.wf(),
        ensures
            queued == match withdraw_rejection(
                account_of(old(self).client_balance, old(self).withdrawals),
                amount,
            ) {
                Some(e) => Err::<(), FundlockError>(e),
                None => Ok(()),
            },
            queued is Err ==> *final(self) == *old(self),
            account_of(final(self).client_balance, final(self).withdrawals) == withdrawn(
                account_of(old(self).client_balance, old(self).withdrawals),
                amount,
                now,
            ),
            queued is Ok ==> final(self).client_balance.token == old(self).token,
            queued is Ok ==> final(self).client_balance.client == old(self).client,
            queued is Ok ==> final(self).client_balance.client_ata == old(self).client_ata,
            queued is Ok ==> final(self).withdrawals.client == old(self).client,
            final(self).client_balance.bump == old(self).client_balance.bump,
            final(self).withdrawals.bump == old(self).withdrawals.bump,
            final(self).client == old(self).client,
            final(self).token == old(self).token,
            final(self).client_ata == old(self).client_ata,
            final(self).withdrawals.wf(),
    {
        if amount == 0 {
            return Err(FundlockError::AmountZero);
        }
        if self.client_balance.amount < amount {
            return Err(FundlockError::InsufficientFunds);
        }
        if self.withdrawals.withdrawal_queue.len() >= ALLOWED_WITHDRAWAL_LIMIT {
            return Err(FundlockError::WithdrawalLimitReached);
        }
        if amount > u64::MAX - self.withdrawals.active_withdrawals_amount {
            return Err(FundlockError::BalanceOverflow);
        }
        let withdrawal = WithdrawalState { amount, timestamp: now };
        proof {
            lemma_queue_total_push(self.withdrawals.withdrawal_queue@, withdrawal);
        }
        self.withdrawals.withdrawal_queue.push(withdrawal);
        self.client_balance = ClientBalance {
            amount: self.client_balance.amount - amount,
            token: self.token,
            client: self.client,
            client_ata: self.client_ata,
            bump: self.client_balance.bump,
        };
        self.withdrawals.active_withdrawals_amount = self.withdrawals.active_withdrawals_amount
            + amount;
        self.withdrawals.client = self.client;
        Ok(())
    }
}

} // verus!
