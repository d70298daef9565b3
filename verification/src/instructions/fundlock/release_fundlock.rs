//! The release of a pending withdrawal to its client.

use vstd::prelude::*;
use crate::error::FundlockError;
use crate::state::fundlock_state::{
    account_of, lemma_queue_total_bounds_entry, lemma_queue_total_remove, releasable, Account,
    ClientBalance, Fundlock, Withdrawals,
};

verus! {

/// A client's request to have a pending withdrawal paid out of the custody
/// vault, which holds `vault_amount` of the token.
#[derive(Clone, Debug, PartialEq, Eq)]
pub struct ReleaseFundlock {
    pub fundlock: Fundlock,
    pub vault_amount: u64,
    pub client_balance: ClientBalance,
    pub withdrawals: Withdrawals,
}

/// Why the release of the entry at `index` is rejected, if it is. The checks
/// are made in this order: the index, the release lock, the vault.
pub open spec fn release_rejection(
    account: Account,
    index: u64,
    release_lock: i64,
    now: i64,
    vault_amount: u64,
) -> Option<FundlockError> {
    if index >= account.queue.len() {
        Some(FundlockError::InvalidIndex)
    } else if !releasable(account.queue[index as int], release_lock, now) {
        Some(FundlockError::ReleaseLockActive)
    } else if vault_amount < account.queue[index as int].amount {
        Some(FundlockError::InsufficientFundsInVault)
    } else {
        None
    }
}

/// The account after the release of the entry at `index`: the entry has left
/// the queue, the entries behind it have moved up by one place in their
/// order, and the free balance is as it was. A rejected release leaves the
/// account as it was.
pub open spec fn released(
    account: Account,
    index: u64,
    release_lock: i64,
    now: i64,
    vault_amount: u64,
) -> Account {
    if release_rejection(account, index, release_lock, now, vault_amount) is Some {
        account
    } else {
        Account {
            balance: account.balance,
            queue: account.queue.remove(index as int),
            active: account.active - account.queue[index as int].amount,
        }
    }
}

impl ReleaseFundlock {
    /// Takes the entry at `index` out of the queue and returns the amount to
    /// pay out to the client. The entries behind it move up by one place and
    /// keep their order. A rejected request changes nothing.
    pub fn release_fundlock(&mut self, index: u64, now: i64) -> (paid: Result<u64, FundlockError>)
        requires
            old(self).withdrawals.wf(),
        ensures
            paid == match release_rejection(
                account_of(old(self).client_balance, old(self).withdrawals),
                index,
                old(self).fundlock.release_lock,
                now,
                old(self).vault_amount,
            ) {
                Some(e) => Err::<u64, FundlockError>(e),
                None => Ok(old(self).withdrawals.withdrawal_queue@[index as int].amount),
            },
            paid is Err ==> *final(self) == *old(self),
            account_of(final(self).client_balance, final(self).withdrawals) == released(
                account_of(old(self).client_balance, old(self).withdrawals),
                index,
                old(self).fundlock.release_lock,
                now,
                old(self).vault_amount,
            ),
            final(self).client_balance == old(self).client_balance,
            final(self).withdrawals.client == old(self).withdrawals.client,
            final(self).withdrawals.bump == old(self).withdrawals.bump,
            final(self).fundlock == old(self).fundlock,
            final(self).vault_amount == old(self).vault_amount,
            final(self).withdrawals.wf(),
    {
        let pending = self.withdrawals.withdrawal_queue.len();
        if index >= pending as u64 {
            return Err(FundlockError::InvalidIndex);
        }
        let place = index as usize;
        let entry = self.withdrawals.withdrawal_queue[place];
        if !entry.is_releasable(self.fundlock.release_lock, now) {
            return Err(FundlockError::ReleaseLockActive);
        }
        if self.vault_amount < entry.amount {
            return Err(FundlockError::InsufficientFundsInVault);
        }
        let amount_released = entry.amount;
        proof {
            lemma_queue_total_remove(self.withdrawals.withdrawal_queue@, place as int);
            lemma_queue_total_bounds_entry(self.withdrawals.withdrawal_queue@, place as int);
        }
        self.withdrawals.withdrawal_queue.remove(place);
        self.withdrawals.active_withdrawals_amount = self.withdrawals.active_withdrawals_amount
            - amount_released;
        Ok(amount_released)
    }
}

} // verus!
