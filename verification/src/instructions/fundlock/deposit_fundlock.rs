//! The deposit of funds into a client balance.

use vstd::prelude::*;
use crate::error::{FundlockError, IthacaError, TokenValidatorError};
use crate::pubkey::Pubkey;
use crate::state::fundlock_state::{account_of, Account, ClientBalance, Withdrawals};
use crate::state::token_validator_state::WhitelistedToken;

verus! {

/// A client's deposit of one token into the vault.
#[derive(Clone, Debug, PartialEq, Eq)]
pub struct DepositFundlock {
    pub client: Pubkey,
    pub token: Pubkey,
    pub client_ata: Pubkey,
    pub whitelisted_token: WhitelistedToken,
    pub client_balance: ClientBalance,
    pub withdrawals: Withdrawals,
}

/// The bumps of the records that a deposit may create.
#[derive(Clone, Copy, Debug, PartialEq, Eq)]
pub struct DepositFundlockBumps {
    pub client_balance: u8,
    pub withdrawals: u8,
}

/// Why a deposit of `amount` of `token` is rejected, if it is. The checks
/// are made in this order: the amount, the whitelist, the room in the balance.
pub open spec fn deposit_rejection(
    whitelisted_mint: Pubkey,
    token: Pubkey,
    account: Account,
    amount: u64,
) -> Option<IthacaError> {
    if amount == 0 {
        Some(IthacaError::Fundlock(FundlockError::AmountZero))
    } else if whitelisted_mint != token {
        Some(IthacaError::TokenValidator(TokenValidatorError::TokenNotWhitelisted))
    } else if account.balance + amount > u64::MAX {
        Some(IthacaError::Fundlock(FundlockError::BalanceOverflow))
    } else {
        None
    }
}

/// The account after a deposit of `amount` of `token`: the amount has joined
/// the free balance, and the queue is as it was. A rejected deposit leaves
/// the account as it was.
pub open spec fn deposited(
    whitelisted_mint: Pubkey,
    token: Pubkey,
    account: Account,
    amount: u64,
) -> Account {
    if deposit_rejection(whitelisted_mint, token, account, amount) is Some {
        account
    } else {
        Account { balance: account.balance + amount, queue: account.queue, active: account.active }
    }
}

impl DepositFundlock {
    /// Adds `amount` to the free balance of the client and marks the balance
    /// and its queue as the client's. The queue's entries are not touched. A
    /// rejected deposit changes nothing.
    pub fn deposit_fundlock(&mut self, amount: u64, bumps: &DepositFundlockBumps) -> (accepted:
        Result<(), IthacaError>)
        ensures
            accepted == match deposit_rejection(
                old(self).whitelisted_token.token_mint,
                old(self).token,
                account_of(old(self).client_balance, old(self).withdrawals),
                amount,
            ) {
                Some(e) => Err::<(), IthacaError>(e),
                None => Ok(()),
            },
            accepted is Err ==> *final(self) == *old(self),
            account_of(final(self).client_balance, final(self).withdrawals) == deposited(
                old(self).whitelisted_token.token_mint,
                old(self).token,
                account_of(old(self).client_balance, old(self).withdrawals),
                amount,
            ),
            accepted is Ok ==> final(self).client_balance.token == old(self).token,
            accepted is Ok ==> final(self).client_balance.client == old(self).client,
            accepted is Ok ==> final(self).client_balance.client_ata == old(self).client_ata,
            accepted is Ok ==> final(self).client_balance.bump == bumps.client_balance,
            accepted is Ok ==> final(self).withdrawals.bump == bumps.withdrawals,
            accepted is Ok ==> final(self).withdrawals.client == old(self).client,
            final(self).withdrawals.withdrawal_queue == old(self).withdrawals.withdrawal_queue,
            final(self).client == old(self).client,
            final(self).token == old(self).token,
            final(self).client_ata == old(self).client_ata,
            final(self).whitelisted_token == old(self).whitelisted_token,
            old(self).withdrawals.wf() ==> final(self).withdrawals.wf(),
    {
        if amount == 0 {
            return Err(IthacaError::Fundlock(FundlockError::AmountZero));
        }
        if !(self.whitelisted_token.token_mint == self.token) {
            return Err(IthacaError::TokenValidator(TokenValidatorError::TokenNotWhitelisted));
        }
        if amount > u64::MAX - self.client_balance.amount {
            return Err(IthacaError::Fundlock(FundlockError::BalanceOverflow));
        }
        self.client_balance = ClientBalance {
            amount: self.client_balance.amount + amount,
            token: self.token,
            client: self.client,
            client_ata: self.client_ata,
            bump: bumps.client_balance,
        };
        self.withdrawals.bump = bumps.withdrawals;
        self.withdrawals.client = self.client;
        Ok(())
    }
}

} // verus!
