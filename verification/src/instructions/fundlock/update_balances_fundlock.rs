//! Settlement of signed balance changes against client balances, drawing on
//! pending withdrawals where a balance falls short.

use vstd::prelude::*;
use crate::error::FundlockError;
use crate::pubkey::Pubkey;
use crate::state::fundlock_state::{
    account_of, drained, lemma_recallable_total_le_queue_total, recallable_total, Account,
    ClientBalance, Fundlock, Withdrawals,
};

verus! {

/// What a debit leaves uncovered: the part of a change of `delta` that a
/// balance cannot bear, which has to be recalled from the pending
/// withdrawals. Nothing, for a credit or a debit that the balance covers.
pub open spec fn shortfall(balance: int, delta: int) -> nat {
    if balance + delta < 0 {
        (-(balance + delta)) as nat
    } else {
        0
    }
}

/// Why a change of `delta` to an account is rejected, if it is. A credit
/// must leave the balance within what a record can hold; what a debit leaves
/// uncovered must not exceed what can be recalled from the pending
/// withdrawals still inside the trade lock.
pub open spec fn settlement_rejection(
    account: Account,
    delta: int,
    trade_lock: i64,
    now: i64,
) -> Option<FundlockError> {
    if account.balance + delta > u64::MAX {
        Some(FundlockError::BalanceOverflow)
    } else if shortfall(account.balance, delta) > recallable_total(account.queue, trade_lock, now) {
        Some(FundlockError::InsufficientFunds)
    } else {
        None
    }
}

/// The account after a change of `delta` has been settled on it. A credit
/// joins the balance. A debit that the balance covers is taken from it.
/// Otherwise the balance goes to zero and the rest is recalled from the
/// queue, oldest recallable entry first. A rejected change leaves the
/// account as it was.
pub open spec fn settled(account: Account, delta: int, trade_lock: i64, now: i64) -> Account {
    if settlement_rejection(account, delta, trade_lock, now) is Some {
        account
    } else {
        Account {
            balance: if account.balance + delta < 0 {
                0
            } else {
                account.balance + delta
            },
            queue: drained(account.queue, shortfall(account.balance, delta), trade_lock, now),
            active: account.active - shortfall(account.balance, delta),
        }
    }
}

/// Whether the records supplied for a leg are those of its client and token.
pub open spec fn leg_in_order(
    balance: ClientBalance,
    withdrawals: Withdrawals,
    client: Pubkey,
    token: Pubkey,
) -> bool {
    balance.token == token && balance.client == client && withdrawals.client == client
}

/// Why a leg is rejected, if it is: for records that are not those of its
/// client and token, or else for what the settlement of its change rejects.
pub open spec fn leg_rejection(
    balance: ClientBalance,
    withdrawals: Withdrawals,
    client: Pubkey,
    token: Pubkey,
    delta: int,
    trade_lock: i64,
    now: i64,
) -> Option<FundlockError> {
    if !leg_in_order(balance, withdrawals, client, token) {
        Some(FundlockError::AccountOrderViolated)
    } else {
        settlement_rejection(account_of(balance, withdrawals), delta, trade_lock, now)
    }
}

/// Whether `after` is `before` with a change of `delta` settled on it, and
/// nothing else changed.
pub open spec fn leg_applied(
    before: (ClientBalance, Withdrawals),
    after: (ClientBalance, Withdrawals),
    delta: int,
    trade_lock: i64,
    now: i64,
) -> bool {
    &&& account_of(after.0, after.1) == settled(
        account_of(before.0, before.1),
        delta,
        trade_lock,
        now,
    )
    &&& after.0.token == before.0.token
    &&& after.0.client == before.0.client
    &&& after.0.client_ata == before.0.client_ata
    &&& after.0.bump == before.0.bump
    &&& after.1.client == before.1.client
    &&& after.1.bump == before.1.bump
    &&& after.1.wf()
}

/// Says whether a leg can be settled, without changing a record.
pub fn check_leg(
    balance: &ClientBalance,
    withdrawals: &Withdrawals,
    client: &Pubkey,
    token: &Pubkey,
    delta: i128,
    trade_lock: i64,
    now: i64,
) -> (checked: Result<(), FundlockError>)
    requires
        withdrawals.wf(),
    ensures
        checked == match leg_rejection(
            *balance,
            *withdrawals,
            *client,
            *token,
            delta as int,
            trade_lock,
            now,
        ) {
            Some(e) => Err::<(), FundlockError>(e),
            None => Ok(()),
        },
{
    if !(balance.token == *token && balance.client == *client && withdrawals.client == *client) {
        return Err(FundlockError::AccountOrderViolated);
    }
    if delta >= 0 {
        if delta > (u64::MAX - balance.amount) as i128 {
            return Err(FundlockError::BalanceOverflow);
        }
        return Ok(());
    }
    let rest: i128 = balance.amount as i128 + delta;
    if rest >= 0 {
        return Ok(());
    }
    let available = withdrawals.recallable_amount(trade_lock, now);
    if rest < -(available as i128) {
        return Err(FundlockError::InsufficientFunds);
    }
    Ok(())
}

/// Applies a change of `delta` that is not rejected to a balance and its
/// queue.
fn apply_leg(
    balance: &mut ClientBalance,
    withdrawals: &mut Withdrawals,
    delta: i128,
    trade_lock: i64,
    now: i64,
)
    requires
        old(withdrawals).wf(),
        settlement_rejection(
            account_of(*old(balance), *old(withdrawals)),
            delta as int,
            trade_lock,
            now,
        ) is None,
    ensures
        leg_applied(
            (*old(balance), *old(withdrawals)),
            (*final(balance), *final(withdrawals)),
            delta as int,
            trade_lock,
            now,
        ),
{
    let rest: i128 = balance.amount as i128 + delta;
    if rest >= 0 {
        balance.amount = rest as u64;
    } else {
        proof {
            lemma_recallable_total_le_queue_total(withdrawals.withdrawal_queue@, trade_lock, now);
        }
        let shortage: u64 = (-rest) as u64;
        withdrawals.fund_from_withdrawal(shortage, trade_lock, now);
        balance.amount = 0;
    }
}

/// Settles one leg: changes the balance by `delta`, recalling pending
/// withdrawals where the balance falls short. A leg that is rejected changes
/// nothing.
pub fn settle_leg(
    balance: &mut ClientBalance,
    withdrawals: &mut Withdrawals,
    client: &Pubkey,
    token: &Pubkey,
    delta: i128,
    trade_lock: i64,
    now: i64,
) -> (settled: Result<(), FundlockError>)
    requires
        old(withdrawals).wf(),
    ensures
        settled == match leg_rejection(
            *old(balance),
            *old(withdrawals),
            *client,
            *token,
            delta as int,
            trade_lock,
            now,
        ) {
            Some(e) => Err::<(), FundlockError>(e),
            None => Ok(()),
        },
        settled is Err ==> *final(balance) == *old(balance),
        settled is Err ==> *final(withdrawals) == *old(withdrawals),
        settled is Ok ==> leg_applied(
            (*old(balance), *old(withdrawals)),
            (*final(balance), *final(withdrawals)),
            delta as int,
            trade_lock,
            now,
        ),
{
    match check_leg(balance, withdrawals, client, token, delta, trade_lock, now) {
        Err(e) => Err(e),
        Ok(()) => {
            apply_leg(balance, withdrawals, delta, trade_lock, now);
            Ok(())
        },
    }
}

/// Whether a batch supplies one balance, one queue, one client and one token
/// for each of its amounts, and at least one of each.
pub open spec fn batch_well_sized(
    amounts: int,
    clients: int,
    tokens: int,
    balances: int,
    withdrawals: int,
) -> bool {
    balances > 0 && balances == amounts && balances == clients && balances == tokens && balances
        == withdrawals
}

/// The rejection of the first leg, at or behind `from`, that cannot be
/// settled; none if every such leg can.
pub open spec fn first_rejection(
    amounts: Seq<i128>,
    clients: Seq<Pubkey>,
    tokens: Seq<Pubkey>,
    balances: Seq<ClientBalance>,
    withdrawals: Seq<Withdrawals>,
    trade_lock: i64,
    now: i64,
    from: int,
) -> Option<FundlockError>
    decreases balances.len() - from,
{
    if from < 0 || from >= balances.len() {
        None
    } else {
        match leg_rejection(
            balances[from],
            withdrawals[from],
            clients[from],
            tokens[from],
            amounts[from] as int,
            trade_lock,
            now,
        ) {
            Some(e) => Some(e),
            None => first_rejection(
                amounts,
                clients,
                tokens,
                balances,
                withdrawals,
                trade_lock,
                now,
                from + 1,
            ),
        }
    }
}

/// Why a batch is rejected, if it is: for its size, or else for its first leg
/// that cannot be settled.
pub open spec fn batch_rejection(
    amounts: Seq<i128>,
    clients: Seq<Pubkey>,
    tokens: Seq<Pubkey>,
    balances: Seq<ClientBalance>,
    withdrawals: Seq<Withdrawals>,
    trade_lock: i64,
    now: i64,
) -> Option<FundlockError> {
    if !batch_well_sized(
        amounts.len() as int,
        clients.len() as int,
        tokens.len() as int,
        balances.len() as int,
        withdrawals.len() as int,
    ) {
        Some(FundlockError::InvalidAccountsAmount)
    } else {
        first_rejection(amounts, clients, tokens, balances, withdrawals, trade_lock, now, 0)
    }
}

/// Whether every queue of a list satisfies the invariant of a queue.
pub open spec fn all_wf(withdrawals: Seq<Withdrawals>) -> bool {
    forall|i: int| 0 <= i < withdrawals.len() ==> (#[trigger] withdrawals[i]).wf()
}

/// The settlement of balance changes against a vault.
#[derive(Clone, Copy, Debug, PartialEq, Eq)]
pub struct UpdateBalancesFundlock {
    pub fundlock: Fundlock,
}

impl UpdateBalancesFundlock {
    /// Settles a batch of balance changes, one leg after the other. Leg `i`
    /// changes balance `i` of client `i` in token `i` by amount `i`, and
    /// draws on queue `i` where the balance falls short.
    ///
    /// The batch is settled as a whole or not at all: every leg is checked
    /// before the first record is changed, and a rejected batch leaves all
    /// records as they were. The rejection is that of the first leg that
    /// cannot be settled.
    pub fn update_balances_fundlock(
        &self,
        amounts: &Vec<i128>,
        clients: &Vec<Pubkey>,
        tokens: &Vec<Pubkey>,
        client_balances: &mut Vec<ClientBalance>,
        withdrawals: &mut Vec<Withdrawals>,
        now: i64,
    ) -> (settled: Result<(), FundlockError>)
        requires
            all_wf(old(withdrawals)@),
        ensures
            settled == match batch_rejection(
                amounts@,
                clients@,
                tokens@,
                old(client_balances)@,
                old(withdrawals)@,
                self.fundlock.trade_lock,
                now,
            ) {
                Some(e) => Err::<(), FundlockError>(e),
                None => Ok(()),
            },
            settled is Err ==> final(client_balances)@ == old(client_balances)@,
            settled is Err ==> final(withdrawals)@ == old(withdrawals)@,
            settled is Ok ==> final(client_balances)@.len() == amounts@.len(),
            settled is Ok ==> final(withdrawals)@.len() == amounts@.len(),
            settled is Ok ==> forall|i: int|
                #![trigger final(client_balances)@[i]]
                #![trigger final(withdrawals)@[i]]
                0 <= i < amounts@.len() ==> leg_applied(
                    (old(client_balances)@[i], old(withdrawals)@[i]),
                    (final(client_balances)@[i], final(withdrawals)@[i]),
                    amounts@[i] as int,
                    self.fundlock.trade_lock,
                    now,
                ),
            all_wf(final(withdrawals)@),
    {
        let count = client_balances.len();
        if !(count > 0 && count == amounts.len() && count == clients.len() && count == tokens.len()
            && count == withdrawals.len()) {
            return Err(FundlockError::InvalidAccountsAmount);
        }
        let trade_lock = self.fundlock.trade_lock;
        let mut index: usize = 0;
        while index < count
            invariant
                index <= count,
                trade_lock == self.fundlock.trade_lock,
                count == client_balances@.len(),
                count == amounts@.len(),
                count == clients@.len(),
                count == tokens@.len(),
                count == withdrawals@.len(),
                client_balances@ == old(client_balances)@,
                withdrawals@ == old(withdrawals)@,
                all_wf(withdrawals@),
                first_rejection(
                    amounts@,
                    clients@,
                    tokens@,
                    client_balances@,
                    withdrawals@,
                    trade_lock,
                    now,
                    0,
                ) == first_rejection(
                    amounts@,
                    clients@,
                    tokens@,
                    client_balances@,
                    withdrawals@,
                    trade_lock,
                    now,
                    index as int,
                ),
                forall|j: int|
                    0 <= j < index ==> (#[trigger] leg_rejection(
                        client_balances@[j],
                        withdrawals@[j],
                        clients@[j],
                        tokens@[j],
                        amounts@[j] as int,
                        trade_lock,
                        now,
                    )) is None,
            decreases count - index,
        {
            match check_leg(
                &client_balances[index],
                &withdrawals[index],
                &clients[index],
                &tokens[index],
                amounts[index],
                trade_lock,
                now,
            ) {
                Err(e) => {
                    return Err(e);
                },
                Ok(()) => {},
            }
            index += 1;
        }
        let mut index: usize = 0;
        while index < count
            invariant
                index <= count,
                trade_lock == self.fundlock.trade_lock,
                count == client_balances@.len(),
                count == amounts@.len(),
                count == clients@.len(),
                count == tokens@.len(),
                count == withdrawals@.len(),
                count == old(client_balances)@.len(),
                count == old(withdrawals)@.len(),
                all_wf(withdrawals@),
                forall|j: int|
                    0 <= j < count ==> (#[trigger] leg_rejection(
                        old(client_balances)@[j],
                        old(withdrawals)@[j],
                        clients@[j],
                        tokens@[j],
                        amounts@[j] as int,
                        trade_lock,
                        now,
                    )) is None,
                forall|j: int|
                    #![trigger client_balances@[j]]
                    #![trigger withdrawals@[j]]
                    0 <= j < index ==> leg_applied(
                        (old(client_balances)@[j], old(withdrawals)@[j]),
                        (client_balances@[j], withdrawals@[j]),
                        amounts@[j] as int,
                        trade_lock,
                        now,
                    ),
                forall|j: int|
                    #![trigger client_balances@[j]]
                    #![trigger withdrawals@[j]]
                    index <= j < count ==> client_balances@[j] == old(client_balances)@[j]
                        && withdrawals@[j] == old(withdrawals)@[j],
            decreases count - index,
        {
            assert(leg_rejection(
                client_balances@[index as int],
                withdrawals@[index as int],
                clients@[index as int],
                tokens@[index as int],
                amounts@[index as int] as int,
                trade_lock,
                now,
            ) is None);
            apply_leg(
                &mut client_balances[index],
                &mut withdrawals[index],
                amounts[index],
                trade_lock,
                now,
            );
            index += 1;
        }
        Ok(())
    }

    /// Recalls `amount` from a queue of pending withdrawals of this vault.
    pub fn fund_from_withdrawal(&self, amount: u64, withdrawals: &mut Withdrawals, now: i64) -> (funded:
        bool)
        requires
            old(withdrawals).wf(),
        ensures
            funded == (amount <= recallable_total(
                old(withdrawals).withdrawal_queue@,
                self.fundlock.trade_lock,
                now,
            )),
            funded ==> final(withdrawals).withdrawal_queue@ == drained(
                old(withdrawals).withdrawal_queue@,
                amount as nat,
                self.fundlock.trade_lock,
                now,
            ),
            funded ==> final(withdrawals).active_withdrawals_amount == old(
                withdrawals,
            ).active_withdrawals_amount - amount,
            !funded ==> *final(withdrawals) == *old(withdrawals),
            final(withdrawals).client == old(withdrawals).client,
            final(withdrawals).bump == old(withdrawals).bump,
            final(withdrawals).wf(),
    {
        withdrawals.fund_from_withdrawal(amount, self.fundlock.trade_lock, now)
    }
}

} // verus!
