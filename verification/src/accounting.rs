//! What holds of an account whatever is done to it, and of the operations
//! taken together.

use vstd::prelude::*;
use crate::constants::ALLOWED_WITHDRAWAL_LIMIT;
use crate::error::{FundlockError, IthacaError};
use crate::instructions::fundlock::deposit_fundlock::{deposit_rejection, deposited};
use crate::instructions::fundlock::release_fundlock::{release_rejection, released};
use crate::instructions::fundlock::update_balances_fundlock::{
    batch_rejection, batch_well_sized, first_rejection, leg_rejection, settled,
    settlement_rejection, shortfall,
};
use crate::instructions::fundlock::withdraw_fundlock::{withdraw_rejection, withdrawn};
use crate::instructions::ledger::update_fund_movements::{
    batch_legs, leg_amounts, leg_clients, leg_tokens, moves_nothing, movements_rejection,
};
use crate::pubkey::Pubkey;
use crate::state::fundlock_state::{
    drained, lemma_drained_total, lemma_queue_total_bounds_entry, lemma_queue_total_push,
    lemma_queue_total_remove, recallable, recallable_total, Account, ClientBalance, Fundlock,
    WithdrawalState, Withdrawals,
};
use crate::state::ledger_state::{FundMovementParam, Ledger};

verus! {

/// One operation on an account.
pub enum Operation {
    /// A deposit of `amount` of a token whose whitelisted mint is
    /// `whitelisted_mint`.
    Deposit { whitelisted_mint: Pubkey, token: Pubkey, amount: u64 },
    /// A request at time `now` to withdraw `amount`.
    Withdraw { amount: u64, now: i64 },
    /// The release at time `now` of the entry at `index`, out of a vault
    /// holding `vault_amount`.
    Release { index: u64, now: i64, vault_amount: u64 },
    /// The settlement at time `now` of a change of `delta`.
    Settle { delta: int, now: i64 },
}

/// The account after one operation under the locks of its vault.
pub open spec fn step(locks: Fundlock, account: Account, operation: Operation) -> Account {
    match operation {
        Operation::Deposit { whitelisted_mint, token, amount } => deposited(
            whitelisted_mint,
            token,
            account,
            amount,
        ),
        Operation::Withdraw { amount, now } => withdrawn(account, amount, now),
        Operation::Release { index, now, vault_amount } => released(
            account,
            index,
            locks.release_lock,
            now,
            vault_amount,
        ),
        Operation::Settle { delta, now } => settled(account, delta, locks.trade_lock, now),
    }
}

/// The account after a sequence of operations, made one after the other.
pub open spec fn run(locks: Fundlock, account: Account, operations: Seq<Operation>) -> Account
    decreases operations.len(),
{
    if operations.len() == 0 {
        account
    } else {
        step(locks, run(locks, account, operations.drop_last()), operations.last())
    }
}

/// One operation keeps the invariant of an account, whether it is accepted
/// or rejected.
pub proof fn lemma_step_keeps_account_sound(locks: Fundlock, account: Account, operation: Operation)
    requires
        account.wf(),
    ensures
        step(locks, account, operation).wf(),
{
    match operation {
        Operation::Deposit { whitelisted_mint, token, amount } => {},
        Operation::Withdraw { amount, now } => {
            lemma_queue_total_push(account.queue, WithdrawalState { amount, timestamp: now });
        },
        Operation::Release { index, now, vault_amount } => {
            if release_rejection(account, index, locks.release_lock, now, vault_amount) is None {
                lemma_queue_total_remove(account.queue, index as int);
                lemma_queue_total_bounds_entry(account.queue, index as int);
            }
        },
        Operation::Settle { delta, now } => {
            if settlement_rejection(account, delta, locks.trade_lock, now) is None {
                lemma_drained_total(
                    account.queue,
                    shortfall(account.balance, delta),
                    locks.trade_lock,
                    now,
                );
            }
        },
    }
}

/// Whatever deposits, withdrawals, releases and settlements are made on an
/// account, in whatever order and whether accepted or rejected, its balance
/// never goes below zero, its queue never holds more entries than the limit,
/// and its recorded total stays the sum of the amounts of its entries.
pub proof fn lemma_operations_keep_account_sound(
    locks: Fundlock,
    account: Account,
    operations: Seq<Operation>,
)
    requires
        account.wf(),
    ensures
        run(locks, account, operations).wf(),
        0 <= run(locks, account, operations).balance,
        run(locks, account, operations).queue.len() <= ALLOWED_WITHDRAWAL_LIMIT,
    decreases operations.len(),
{
    if operations.len() > 0 {
        lemma_operations_keep_account_sound(locks, account, operations.drop_last());
        lemma_step_keeps_account_sound(
            locks,
            run(locks, account, operations.drop_last()),
            operations.last(),
        );
    }
}

/// What an account holds for its client: the free balance together with
/// what is pending in the queue.
pub open spec fn holdings(account: Account) -> int {
    account.balance + account.active
}

/// What an operation brings into an account from outside, or, where
/// negative, takes out of it: the amount of a deposit, the change of a
/// settlement, the amount of a release taken off. A request to withdraw
/// brings nothing in and takes nothing out, nor does a rejected operation.
pub open spec fn inflow(locks: Fundlock, account: Account, operation: Operation) -> int {
    match operation {
        Operation::Deposit { whitelisted_mint, token, amount } => if deposit_rejection(
            whitelisted_mint,
            token,
            account,
            amount,
        ) is None {
            amount as int
        } else {
            0
        },
        Operation::Withdraw { amount, now } => 0,
        Operation::Release { index, now, vault_amount } => if release_rejection(
            account,
            index,
            locks.release_lock,
            now,
            vault_amount,
        ) is None {
            -(account.queue[index as int].amount as int)
        } else {
            0
        },
        Operation::Settle { delta, now } => if settlement_rejection(
            account,
            delta,
            locks.trade_lock,
            now,
        ) is None {
            delta
        } else {
            0
        },
    }
}

/// No operation makes or loses funds: what an account holds after an
/// operation is what it held before and what the operation brought in. What
/// a settlement recalls from the queue is what the balance could not bear,
/// no more and no less, and what a request to withdraw puts into the queue
/// is what it takes from the balance.
pub proof fn lemma_step_conserves_holdings(locks: Fundlock, account: Account, operation: Operation)
    requires
        account.wf(),
    ensures
        holdings(step(locks, account, operation)) == holdings(account) + inflow(
            locks,
            account,
            operation,
        ),
{
}

/// A request to withdraw from an account whose queue is full is rejected:
/// for the queue's limit, where the amount is positive and the balance
/// covers it.
pub proof fn lemma_full_queue_rejects_withdrawal(account: Account, amount: u64, now: i64)
    requires
        account.wf(),
        account.queue.len() == ALLOWED_WITHDRAWAL_LIMIT,
    ensures
        withdraw_rejection(account, amount) is Some,
        withdrawn(account, amount, now) == account,
        0 < amount <= account.balance ==> withdraw_rejection(account, amount) == Some(
            FundlockError::WithdrawalLimitReached,
        ),
{
}

/// An entry queued at time `queued_at` cannot be released until the release
/// lock has passed: a release at or before `queued_at + release_lock` is
/// rejected for the lock, and a later one is accepted where the vault holds
/// the amount.
pub proof fn lemma_release_lock_gates_release(
    account: Account,
    amount: u64,
    queued_at: i64,
    release_lock: i64,
    now: i64,
    vault_amount: u64,
)
    requires
        account.wf(),
        withdraw_rejection(account, amount) is None,
    ensures
        ({
            let after = withdrawn(account, amount, queued_at);
            let index = account.queue.len() as u64;
            &&& after.queue[index as int] == (WithdrawalState { amount, timestamp: queued_at })
            &&& now <= queued_at + release_lock ==> release_rejection(
                after,
                index,
                release_lock,
                now,
                vault_amount,
            ) == Some(FundlockError::ReleaseLockActive)
            &&& now > queued_at + release_lock && vault_amount >= amount ==> release_rejection(
                after,
                index,
                release_lock,
                now,
                vault_amount,
            ) is None
        }),
{
}

/// Recalling an amount that can be recalled leaves exactly that much less
/// to recall.
pub proof fn lemma_drained_recallable_total(
    queue: Seq<WithdrawalState>,
    amount: nat,
    trade_lock: i64,
    now: i64,
)
    requires
        amount <= recallable_total(queue, trade_lock, now),
    ensures
        recallable_total(drained(queue, amount, trade_lock, now), trade_lock, now)
            == recallable_total(queue, trade_lock, now) - amount,
    decreases queue.len(),
{
    if queue.len() == 0 || amount == 0 {
    } else if !recallable(queue[0], trade_lock, now) {
        let rest = drained(queue.skip(1), amount, trade_lock, now);
        lemma_drained_recallable_total(queue.skip(1), amount, trade_lock, now);
        assert((seq![queue[0]] + rest).skip(1) =~= rest);
    } else if queue[0].amount <= amount {
        lemma_drained_recallable_total(
            queue.skip(1),
            (amount - queue[0].amount) as nat,
            trade_lock,
            now,
        );
    } else {
        let reduced = WithdrawalState {
            amount: (queue[0].amount - amount) as u64,
            timestamp: queue[0].timestamp,
        };
        assert((seq![reduced] + queue.skip(1)).skip(1) =~= queue.skip(1));
    }
}

/// Recalls are made in the order of the queue, so they compose: to recall
/// one amount and then another leaves the queue that recalling their sum at
/// once leaves.
pub proof fn lemma_recalls_compose(
    queue: Seq<WithdrawalState>,
    first: nat,
    second: nat,
    trade_lock: i64,
    now: i64,
)
    requires
        first + second <= recallable_total(queue, trade_lock, now),
    ensures
        drained(drained(queue, first, trade_lock, now), second, trade_lock, now) == drained(
            queue,
            first + second,
            trade_lock,
            now,
        ),
    decreases queue.len(),
{
    if queue.len() == 0 || first == 0 || second == 0 {
    } else if !recallable(queue[0], trade_lock, now) {
        let rest = drained(queue.skip(1), first, trade_lock, now);
        lemma_recalls_compose(queue.skip(1), first, second, trade_lock, now);
        assert((seq![queue[0]] + rest).skip(1) =~= rest);
    } else if queue[0].amount <= first {
        lemma_recalls_compose(
            queue.skip(1),
            (first - queue[0].amount) as nat,
            second,
            trade_lock,
            now,
        );
    } else {
        let reduced = WithdrawalState {
            amount: (queue[0].amount - first) as u64,
            timestamp: queue[0].timestamp,
        };
        assert((seq![reduced] + queue.skip(1)).skip(1) =~= queue.skip(1));
    }
}

/// A batch of legs with a leg that is rejected is rejected; where every leg
/// before that one, from `from` on, can be settled, it is rejected as that
/// leg is.
pub proof fn lemma_rejected_leg_rejects_batch(
    amounts: Seq<i128>,
    clients: Seq<Pubkey>,
    tokens: Seq<Pubkey>,
    balances: Seq<ClientBalance>,
    withdrawals: Seq<Withdrawals>,
    trade_lock: i64,
    now: i64,
    from: int,
    k: int,
)
    requires
        0 <= from <= k < balances.len(),
        leg_rejection(
            balances[k],
            withdrawals[k],
            clients[k],
            tokens[k],
            amounts[k] as int,
            trade_lock,
            now,
        ) is Some,
    ensures
        first_rejection(amounts, clients, tokens, balances, withdrawals, trade_lock, now, from)
            is Some,
        (forall|j: int|
            from <= j < k ==> (#[trigger] leg_rejection(
                balances[j],
                withdrawals[j],
                clients[j],
                tokens[j],
                amounts[j] as int,
                trade_lock,
                now,
            )) is None) ==> first_rejection(
            amounts,
            clients,
            tokens,
            balances,
            withdrawals,
            trade_lock,
            now,
            from,
        ) == leg_rejection(
            balances[k],
            withdrawals[k],
            clients[k],
            tokens[k],
            amounts[k] as int,
            trade_lock,
            now,
        ),
    decreases k - from,
{
    if from < k {
        lemma_rejected_leg_rejects_batch(
            amounts,
            clients,
            tokens,
            balances,
            withdrawals,
            trade_lock,
            now,
            from + 1,
            k,
        );
    }
}

/// A batch of fund movements in which the balance record supplied for a leg
/// is not the record of the client that the movement declares is rejected,
/// so that no record is changed. Where the batch is sound in its size and
/// its movements, and every leg before that one can be settled, it is
/// rejected for the order of its accounts.
pub proof fn lemma_account_order_enforced(
    ledger: Ledger,
    trade_lock: i64,
    movements: Seq<FundMovementParam>,
    balances: Seq<ClientBalance>,
    withdrawals: Seq<Withdrawals>,
    now: i64,
    k: int,
)
    requires
        0 <= k < batch_legs(ledger, movements).len(),
        k < balances.len(),
        balances[k].client != batch_legs(ledger, movements)[k].client,
    ensures
        movements_rejection(ledger, trade_lock, movements, balances, withdrawals, now) is Some,
        ({
            let legs = batch_legs(ledger, movements);
            &&& movements.len() > 0
            &&& forall|i: int| 0 <= i < movements.len() ==> !moves_nothing(#[trigger] movements[i])
            &&& balances.len() == legs.len()
            &&& withdrawals.len() == legs.len()
            &&& forall|j: int|
                0 <= j < k ==> (#[trigger] leg_rejection(
                    balances[j],
                    withdrawals[j],
                    legs[j].client,
                    legs[j].token,
                    legs[j].amount as int,
                    trade_lock,
                    now,
                )) is None
        }) ==> movements_rejection(ledger, trade_lock, movements, balances, withdrawals, now)
            == Some(IthacaError::Fundlock(FundlockError::AccountOrderViolated)),
{
    let legs = batch_legs(ledger, movements);
    let amounts = leg_amounts(legs);
    let clients = leg_clients(legs);
    let tokens = leg_tokens(legs);
    if batch_well_sized(
        amounts.len() as int,
        clients.len() as int,
        tokens.len() as int,
        balances.len() as int,
        withdrawals.len() as int,
    ) {
        lemma_rejected_leg_rejects_batch(
            amounts,
            clients,
            tokens,
            balances,
            withdrawals,
            trade_lock,
            now,
            0,
            k,
        );
        if forall|j: int|
            0 <= j < k ==> (#[trigger] leg_rejection(
                balances[j],
                withdrawals[j],
                legs[j].client,
                legs[j].token,
                legs[j].amount as int,
                trade_lock,
                now,
            )) is None {
            assert forall|j: int| 0 <= j < k implies (#[trigger] leg_rejection(
                balances[j],
                withdrawals[j],
                clients[j],
                tokens[j],
                amounts[j] as int,
                trade_lock,
                now,
            )) is None by {
            }
        }
    }
}

} // verus!
