//! The records of the custody vault: its configuration, the client balances and
//! the queues of pending withdrawals.

use vstd::prelude::*;
use crate::constants::ALLOWED_WITHDRAWAL_LIMIT;
use crate::pubkey::Pubkey;

verus! {

/// Configuration of one vault: how long a pending withdrawal can be recalled
/// into the trading balance, and how long it must wait before it is paid out.
/// Both durations are in seconds.
#[derive(Clone, Copy, Debug, PartialEq, Eq)]
pub struct Fundlock {
    pub access_controller: Pubkey,
    pub token_validator: Pubkey,
    pub trade_lock: i64,
    pub release_lock: i64,
    pub bump: u8,
}

/// The free balance of one client in one token, in the token's smallest unit.
#[derive(Clone, Copy, Debug, PartialEq, Eq)]
pub struct ClientBalance {
    pub amount: u64,
    pub token: Pubkey,
    pub client: Pubkey,
    pub client_ata: Pubkey,
    pub bump: u8,
}

/// One pending withdrawal: its amount and the time at which its locks started.
#[derive(Clone, Copy, Debug, PartialEq, Eq, Structural)]
pub struct WithdrawalState {
    pub amount: u64,
    pub timestamp: i64,
}

/// The pending withdrawals of one client balance, oldest first, with the sum
/// of their amounts.
#[derive(Clone, Debug, PartialEq, Eq)]
pub struct Withdrawals {
    pub withdrawal_queue: Vec<WithdrawalState>,
    pub active_withdrawals_amount: u64,
    pub client: Pubkey,
    pub bump: u8,
}

/// The sum of the amounts of the entries of a queue.
pub open spec fn queue_total(queue: Seq<WithdrawalState>) -> nat
    decreases queue.len(),
{
    if queue.len() == 0 {
        0
    } else {
        queue[0].amount as nat + queue_total(queue.skip(1))
    }
}

/// Whether an entry is still inside its trade lock at time `now`, so that its
/// funds can be recalled into the trading balance.
pub open spec fn recallable(entry: WithdrawalState, trade_lock: i64, now: i64) -> bool {
    entry.timestamp + trade_lock > now
}

/// Whether an entry has left its release lock at time `now`, so that it can be
/// paid out. The entry is still locked at exactly `timestamp + release_lock`.
pub open spec fn releasable(entry: WithdrawalState, release_lock: i64, now: i64) -> bool {
    entry.timestamp + release_lock < now
}

/// The sum of the amounts of the entries that can be recalled at time `now`.
pub open spec fn recallable_total(queue: Seq<WithdrawalState>, trade_lock: i64, now: i64) -> nat
    decreases queue.len(),
{
    if queue.len() == 0 {
        0
    } else if recallable(queue[0], trade_lock, now) {
        queue[0].amount as nat + recallable_total(queue.skip(1), trade_lock, now)
    } else {
        recallable_total(queue.skip(1), trade_lock, now)
    }
}

/// The queue after `amount` has been recalled from it, oldest entry first.
///
/// Entries outside their trade lock are passed over. A recallable entry no
/// larger than what is still needed is removed; a larger one keeps the
/// difference and its timestamp, and ends the pass. Entries behind the point
/// at which the amount is reached are untouched.
pub open spec fn drained(
    queue: Seq<WithdrawalState>,
    amount: nat,
    trade_lock: i64,
    now: i64,
) -> Seq<WithdrawalState>
    decreases queue.len(),
{
    if queue.len() == 0 || amount == 0 {
        queue
    } else if !recallable(queue[0], trade_lock, now) {
        seq![queue[0]] + drained(queue.skip(1), amount, trade_lock, now)
    } else if queue[0].amount <= amount {
        drained(queue.skip(1), (amount - queue[0].amount) as nat, trade_lock, now)
    } else {
        seq![
            WithdrawalState {
                amount: (queue[0].amount - amount) as u64,
                timestamp: queue[0].timestamp,
            },
        ] + queue.skip(1)
    }
}

/// The accounting state of one client balance: the free balance, the pending
/// withdrawals, oldest first, and the recorded total of their amounts.
pub struct Account {
    pub balance: int,
    pub queue: Seq<WithdrawalState>,
    pub active: int,
}

impl Account {
    /// The invariant of an account: the balance is not negative, the queue
    /// holds no more entries than the limit, the recorded total is the sum
    /// of its entries, and both amounts fit a record.
    pub open spec fn wf(self) -> bool {
        &&& 0 <= self.balance <= u64::MAX
        &&& self.queue.len() <= ALLOWED_WITHDRAWAL_LIMIT
        &&& self.active == queue_total(self.queue)
        &&& self.active <= u64::MAX
    }
}

/// The accounting state that a balance record and its queue record hold.
pub open spec fn account_of(balance: ClientBalance, withdrawals: Withdrawals) -> Account {
    Account {
        balance: balance.amount as int,
        queue: withdrawals.withdrawal_queue@,
        active: withdrawals.active_withdrawals_amount as int,
    }
}

/// The total of a queue with one more entry at its back.
pub proof fn lemma_queue_total_push(queue: Seq<WithdrawalState>, entry: WithdrawalState)
    ensures
        queue_total(queue.push(entry)) == queue_total(queue) + entry.amount,
    decreases queue.len(),
{
    if queue.len() == 0 {
        assert(queue_total(queue.push(entry).skip(1)) == 0);
    } else {
        assert(queue.push(entry).skip(1) =~= queue.skip(1).push(entry));
        lemma_queue_total_push(queue.skip(1), entry);
    }
}

/// The total of a queue from which the entry at `index` has been removed.
pub proof fn lemma_queue_total_remove(queue: Seq<WithdrawalState>, index: int)
    requires
        0 <= index < queue.len(),
    ensures
        queue_total(queue.remove(index)) == queue_total(queue) - queue[index].amount,
    decreases queue.len(),
{
    if index == 0 {
    } else {
        assert(queue.remove(index).skip(1) =~= queue.skip(1).remove(index - 1));
        lemma_queue_total_remove(queue.skip(1), index - 1);
    }
}

/// The total of a queue in which the entry at `index` has been replaced.
pub proof fn lemma_queue_total_update(
    queue: Seq<WithdrawalState>,
    index: int,
    entry: WithdrawalState,
)
    requires
        0 <= index < queue.len(),
    ensures
        queue_total(queue.update(index, entry)) == queue_total(queue) - queue[index].amount
            + entry.amount,
    decreases queue.len(),
{
    if index == 0 {
        assert(queue.update(0, entry).skip(1) =~= queue.skip(1));
    } else {
        assert(queue.update(index, entry).skip(1) =~= queue.skip(1).update(index - 1, entry));
        lemma_queue_total_update(queue.skip(1), index - 1, entry);
    }
}

/// No entry is larger than the total of its queue.
pub proof fn lemma_queue_total_bounds_entry(queue: Seq<WithdrawalState>, index: int)
    requires
        0 <= index < queue.len(),
    ensures
        queue[index].amount <= queue_total(queue),
    decreases queue.len(),
{
    if index > 0 {
        lemma_queue_total_bounds_entry(queue.skip(1), index - 1);
    }
}

/// What can be recalled is part of what is pending.
pub proof fn lemma_recallable_total_le_queue_total(
    queue: Seq<WithdrawalState>,
    trade_lock: i64,
    now: i64,
)
    ensures
        recallable_total(queue, trade_lock, now) <= queue_total(queue),
    decreases queue.len(),
{
    if queue.len() > 0 {
        lemma_recallable_total_le_queue_total(queue.skip(1), trade_lock, now);
    }
}

/// Recalling an amount that can be recalled takes exactly that amount out
/// of the total of the queue, and adds no entry.
pub proof fn lemma_drained_total(
    queue: Seq<WithdrawalState>,
    amount: nat,
    trade_lock: i64,
    now: i64,
)
    requires
        amount <= recallable_total(queue, trade_lock, now),
    ensures
        queue_total(drained(queue, amount, trade_lock, now)) == queue_total(queue) - amount,
        drained(queue, amount, trade_lock, now).len() <= queue.len(),
    decreases queue.len(),
{
    if queue.len() == 0 || amount == 0 {
    } else if !recallable(queue[0], trade_lock, now) {
        let rest = drained(queue.skip(1), amount, trade_lock, now);
        lemma_drained_total(queue.skip(1), amount, trade_lock, now);
        assert((seq![queue[0]] + rest).skip(1) =~= rest);
    } else if queue[0].amount <= amount {
        lemma_drained_total(queue.skip(1), (amount - queue[0].amount) as nat, trade_lock, now);
    } else {
        let reduced = WithdrawalState {
            amount: (queue[0].amount - amount) as u64,
            timestamp: queue[0].timestamp,
        };
        assert((seq![reduced] + queue.skip(1)).skip(1) =~= queue.skip(1));
    }
}

impl Fundlock {
    /// The bytes that the stored record takes: its tag, two identities, two
    /// locks, the bump.
    pub const INIT_SPACE: usize = 8 + 32 + 32 + 8 + 8 + 1;
}

impl ClientBalance {
    /// The bytes that the stored record takes: its tag, the amount, three
    /// identities, the bump.
    pub const INIT_SPACE: usize = 8 + 8 + 32 + 32 + 32 + 1;
}

impl WithdrawalState {
    /// Whether this entry can still be recalled at time `now`.
    pub fn is_recallable(&self, trade_lock: i64, now: i64) -> (yes: bool)
        ensures
            yes == recallable(*self, trade_lock, now),
    {
        (self.timestamp as i128) + (trade_lock as i128) > (now as i128)
    }

    /// Whether this entry can be paid out at time `now`.
    pub fn is_releasable(&self, release_lock: i64, now: i64) -> (yes: bool)
        ensures
            yes == releasable(*self, release_lock, now),
    {
        (self.timestamp as i128) + (release_lock as i128) < (now as i128)
    }
}

impl Withdrawals {
    /// The bytes that the stored record takes, whatever it holds: its tag,
    /// the length of the queue, sixteen bytes for each entry up to the limit,
    /// the recorded total, the client, and eight bytes for the bump.
    pub const INIT_SPACE: usize = 8 + 4 + (ALLOWED_WITHDRAWAL_LIMIT * 16) + 8 + 32 + 8;

    /// The invariant of a queue: it holds no more entries than the limit, and
    /// the recorded amount is the sum of its entries.
    pub open spec fn wf(&self) -> bool {
        &&& self.withdrawal_queue@.len() <= ALLOWED_WITHDRAWAL_LIMIT
        &&& self.active_withdrawals_amount == queue_total(self.withdrawal_queue@)
    }

    /// An empty queue owned by `client`.
    pub fn new(client: Pubkey, bump: u8) -> (queue: Self)
        ensures
            queue.wf(),
            queue.withdrawal_queue@ == Seq::<WithdrawalState>::empty(),
            queue.active_withdrawals_amount == 0,
            queue.client == client,
            queue.bump == bump,
    {
        Withdrawals {
            withdrawal_queue: Vec::new(),
            active_withdrawals_amount: 0,
            client,
            bump,
        }
    }

    /// Whether the record satisfies the invariant of a queue.
    pub fn is_valid(&self) -> (valid: bool)
        ensures
            valid == self.wf(),
    {
        if self.withdrawal_queue.len() > ALLOWED_WITHDRAWAL_LIMIT {
            return false;
        }
        let mut sum: u128 = 0;
        let mut index: usize = 0;
        assert(self.withdrawal_queue@.skip(0) =~= self.withdrawal_queue@);
        while index < self.withdrawal_queue.len()
            invariant
                index <= self.withdrawal_queue@.len() <= ALLOWED_WITHDRAWAL_LIMIT,
                sum + queue_total(self.withdrawal_queue@.skip(index as int)) == queue_total(
                    self.withdrawal_queue@,
                ),
                sum <= index * u64::MAX,
            decreases self.withdrawal_queue@.len() - index,
        {
            assert(self.withdrawal_queue@.skip(index as int).skip(1)
                =~= self.withdrawal_queue@.skip(index + 1));
            sum = sum + self.withdrawal_queue[index].amount as u128;
            index += 1;
        }
        sum == self.active_withdrawals_amount as u128
    }

    /// The amount that can be recalled from the queue at time `now`.
    pub fn recallable_amount(&self, trade_lock: i64, now: i64) -> (total: u64)
        requires
            self.wf(),
        ensures
            total == recallable_total(self.withdrawal_queue@, trade_lock, now),
    {
        proof {
            lemma_recallable_total_le_queue_total(self.withdrawal_queue@, trade_lock, now);
        }
        let mut total: u64 = 0;
        let mut index: usize = 0;
        assert(self.withdrawal_queue@.skip(0) =~= self.withdrawal_queue@);
        while index < self.withdrawal_queue.len()
            invariant
                index <= self.withdrawal_queue@.len(),
                total + recallable_total(self.withdrawal_queue@.skip(index as int), trade_lock, now)
                    == recallable_total(self.withdrawal_queue@, trade_lock, now),
                recallable_total(self.withdrawal_queue@, trade_lock, now) <= u64::MAX,
            decreases self.withdrawal_queue@.len() - index,
        {
            assert(self.withdrawal_queue@.skip(index as int).skip(1)
                =~= self.withdrawal_queue@.skip(index + 1));
            let entry = self.withdrawal_queue[index];
            if entry.is_recallable(trade_lock, now) {
                total = total + entry.amount;
            }
            index += 1;
        }
        total
    }

    /// Recalls `amount` from the pending withdrawals that are still inside the
    /// trade lock, oldest first, and says whether it could.
    ///
    /// The queue is changed only when the whole amount can be recalled: what
    /// can be recalled is added up before any entry is touched, so an attempt
    /// that fails leaves the record as it was. An amount of zero is always
    /// recalled, and changes nothing.
    pub fn fund_from_withdrawal(&mut self, amount: u64, trade_lock: i64, now: i64) -> (funded: bool)
        requires
            old(self).wf(),
        ensures
            funded == (amount <= recallable_total(old(self).withdrawal_queue@, trade_lock, now)),
            funded ==> final(self).withdrawal_queue@ == drained(
                old(self).withdrawal_queue@,
                amount as nat,
                trade_lock,
                now,
            ),
            funded ==> final(self).active_withdrawals_amount == old(self).active_withdrawals_amount
                - amount,
            !funded ==> *final(self) == *old(self),
            final(self).client == old(self).client,
            final(self).bump == old(self).bump,
            final(self).wf(),
    {
        let available = self.recallable_amount(trade_lock, now);
        if available < amount {
            return false;
        }
        let ghost start = self.withdrawal_queue@;
        let mut funded_sum: u64 = 0;
        let mut index: usize = 0;
        assert(start.skip(0) =~= start);
        while funded_sum < amount && index < self.withdrawal_queue.len()
            invariant
                index <= self.withdrawal_queue@.len() <= ALLOWED_WITHDRAWAL_LIMIT,
                funded_sum <= amount,
                self.active_withdrawals_amount == queue_total(self.withdrawal_queue@),
                self.active_withdrawals_amount + funded_sum == old(self).active_withdrawals_amount,
                amount - funded_sum <= recallable_total(
                    self.withdrawal_queue@.skip(index as int),
                    trade_lock,
                    now,
                ),
                drained(start, amount as nat, trade_lock, now) == self.withdrawal_queue@.take(
                    index as int,
                ) + drained(
                    self.withdrawal_queue@.skip(index as int),
                    (amount - funded_sum) as nat,
                    trade_lock,
                    now,
                ),
                self.client == old(self).client,
                self.bump == old(self).bump,
            decreases (self.withdrawal_queue@.len() - index) + (amount - funded_sum),
        {
            let ghost before = self.withdrawal_queue@;
            let ghost rest = before.skip(index as int);
            let entry = self.withdrawal_queue[index];
            assert(rest.skip(1) =~= before.skip(index + 1));
            if entry.is_recallable(trade_lock, now) {
                let left_to_fund = amount - funded_sum;
                if entry.amount <= left_to_fund {
                    proof {
                        lemma_queue_total_remove(before, index as int);
                    }
                    funded_sum = funded_sum + entry.amount;
                    self.active_withdrawals_amount = self.active_withdrawals_amount - entry.amount;
                    self.withdrawal_queue.remove(index);
                    assert(self.withdrawal_queue@.skip(index as int) =~= rest.skip(1));
                } else {
                    let reduced = WithdrawalState {
                        amount: entry.amount - left_to_fund,
                        timestamp: entry.timestamp,
                    };
                    proof {
                        lemma_queue_total_update(before, index as int, reduced);
                    }
                    funded_sum = amount;
                    self.active_withdrawals_amount = self.active_withdrawals_amount - left_to_fund;
                    self.withdrawal_queue[index] = reduced;
                }
            } else {
                index += 1;
            }
        }
        true
    }
}

} // verus!
