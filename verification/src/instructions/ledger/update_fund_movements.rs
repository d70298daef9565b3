//! Batch settlement of the fund movements that the backend declares.

use vstd::prelude::*;
use crate::error::{FundlockError, IthacaError, LedgerError};
use crate::fixed_point::{balance_units, lemma_balance_units_fit, to_balance_units};
use crate::instructions::fundlock::update_balances_fundlock::{
    all_wf, batch_rejection, leg_applied, UpdateBalancesFundlock,
};
use crate::pubkey::Pubkey;
use crate::state::fundlock_state::{
    drained, recallable_total, ClientBalance, Fundlock, Withdrawals,
};
use crate::state::ledger_state::{FundMovementParam, Ledger};

verus! {

/// One leg of a fund movement: the change of `amount` balance units that it
/// makes to the balance of `client` in `token`.
pub struct Leg {
    pub client: Pubkey,
    pub token: Pubkey,
    pub amount: i128,
}

/// The change that a backend amount makes to a balance: the amount in balance
/// units, negated, since what the backend declares is owed by the client.
pub open spec fn scaled_delta(raw: i64, multiplier: i64) -> int {
    -balance_units(raw, multiplier)
}

/// Whether a movement moves nothing on either leg.
pub open spec fn moves_nothing(movement: FundMovementParam) -> bool {
    movement.underlying_amount == 0 && movement.strike_amount == 0
}

/// The number of legs on which a movement moves something.
pub open spec fn movement_transfers(movement: FundMovementParam) -> nat {
    (if movement.underlying_amount != 0 {
        1nat
    } else {
        0nat
    }) + (if movement.strike_amount != 0 {
        1nat
    } else {
        0nat
    })
}

/// The number of legs on which the movements of a batch move something.
pub open spec fn transfer_count(movements: Seq<FundMovementParam>) -> nat
    decreases movements.len(),
{
    if movements.len() == 0 {
        0
    } else {
        transfer_count(movements.drop_last()) + movement_transfers(movements.last())
    }
}

/// The legs of one movement: its underlying leg, then its strike leg, each
/// only if it moves something.
pub open spec fn movement_legs(ledger: Ledger, movement: FundMovementParam) -> Seq<Leg> {
    let underlying = if movement.underlying_amount != 0 {
        seq![
            Leg {
                client: movement.client,
                token: ledger.underlying_token,
                amount: scaled_delta(movement.underlying_amount, ledger.underlying_multiplier) as i128,
            },
        ]
    } else {
        Seq::<Leg>::empty()
    };
    let strike = if movement.strike_amount != 0 {
        seq![
            Leg {
                client: movement.client,
                token: ledger.strike_token,
                amount: scaled_delta(movement.strike_amount, ledger.strike_multiplier) as i128,
            },
        ]
    } else {
        Seq::<Leg>::empty()
    };
    underlying + strike
}

/// The legs of a batch, in the order of its movements.
pub open spec fn batch_legs(ledger: Ledger, movements: Seq<FundMovementParam>) -> Seq<Leg>
    decreases movements.len(),
{
    if movements.len() == 0 {
        Seq::<Leg>::empty()
    } else {
        batch_legs(ledger, movements.drop_last()) + movement_legs(ledger, movements.last())
    }
}

/// The clients of a list of legs.
pub open spec fn leg_clients(legs: Seq<Leg>) -> Seq<Pubkey> {
    Seq::new(legs.len(), |k: int| legs[k].client)
}

/// The tokens of a list of legs.
pub open spec fn leg_tokens(legs: Seq<Leg>) -> Seq<Pubkey> {
    Seq::new(legs.len(), |k: int| legs[k].token)
}

/// The amounts of a list of legs.
pub open spec fn leg_amounts(legs: Seq<Leg>) -> Seq<i128> {
    Seq::new(legs.len(), |k: int| legs[k].amount)
}

/// A batch has as many legs as its movements have transfers.
pub proof fn lemma_batch_legs_len(ledger: Ledger, movements: Seq<FundMovementParam>)
    ensures
        batch_legs(ledger, movements).len() == transfer_count(movements),
    decreases movements.len(),
{
    if movements.len() > 0 {
        lemma_batch_legs_len(ledger, movements.drop_last());
    }
}

/// The change that a backend amount makes to a balance, in balance units.
pub fn scaled_amount(raw: i64, multiplier: i64) -> (delta: i128)
    ensures
        delta == scaled_delta(raw, multiplier),
{
    proof {
        lemma_balance_units_fit(raw, multiplier);
    }
    -to_balance_units(raw, multiplier)
}

/// Why a batch of fund movements is rejected, if it is: for being empty, for
/// a movement that moves nothing, or else for what the settlement of its legs
/// rejects.
pub open spec fn movements_rejection(
    ledger: Ledger,
    trade_lock: i64,
    movements: Seq<FundMovementParam>,
    balances: Seq<ClientBalance>,
    withdrawals: Seq<Withdrawals>,
    now: i64,
) -> Option<IthacaError> {
    if movements.len() == 0 {
        Some(IthacaError::Ledger(LedgerError::EmptyFundMovementArray))
    } else if exists|i: int| 0 <= i < movements.len() && moves_nothing(#[trigger] movements[i]) {
        Some(IthacaError::Ledger(LedgerError::EmptyAmountsArray))
    } else {
        let legs = batch_legs(ledger, movements);
        match batch_rejection(
            leg_amounts(legs),
            leg_clients(legs),
            leg_tokens(legs),
            balances,
            withdrawals,
            trade_lock,
            now,
        ) {
            Some(e) => Some(IthacaError::Fundlock(e)),
            None => None,
        }
    }
}

/// The settlement of fund movements against a ledger and its vault.
#[derive(Clone, Copy, Debug, PartialEq, Eq)]
pub struct UpdateFundMovements {
    pub fundlock: Fundlock,
    pub ledger: Ledger,
}

impl UpdateFundMovements {
    /// Settles a batch of fund movements. Balance `k` and queue `k` are the
    /// records of leg `k` of the batch, where the legs are those on which a
    /// movement moves something, in the order of the movements, underlying
    /// before strike.
    ///
    /// The batch is settled as a whole or not at all: a rejected batch leaves
    /// all records as they were.
    pub fn update_fund_movements(
        &self,
        fund_movements: &Vec<FundMovementParam>,
        client_balances: &mut Vec<ClientBalance>,
        withdrawals: &mut Vec<Withdrawals>,
        now: i64,
    ) -> (settled: Result<(), IthacaError>)
        requires
            all_wf(old(withdrawals)@),
            fund_movements@.len() * 2 <= usize::MAX,
        ensures
            settled == match movements_rejection(
                self.ledger,
                self.fundlock.trade_lock,
                fund_movements@,
                old(client_balances)@,
                old(withdrawals)@,
                now,
            ) {
                Some(e) => Err::<(), IthacaError>(e),
                None => Ok(()),
            },
            settled is Err ==> final(client_balances)@ == old(client_balances)@,
            settled is Err ==> final(withdrawals)@ == old(withdrawals)@,
            settled is Ok ==> legs_applied(
                batch_legs(self.ledger, fund_movements@),
                old(client_balances)@,
                old(withdrawals)@,
                final(client_balances)@,
                final(withdrawals)@,
                self.fundlock.trade_lock,
                now,
            ),
            all_wf(final(withdrawals)@),
    {
        if fund_movements.len() == 0 {
            return Err(IthacaError::Ledger(LedgerError::EmptyFundMovementArray));
        }
        match self.validate_and_count_amounts(fund_movements) {
            Err(e) => {
                return Err(IthacaError::Ledger(e));
            },
            Ok(_) => {},
        }
        self.process_fund_movement(fund_movements, client_balances, withdrawals, now)
    }

    /// Counts the legs on which the movements of a batch move something, and
    /// rejects a batch with a movement that moves nothing.
    pub fn validate_and_count_amounts(&self, fund_movements: &Vec<FundMovementParam>) -> (counted: Result<
        usize,
        LedgerError,
    >)
        requires
            fund_movements@.len() * 2 <= usize::MAX,
        ensures
            counted is Ok <==> forall|i: int|
                0 <= i < fund_movements@.len() ==> !moves_nothing(#[trigger] fund_movements@[i]),
            counted matches Ok(count) ==> count == transfer_count(fund_movements@),
            counted matches Err(e) ==> e == LedgerError::EmptyAmountsArray,
    {
        let mut transfer_count: usize = 0;
        let mut index: usize = 0;
        while index < fund_movements.len()
            invariant
                index <= fund_movements@.len(),
                fund_movements@.len() * 2 <= usize::MAX,
                transfer_count == self::transfer_count(fund_movements@.take(index as int)),
                transfer_count <= 2 * index,
                forall|i: int| 0 <= i < index ==> !moves_nothing(#[trigger] fund_movements@[i]),
            decreases fund_movements@.len() - index,
        {
            let movement = fund_movements[index];
            if movement.underlying_amount == 0 && movement.strike_amount == 0 {
                return Err(LedgerError::EmptyAmountsArray);
            }
            assert(fund_movements@.take(index + 1).drop_last() =~= fund_movements@.take(
                index as int,
            ));
            if movement.underlying_amount != 0 {
                transfer_count += 1;
            }
            if movement.strike_amount != 0 {
                transfer_count += 1;
            }
            index += 1;
        }
        assert(fund_movements@.take(index as int) =~= fund_movements@);
        Ok(transfer_count)
    }

    /// Settles the legs of a batch whose movements each move something.
    pub fn process_fund_movement(
        &self,
        fund_movements: &Vec<FundMovementParam>,
        client_balances: &mut Vec<ClientBalance>,
        withdrawals: &mut Vec<Withdrawals>,
        now: i64,
    ) -> (settled: Result<(), IthacaError>)
        requires
            all_wf(old(withdrawals)@),
        ensures
            settled == match batch_rejection(
                leg_amounts(batch_legs(self.ledger, fund_movements@)),
                leg_clients(batch_legs(self.ledger, fund_movements@)),
                leg_tokens(batch_legs(self.ledger, fund_movements@)),
                old(client_balances)@,
                old(withdrawals)@,
                self.fundlock.trade_lock,
                now,
            ) {
                Some(e) => Err::<(), IthacaError>(IthacaError::Fundlock(e)),
                None => Ok(()),
            },
            settled is Err ==> final(client_balances)@ == old(client_balances)@,
            settled is Err ==> final(withdrawals)@ == old(withdrawals)@,
            settled is Ok ==> legs_applied(
                batch_legs(self.ledger, fund_movements@),
                old(client_balances)@,
                old(withdrawals)@,
                final(client_balances)@,
                final(withdrawals)@,
                self.fundlock.trade_lock,
                now,
            ),
            all_wf(final(withdrawals)@),
    {
        let (clients, tokens, amounts) = self.initialize_data(fund_movements);
        match self.update_balances_fundlock(
            &amounts,
            &clients,
            &tokens,
            client_balances,
            withdrawals,
            now,
        ) {
            Err(e) => Err(IthacaError::Fundlock(e)),
            Ok(()) => Ok(()),
        }
    }

    /// Lays out the legs of a batch: for each leg its client, its token and
    /// the change it makes, in balance units.
    pub fn initialize_data(&self, fund_movements: &Vec<FundMovementParam>) -> (data: (
        Vec<Pubkey>,
        Vec<Pubkey>,
        Vec<i128>,
    ))
        ensures
            data.0@ == leg_clients(batch_legs(self.ledger, fund_movements@)),
            data.1@ == leg_tokens(batch_legs(self.ledger, fund_movements@)),
            data.2@ == leg_amounts(batch_legs(self.ledger, fund_movements@)),
    {
        let mut clients: Vec<Pubkey> = Vec::new();
        let mut tokens: Vec<Pubkey> = Vec::new();
        let mut amounts: Vec<i128> = Vec::new();
        let strike_multiplier = self.ledger.strike_multiplier;
        let underlying_multiplier = self.ledger.underlying_multiplier;
        let mut index: usize = 0;
        while index < fund_movements.len()
            invariant
                index <= fund_movements@.len(),
                strike_multiplier == self.ledger.strike_multiplier,
                underlying_multiplier == self.ledger.underlying_multiplier,
                clients@ == leg_clients(batch_legs(self.ledger, fund_movements@.take(index as int))),
                tokens@ == leg_tokens(batch_legs(self.ledger, fund_movements@.take(index as int))),
                amounts@ == leg_amounts(batch_legs(self.ledger, fund_movements@.take(index as int))),
            decreases fund_movements@.len() - index,
        {
            let fund_movement = fund_movements[index];
            proof {
                assert(fund_movements@.take(index + 1).drop_last() =~= fund_movements@.take(
                    index as int,
                ));
                lemma_balance_units_fit(fund_movement.underlying_amount, underlying_multiplier);
                lemma_balance_units_fit(fund_movement.strike_amount, strike_multiplier);
            }
            if fund_movement.underlying_amount != 0 {
                clients.push(fund_movement.client);
                tokens.push(self.ledger.underlying_token);
                amounts.push(scaled_amount(fund_movement.underlying_amount, underlying_multiplier));
            }
            if fund_movement.strike_amount != 0 {
                clients.push(fund_movement.client);
                tokens.push(self.ledger.strike_token);
                amounts.push(scaled_amount(fund_movement.strike_amount, strike_multiplier));
            }
            index += 1;
        }
        assert(fund_movements@.take(index as int) =~= fund_movements@);
        (clients, tokens, amounts)
    }

    /// Settles a list of legs against the vault of this ledger.
    pub fn update_balances_fundlock(
        &self,
        amounts: &Vec<i128>,
        clients: &Vec<Pubkey>,
        tokens: &Vec<Pubkey>,
        client_balances: &mut Vec<ClientBalance>,
        withdrawals: &mut Vec<Withdrawals>,
        now: i64,
    ) -> (settled: Result<(), FundlockError>)
        requires
            all_wf(old(withdrawals)@),
        ensures
            settled == match batch_rejection(
                amounts@,
                clients@,
                tokens@,
                old(client_balances)@,
                old(withdrawals)@,
                self.fundlock.trade_lock,
                now,
            ) {
                Some(e) => Err::<(), FundlockError>(e),
                None => Ok(()),
            },
            settled is Err ==> final(client_balances)@ == old(client_balances)@,
            settled is Err ==> final(withdrawals)@ == old(withdrawals)@,
            settled is Ok ==> final(client_balances)@.len() == amounts@.len(),
            settled is Ok ==> final(withdrawals)@.len() == amounts@.len(),
            settled is Ok ==> forall|i: int|
                #![trigger final(client_balances)@[i]]
                #![trigger final(withdrawals)@[i]]
                0 <= i < amounts@.len() ==> leg_applied(
                    (old(client_balances)@[i], old(withdrawals)@[i]),
                    (final(client_balances)@[i], final(withdrawals)@[i]),
                    amounts@[i] as int,
                    self.fundlock.trade_lock,
                    now,
                ),
            all_wf(final(withdrawals)@),
    {
        let engine = UpdateBalancesFundlock { fundlock: self.fundlock };
        engine.update_balances_fundlock(amounts, clients, tokens, client_balances, withdrawals, now)
    }

    /// Recalls `amount` from a queue of pending withdrawals of this vault.
    pub fn fund_from_withdrawal(&self, amount: u64, withdrawals: &mut Withdrawals, now: i64) -> (funded:
        bool)
        requires
            old(withdrawals).wf(),
        ensures
            funded == (amount <= recallable_total(
                old(withdrawals).withdrawal_queue@,
                self.fundlock.trade_lock,
                now,
            )),
            funded ==> final(withdrawals).withdrawal_queue@ == drained(
                old(withdrawals).withdrawal_queue@,
                amount as nat,
                self.fundlock.trade_lock,
                now,
            ),
            funded ==> final(withdrawals).active_withdrawals_amount == old(
                withdrawals,
            ).active_withdrawals_amount - amount,
            !funded ==> *final(withdrawals) == *old(withdrawals),
            final(withdrawals).client == old(withdrawals).client,
            final(withdrawals).bump == old(withdrawals).bump,
            final(withdrawals).wf(),
    {
        withdrawals.fund_from_withdrawal(amount, self.fundlock.trade_lock, now)
    }
}

/// Whether the records after a batch are the records before it with every
/// leg applied to the balance and the queue at its place.
pub open spec fn legs_applied(
    legs: Seq<Leg>,
    balances_before: Seq<ClientBalance>,
    withdrawals_before: Seq<Withdrawals>,
    balances_after: Seq<ClientBalance>,
    withdrawals_after: Seq<Withdrawals>,
    trade_lock: i64,
    now: i64,
) -> bool {
    &&& balances_after.len() == legs.len()
    &&& withdrawals_after.len() == legs.len()
    &&& forall|k: int|
        #![trigger balances_after[k]]
        #![trigger withdrawals_after[k]]
        0 <= k < legs.len() ==> leg_applied(
            (balances_before[k], withdrawals_before[k]),
            (balances_after[k], withdrawals_after[k]),
            legs[k].amount as int,
            trade_lock,
            now,
        )
}

} // verus!
