use ithaca_smart_contract_sol::{
    check_leg, scaled_amount, settle_leg, ClientBalance, DepositFundlock, DepositFundlockBumps,
    FundMovementParam, Fundlock, FundlockError, IthacaError, Ledger, LedgerError, Pubkey,
    UpdateBalancesFundlock, UpdateFundMovements, WhitelistedToken, WithdrawFundlock,
    WithdrawalState, Withdrawals,
};

const CLIENT: u8 = 1;
const OTHER_CLIENT: u8 = 5;
const UNDERLYING: u8 = 20;
const STRIKE: u8 = 21;

fn id(byte: u8) -> Pubkey {
    Pubkey::new_from_array([byte; 32])
}

fn record(client: u8, token: u8, amount: u64) -> ClientBalance {
    ClientBalance { amount, token: id(token), client: id(client), client_ata: id(3), bump: 7 }
}

fn pending(client: u8, entries: &[(u64, i64)]) -> Withdrawals {
    let mut withdrawals = Withdrawals::new(id(client), 9);
    for (amount, timestamp) in entries {
        withdrawals.withdrawal_queue.push(WithdrawalState { amount: *amount, timestamp: *timestamp });
        withdrawals.active_withdrawals_amount += *amount;
    }
    withdrawals
}

fn listed(withdrawals: &Withdrawals) -> Vec<(u64, i64)> {
    withdrawals.withdrawal_queue.iter().map(|entry| (entry.amount, entry.timestamp)).collect()
}

fn vault(trade_lock: i64) -> Fundlock {
    Fundlock {
        access_controller: id(10),
        token_validator: id(11),
        trade_lock,
        release_lock: 0,
        bump: 1,
    }
}

fn settlement(underlying_multiplier: i64, strike_multiplier: i64) -> UpdateFundMovements {
    UpdateFundMovements {
        fundlock: vault(1_000),
        ledger: Ledger {
            access_controller: id(10),
            token_validator: id(11),
            fundlock: id(12),
            underlying_token: id(UNDERLYING),
            strike_token: id(STRIKE),
            underlying_multiplier,
            strike_multiplier,
            bump: 2,
        },
    }
}

fn movement(client: u8, underlying_amount: i64, strike_amount: i64) -> FundMovementParam {
    FundMovementParam { client: id(client), underlying_amount, strike_amount }
}

#[test]
fn deposit_withdraw_then_settle_draws_on_the_queue() {
    let mut deposit = DepositFundlock {
        client: id(CLIENT),
        token: id(UNDERLYING),
        client_ata: id(3),
        whitelisted_token: WhitelistedToken {
            token_mint: id(UNDERLYING),
            token_decimals: 9,
            token_precision: 9,
            bump: 0,
        },
        client_balance: record(0, 0, 0),
        withdrawals: Withdrawals::new(id(0), 0),
    };
    let bumps = DepositFundlockBumps { client_balance: 7, withdrawals: 9 };
    assert_eq!(deposit.deposit_fundlock(100, &bumps), Ok(()));
    let mut request = WithdrawFundlock {
        client: id(CLIENT),
        token: id(UNDERLYING),
        client_ata: id(3),
        client_balance: deposit.client_balance,
        withdrawals: deposit.withdrawals,
    };
    assert_eq!(request.withdraw_fundlock(30, 500), Ok(()));
    assert_eq!(request.client_balance.amount, 70);
    assert_eq!(listed(&request.withdrawals), vec![(30, 500)]);

    let mut balances = vec![request.client_balance];
    let mut queues = vec![request.withdrawals];
    let ctx = settlement(1, 1);
    let batch = vec![movement(CLIENT, 90, 0)];
    assert_eq!(ctx.update_fund_movements(&batch, &mut balances, &mut queues, 600), Ok(()));
    assert_eq!(balances, vec![record(CLIENT, UNDERLYING, 0)]);
    assert_eq!(listed(&queues[0]), vec![(10, 500)]);
    assert_eq!(queues[0].active_withdrawals_amount, 10);
    assert!(queues[0].is_valid());
}

#[test]
fn a_record_of_another_client_rejects_the_batch() {
    let ctx = settlement(1, 1);
    let batch = vec![movement(CLIENT, 10, 0)];
    let mut balances = vec![record(OTHER_CLIENT, UNDERLYING, 100)];
    let mut queues = vec![pending(CLIENT, &[(5, 500)])];
    let (balances_before, queues_before) = (balances.clone(), queues.clone());
    assert_eq!(
        ctx.update_fund_movements(&batch, &mut balances, &mut queues, 600),
        Err(IthacaError::Fundlock(FundlockError::AccountOrderViolated))
    );
    assert_eq!(balances, balances_before);
    assert_eq!(queues, queues_before);
}

#[test]
fn a_record_of_another_token_rejects_the_batch() {
    let ctx = settlement(1, 1);
    let batch = vec![movement(CLIENT, 10, 0)];
    let mut balances = vec![record(CLIENT, STRIKE, 100)];
    let mut queues = vec![pending(CLIENT, &[])];
    assert_eq!(
        ctx.update_fund_movements(&batch, &mut balances, &mut queues, 600),
        Err(IthacaError::Fundlock(FundlockError::AccountOrderViolated))
    );
    assert_eq!(balances, vec![record(CLIENT, STRIKE, 100)]);
}

#[test]
fn a_queue_of_another_client_rejects_the_batch() {
    let ctx = settlement(1, 1);
    let batch = vec![movement(CLIENT, 10, 0)];
    let mut balances = vec![record(CLIENT, UNDERLYING, 100)];
    let mut queues = vec![pending(OTHER_CLIENT, &[])];
    assert_eq!(
        ctx.update_fund_movements(&batch, &mut balances, &mut queues, 600),
        Err(IthacaError::Fundlock(FundlockError::AccountOrderViolated))
    );
    assert_eq!(balances, vec![record(CLIENT, UNDERLYING, 100)]);
}

#[test]
fn a_later_leg_out_of_order_undoes_nothing_because_nothing_was_done() {
    let ctx = settlement(1, 1);
    let batch = vec![movement(CLIENT, 90, 0), movement(OTHER_CLIENT, 0, 5)];
    let mut balances = vec![record(CLIENT, UNDERLYING, 70), record(CLIENT, STRIKE, 50)];
    let mut queues = vec![pending(CLIENT, &[(30, 500)]), pending(OTHER_CLIENT, &[])];
    let (balances_before, queues_before) = (balances.clone(), queues.clone());
    assert_eq!(
        ctx.update_fund_movements(&batch, &mut balances, &mut queues, 600),
        Err(IthacaError::Fundlock(FundlockError::AccountOrderViolated))
    );
    assert_eq!(balances, balances_before);
    assert_eq!(queues, queues_before);
}

#[test]
fn the_first_leg_that_fails_names_the_rejection() {
    let ctx = settlement(1, 1);
    let batch = vec![movement(CLIENT, 90, 0), movement(OTHER_CLIENT, 0, 5)];
    let mut balances = vec![record(CLIENT, UNDERLYING, 70), record(CLIENT, STRIKE, 50)];
    let mut queues = vec![pending(CLIENT, &[(19, 500)]), pending(OTHER_CLIENT, &[])];
    let (balances_before, queues_before) = (balances.clone(), queues.clone());
    assert_eq!(
        ctx.update_fund_movements(&batch, &mut balances, &mut queues, 600),
        Err(IthacaError::Fundlock(FundlockError::InsufficientFunds))
    );
    assert_eq!(balances, balances_before);
    assert_eq!(queues, queues_before);
}

#[test]
fn a_debit_that_balance_and_queue_cannot_cover_is_rejected() {
    let ctx = settlement(1, 1);
    let batch = vec![movement(CLIENT, 101, 0)];
    let mut balances = vec![record(CLIENT, UNDERLYING, 70)];
    let mut queues = vec![pending(CLIENT, &[(30, 500)])];
    let (balances_before, queues_before) = (balances.clone(), queues.clone());
    assert_eq!(
        ctx.update_fund_movements(&batch, &mut balances, &mut queues, 600),
        Err(IthacaError::Fundlock(FundlockError::InsufficientFunds))
    );
    assert_eq!(balances, balances_before);
    assert_eq!(queues, queues_before);
    let exact = vec![movement(CLIENT, 100, 0)];
    assert_eq!(ctx.update_fund_movements(&exact, &mut balances, &mut queues, 600), Ok(()));
    assert_eq!(balances[0].amount, 0);
    assert!(queues[0].withdrawal_queue.is_empty());
    assert_eq!(queues[0].active_withdrawals_amount, 0);
}

#[test]
fn a_queue_outside_the_trade_lock_covers_nothing() {
    let ctx = settlement(1, 1);
    let batch = vec![movement(CLIENT, 71, 0)];
    let mut balances = vec![record(CLIENT, UNDERLYING, 70)];
    let mut queues = vec![pending(CLIENT, &[(30, 500)])];
    assert_eq!(
        ctx.update_fund_movements(&batch, &mut balances, &mut queues, 1_500),
        Err(IthacaError::Fundlock(FundlockError::InsufficientFunds))
    );
    assert_eq!(ctx.update_fund_movements(&batch, &mut balances, &mut queues, 1_499), Ok(()));
    assert_eq!(balances[0].amount, 0);
    assert_eq!(listed(&queues[0]), vec![(29, 500)]);
}

#[test]
fn a_debit_that_the_balance_covers_leaves_the_queue() {
    let ctx = settlement(1, 1);
    let batch = vec![movement(CLIENT, 70, 0)];
    let mut balances = vec![record(CLIENT, UNDERLYING, 70)];
    let mut queues = vec![pending(CLIENT, &[(30, 500)])];
    assert_eq!(ctx.update_fund_movements(&batch, &mut balances, &mut queues, 600), Ok(()));
    assert_eq!(balances[0].amount, 0);
    assert_eq!(listed(&queues[0]), vec![(30, 500)]);
    assert_eq!(queues[0].active_withdrawals_amount, 30);
}

#[test]
fn a_negative_backend_amount_is_a_credit() {
    let ctx = settlement(1_000, 10);
    let batch = vec![movement(CLIENT, -5, -7)];
    let mut balances = vec![record(CLIENT, UNDERLYING, 1), record(CLIENT, STRIKE, 2)];
    let mut queues = vec![pending(CLIENT, &[(30, 500)]), pending(CLIENT, &[])];
    assert_eq!(ctx.update_fund_movements(&batch, &mut balances, &mut queues, 600), Ok(()));
    assert_eq!(balances[0].amount, 5_001);
    assert_eq!(balances[1].amount, 72);
    assert_eq!(listed(&queues[0]), vec![(30, 500)]);
}

#[test]
fn amounts_are_scaled_and_negated() {
    assert_eq!(scaled_amount(5, 1_000), -5_000);
    assert_eq!(scaled_amount(-5, 1_000), 5_000);
    assert_eq!(scaled_amount(0, 1_000), 0);
    assert_eq!(scaled_amount(i64::MIN, i64::MIN), -(1i128 << 126));
    assert_eq!(scaled_amount(i64::MIN, 1), 1i128 << 63);
    assert_eq!(scaled_amount(i64::MAX, i64::MAX), -((i64::MAX as i128) * (i64::MAX as i128)));
}

#[test]
fn both_legs_of_a_movement_are_settled() {
    let ctx = settlement(1_000, 100);
    let batch = vec![movement(CLIENT, 5, 3), movement(OTHER_CLIENT, -2, 1)];
    let mut balances = vec![
        record(CLIENT, UNDERLYING, 6_000),
        record(CLIENT, STRIKE, 200),
        record(OTHER_CLIENT, UNDERLYING, 0),
        record(OTHER_CLIENT, STRIKE, 100),
    ];
    let mut queues = vec![
        pending(CLIENT, &[]),
        pending(CLIENT, &[(60, 10), (70, 11)]),
        pending(OTHER_CLIENT, &[]),
        pending(OTHER_CLIENT, &[]),
    ];
    assert_eq!(ctx.update_fund_movements(&batch, &mut balances, &mut queues, 600), Ok(()));
    assert_eq!(balances[0].amount, 1_000);
    assert_eq!(balances[1].amount, 0);
    assert_eq!(listed(&queues[1]), vec![(30, 11)]);
    assert_eq!(queues[1].active_withdrawals_amount, 30);
    assert_eq!(balances[2].amount, 2_000);
    assert_eq!(balances[3].amount, 0);
}

#[test]
fn a_leg_that_moves_nothing_takes_no_records() {
    let ctx = settlement(1, 1);
    let batch = vec![movement(CLIENT, 0, 4), movement(CLIENT, 6, 0)];
    let mut balances = vec![record(CLIENT, STRIKE, 10), record(CLIENT, UNDERLYING, 10)];
    let mut queues = vec![pending(CLIENT, &[]), pending(CLIENT, &[])];
    assert_eq!(ctx.update_fund_movements(&batch, &mut balances, &mut queues, 600), Ok(()));
    assert_eq!(balances[0].amount, 6);
    assert_eq!(balances[1].amount, 4);
}

#[test]
fn an_empty_batch_is_rejected() {
    let ctx = settlement(1, 1);
    let mut balances: Vec<ClientBalance> = Vec::new();
    let mut queues: Vec<Withdrawals> = Vec::new();
    assert_eq!(
        ctx.update_fund_movements(&Vec::new(), &mut balances, &mut queues, 600),
        Err(IthacaError::Ledger(LedgerError::EmptyFundMovementArray))
    );
}

#[test]
fn a_movement_that_moves_nothing_is_rejected() {
    let ctx = settlement(1, 1);
    let batch = vec![movement(CLIENT, 10, 0), movement(CLIENT, 0, 0)];
    let mut balances = vec![record(CLIENT, UNDERLYING, 100)];
    let mut queues = vec![pending(CLIENT, &[])];
    assert_eq!(
        ctx.update_fund_movements(&batch, &mut balances, &mut queues, 600),
        Err(IthacaError::Ledger(LedgerError::EmptyAmountsArray))
    );
    assert_eq!(balances[0].amount, 100);
}

#[test]
fn the_records_must_match_the_legs_in_number() {
    let ctx = settlement(1, 1);
    let batch = vec![movement(CLIENT, 10, 10)];
    let mut balances = vec![record(CLIENT, UNDERLYING, 100)];
    let mut queues = vec![pending(CLIENT, &[])];
    assert_eq!(
        ctx.update_fund_movements(&batch, &mut balances, &mut queues, 600),
        Err(IthacaError::Fundlock(FundlockError::InvalidAccountsAmount))
    );
    let mut two = vec![record(CLIENT, UNDERLYING, 100), record(CLIENT, STRIKE, 100)];
    assert_eq!(
        ctx.update_fund_movements(&batch, &mut two, &mut queues, 600),
        Err(IthacaError::Fundlock(FundlockError::InvalidAccountsAmount))
    );
    assert_eq!(two[0].amount, 100);
}

#[test]
fn a_credit_past_the_largest_balance_is_rejected() {
    let ctx = settlement(1, 1);
    let batch = vec![movement(CLIENT, -2, 0)];
    let mut balances = vec![record(CLIENT, UNDERLYING, u64::MAX - 1)];
    let mut queues = vec![pending(CLIENT, &[])];
    assert_eq!(
        ctx.update_fund_movements(&batch, &mut balances, &mut queues, 600),
        Err(IthacaError::Fundlock(FundlockError::BalanceOverflow))
    );
    assert_eq!(balances[0].amount, u64::MAX - 1);
    let fits = vec![movement(CLIENT, -1, 0)];
    assert_eq!(ctx.update_fund_movements(&fits, &mut balances, &mut queues, 600), Ok(()));
    assert_eq!(balances[0].amount, u64::MAX);
}

#[test]
fn the_largest_amounts_do_not_overflow() {
    let ctx = settlement(i64::MAX, i64::MIN);
    let batch = vec![movement(CLIENT, i64::MAX, i64::MIN)];
    let mut balances = vec![record(CLIENT, UNDERLYING, u64::MAX), record(CLIENT, STRIKE, 0)];
    let mut queues = vec![pending(CLIENT, &[(u64::MAX, 500)]), pending(CLIENT, &[])];
    assert_eq!(
        ctx.update_fund_movements(&batch, &mut balances, &mut queues, 600),
        Err(IthacaError::Fundlock(FundlockError::InsufficientFunds))
    );
    let debit = vec![movement(CLIENT, 0, i64::MIN)];
    let mut strike = vec![record(CLIENT, STRIKE, 0)];
    let mut strike_queue = vec![pending(CLIENT, &[])];
    assert_eq!(
        ctx.update_fund_movements(&debit, &mut strike, &mut strike_queue, 600),
        Err(IthacaError::Fundlock(FundlockError::InsufficientFunds))
    );
}

#[test]
fn movements_are_validated_and_counted() {
    let ctx = settlement(1, 1);
    assert_eq!(ctx.validate_and_count_amounts(&Vec::new()), Ok(0));
    let batch = vec![movement(1, 5, 0), movement(2, 0, -3), movement(3, 1, 1)];
    assert_eq!(ctx.validate_and_count_amounts(&batch), Ok(4));
    let with_empty = vec![movement(1, 5, 0), movement(2, 0, 0), movement(3, 1, 1)];
    assert_eq!(
        ctx.validate_and_count_amounts(&with_empty),
        Err(LedgerError::EmptyAmountsArray)
    );
}

#[test]
fn legs_are_laid_out_in_the_order_of_the_movements() {
    let ctx = settlement(1_000, 10);
    let batch = vec![movement(1, 5, 0), movement(2, 0, -3), movement(3, 1, 2)];
    let (clients, tokens, amounts) = ctx.initialize_data(&batch);
    assert_eq!(clients, vec![id(1), id(2), id(3), id(3)]);
    assert_eq!(tokens, vec![id(UNDERLYING), id(STRIKE), id(UNDERLYING), id(STRIKE)]);
    assert_eq!(amounts, vec![-5_000, 30, -1_000, -20]);
}

#[test]
fn legs_settle_through_either_context() {
    let engine = UpdateBalancesFundlock { fundlock: vault(1_000) };
    let ctx = settlement(1, 1);
    let amounts = vec![-90i128, 15];
    let clients = vec![id(CLIENT), id(OTHER_CLIENT)];
    let tokens = vec![id(UNDERLYING), id(STRIKE)];
    let start_balances = vec![record(CLIENT, UNDERLYING, 70), record(OTHER_CLIENT, STRIKE, 1)];
    let start_queues = vec![pending(CLIENT, &[(30, 500)]), pending(OTHER_CLIENT, &[])];

    let (mut balances, mut queues) = (start_balances.clone(), start_queues.clone());
    assert_eq!(
        engine.update_balances_fundlock(&amounts, &clients, &tokens, &mut balances, &mut queues, 600),
        Ok(())
    );
    assert_eq!(balances[0].amount, 0);
    assert_eq!(listed(&queues[0]), vec![(10, 500)]);
    assert_eq!(balances[1].amount, 16);

    let (mut again, mut again_queues) = (start_balances.clone(), start_queues.clone());
    assert_eq!(
        ctx.update_balances_fundlock(&amounts, &clients, &tokens, &mut again, &mut again_queues, 600),
        Ok(())
    );
    assert_eq!(again, balances);
    assert_eq!(again_queues, queues);
}

#[test]
fn a_batch_of_legs_needs_a_record_for_each() {
    let engine = UpdateBalancesFundlock { fundlock: vault(1_000) };
    let mut balances = vec![record(CLIENT, UNDERLYING, 70)];
    let mut queues = vec![pending(CLIENT, &[])];
    assert_eq!(
        engine.update_balances_fundlock(
            &vec![1, 2],
            &vec![id(CLIENT)],
            &vec![id(UNDERLYING)],
            &mut balances,
            &mut queues,
            0
        ),
        Err(FundlockError::InvalidAccountsAmount)
    );
    let mut none: Vec<ClientBalance> = Vec::new();
    let mut no_queues: Vec<Withdrawals> = Vec::new();
    assert_eq!(
        engine.update_balances_fundlock(
            &Vec::new(),
            &Vec::new(),
            &Vec::new(),
            &mut none,
            &mut no_queues,
            0
        ),
        Err(FundlockError::InvalidAccountsAmount)
    );
    assert_eq!(
        engine.update_balances_fundlock(
            &vec![1],
            &vec![id(CLIENT)],
            &vec![id(UNDERLYING)],
            &mut balances,
            &mut no_queues,
            0
        ),
        Err(FundlockError::InvalidAccountsAmount)
    );
}

#[test]
fn one_leg_is_checked_then_settled() {
    let mut balance = record(CLIENT, UNDERLYING, 70);
    let mut queue = pending(CLIENT, &[(10, 100), (20, 101), (15, 102)]);
    assert_eq!(
        check_leg(&balance, &queue, &id(CLIENT), &id(UNDERLYING), -95, 1_000, 200),
        Ok(())
    );
    assert_eq!(
        check_leg(&balance, &queue, &id(CLIENT), &id(UNDERLYING), -116, 1_000, 200),
        Err(FundlockError::InsufficientFunds)
    );
    assert_eq!(
        check_leg(&balance, &queue, &id(CLIENT), &id(STRIKE), -1, 1_000, 200),
        Err(FundlockError::AccountOrderViolated)
    );
    assert_eq!(
        check_leg(&balance, &queue, &id(CLIENT), &id(UNDERLYING), i128::MIN, 1_000, 200),
        Err(FundlockError::InsufficientFunds)
    );
    assert_eq!(
        check_leg(&balance, &queue, &id(CLIENT), &id(UNDERLYING), i128::MAX, 1_000, 200),
        Err(FundlockError::BalanceOverflow)
    );
    assert_eq!(
        settle_leg(&mut balance, &mut queue, &id(CLIENT), &id(UNDERLYING), -95, 1_000, 200),
        Ok(())
    );
    assert_eq!(balance, record(CLIENT, UNDERLYING, 0));
    assert_eq!(listed(&queue), vec![(5, 101), (15, 102)]);
    assert_eq!(queue.active_withdrawals_amount, 20);
    assert_eq!(
        settle_leg(&mut balance, &mut queue, &id(CLIENT), &id(UNDERLYING), -21, 1_000, 200),
        Err(FundlockError::InsufficientFunds)
    );
    assert_eq!(listed(&queue), vec![(5, 101), (15, 102)]);
    assert_eq!(
        settle_leg(&mut balance, &mut queue, &id(CLIENT), &id(UNDERLYING), 40, 1_000, 200),
        Ok(())
    );
    assert_eq!(balance.amount, 40);
}

#[test]
fn funding_through_the_settlement_contexts() {
    let ctx = settlement(1, 1);
    let engine = UpdateBalancesFundlock { fundlock: vault(1_000) };
    let mut queue = pending(CLIENT, &[(10, 100), (20, 101), (15, 102)]);
    assert!(ctx.fund_from_withdrawal(25, &mut queue, 200));
    assert_eq!(listed(&queue), vec![(5, 101), (15, 102)]);
    assert!(engine.fund_from_withdrawal(5, &mut queue, 200));
    assert_eq!(listed(&queue), vec![(15, 102)]);
    assert!(!engine.fund_from_withdrawal(16, &mut queue, 200));
    assert_eq!(listed(&queue), vec![(15, 102)]);
}
