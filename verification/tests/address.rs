use ithaca_smart_contract_sol::address::{
    client_balance_address, contract_address, locate, position_address, withdrawals_address,
};
use ithaca_smart_contract_sol::{
    check_position_accounts, create_contracts_and_positions, Contract, CreateOrUpdatePositions,
    FundlockError, IthacaError, LedgerError, Position, PositionsParam, Pubkey, RecordKind,
};

fn at(byte: u8) -> Pubkey {
    Pubkey::new_from_array([byte; 32])
}

fn outside(key: &Pubkey) -> anchor_lang::prelude::Pubkey {
    anchor_lang::prelude::Pubkey::new_from_array(key.to_bytes())
}

fn expected_contract(ledger: &Pubkey, contract_id: u64, program: &Pubkey) -> (Pubkey, u8) {
    let (address, bump) = anchor_lang::prelude::Pubkey::find_program_address(
        &[b"contract", &ledger.to_bytes(), &contract_id.to_le_bytes()],
        &outside(program),
    );
    (Pubkey::new_from_array(address.to_bytes()), bump)
}

fn expected_position(contract: &Pubkey, client: &Pubkey, program: &Pubkey) -> (Pubkey, u8) {
    let (address, bump) = anchor_lang::prelude::Pubkey::find_program_address(
        &[b"position", &contract.to_bytes(), &client.to_bytes()],
        &outside(program),
    );
    (Pubkey::new_from_array(address.to_bytes()), bump)
}

fn context() -> CreateOrUpdatePositions {
    CreateOrUpdatePositions { ledger: at(30), program_id: at(40) }
}

fn param(contract_id: u64, client: u8, size: u64) -> PositionsParam {
    PositionsParam { contract_id, client: at(client), size }
}

fn accounts_of(ctx: &CreateOrUpdatePositions, params: &[PositionsParam]) -> Vec<Pubkey> {
    let mut accounts = Vec::new();
    for position in params {
        let (contract, _) = expected_contract(&ctx.ledger, position.contract_id, &ctx.program_id);
        let (held, _) = expected_position(&contract, &position.client, &ctx.program_id);
        accounts.push(contract);
        accounts.push(held);
    }
    accounts
}

#[test]
fn a_contract_stands_at_the_address_derived_from_ledger_and_id() {
    let (ledger, program) = (at(30), at(40));
    let derived = contract_address(&ledger, 7, &program);
    assert_eq!(derived, Some(expected_contract(&ledger, 7, &program)));
    let (address, _) = derived.unwrap();
    assert_ne!(address, ledger);
    assert_ne!(address, program);
    assert_ne!(contract_address(&ledger, 8, &program), derived);
    assert_ne!(contract_address(&at(31), 7, &program), derived);
    assert_ne!(contract_address(&ledger, 7, &at(41)), derived);
    assert_eq!(contract_address(&ledger, 7, &program), derived);
}

#[test]
fn a_position_stands_at_the_address_derived_from_contract_and_client() {
    let (contract, client, program) = (at(50), at(1), at(40));
    let derived = position_address(&contract, &client, &program);
    assert_eq!(derived, Some(expected_position(&contract, &client, &program)));
    let (address, _) = derived.unwrap();
    assert_ne!(address, contract);
    assert_ne!(address, client);
    assert_ne!(position_address(&client, &contract, &program), derived);
    assert_ne!(position_address(&contract, &at(2), &program), derived);
}

#[test]
fn a_known_address_is_derived() {
    let program = Pubkey::new_from_array([0u8; 32]);
    let ledger = Pubkey::new_from_array([0u8; 32]);
    let (address, bump) = contract_address(&ledger, 0, &program).unwrap();
    let again = anchor_lang::prelude::Pubkey::create_program_address(
        &[b"contract", &[0u8; 32], &[0u8; 8], &[bump]],
        &anchor_lang::prelude::Pubkey::new_from_array([0u8; 32]),
    )
    .unwrap();
    assert_eq!(address.to_bytes(), again.to_bytes());
    assert!(!again.is_on_curve());
}

#[test]
fn accounts_at_their_addresses_give_the_records() {
    let position = param(7, 1, 250);
    let contract = (at(60), 254u8);
    let held = (at(61), 253u8);
    assert_eq!(
        check_position_accounts(&position, &at(60), &at(61), Some(contract), Some(held)),
        Ok((
            Contract { contract_id: 7, bump: 254 },
            Position { contract_id: 7, client: at(1), size: 250, bump: 253 }
        ))
    );
}

#[test]
fn an_account_off_its_address_is_rejected() {
    let position = param(7, 1, 250);
    let contract = (at(60), 254u8);
    let held = (at(61), 253u8);
    assert_eq!(
        check_position_accounts(&position, &at(62), &at(61), Some(contract), Some(held)),
        Err(LedgerError::AccountOrderViolated)
    );
    assert_eq!(
        check_position_accounts(&position, &at(60), &at(62), Some(contract), Some(held)),
        Err(LedgerError::AccountOrderViolated)
    );
    assert_eq!(
        check_position_accounts(&position, &at(61), &at(60), Some(contract), Some(held)),
        Err(LedgerError::AccountOrderViolated)
    );
}

#[test]
fn an_address_that_cannot_be_derived_is_rejected() {
    let position = param(7, 1, 250);
    let contract = (at(60), 254u8);
    let held = (at(61), 253u8);
    assert_eq!(
        check_position_accounts(&position, &at(60), &at(61), None, Some(held)),
        Err(LedgerError::AccountOrderViolated)
    );
    assert_eq!(
        check_position_accounts(&position, &at(60), &at(61), Some(contract), None),
        Err(LedgerError::AccountOrderViolated)
    );
    assert_eq!(
        check_position_accounts(&position, &at(60), &at(61), None, None),
        Err(LedgerError::AccountOrderViolated)
    );
}

#[test]
fn a_batch_of_positions_gives_its_records() {
    let ctx = context();
    let params = vec![param(7, 1, 250), param(7, 2, 10), param(9, 1, 0)];
    let accounts = accounts_of(&ctx, &params);
    let records = create_contracts_and_positions(&ctx, &params, &accounts).unwrap();
    assert_eq!(records.len(), 3);
    for (i, position) in params.iter().enumerate() {
        let (contract, contract_bump) =
            expected_contract(&ctx.ledger, position.contract_id, &ctx.program_id);
        let (_, position_bump) = expected_position(&contract, &position.client, &ctx.program_id);
        assert_eq!(
            records[i],
            (
                Contract { contract_id: position.contract_id, bump: contract_bump },
                Position {
                    contract_id: position.contract_id,
                    client: position.client,
                    size: position.size,
                    bump: position_bump
                }
            )
        );
    }
    assert_eq!(accounts[0], accounts[2]);
    assert_ne!(accounts[1], accounts[3]);
}

#[test]
fn a_batch_with_an_account_out_of_order_is_rejected() {
    let ctx = context();
    let params = vec![param(7, 1, 250), param(9, 2, 10)];
    let accounts = accounts_of(&ctx, &params);
    let swapped = vec![accounts[1], accounts[0], accounts[2], accounts[3]];
    assert_eq!(
        create_contracts_and_positions(&ctx, &params, &swapped),
        Err(IthacaError::Ledger(LedgerError::AccountOrderViolated))
    );
    let crossed = vec![accounts[2], accounts[3], accounts[0], accounts[1]];
    assert_eq!(
        create_contracts_and_positions(&ctx, &params, &crossed),
        Err(IthacaError::Ledger(LedgerError::AccountOrderViolated))
    );
    let unchanged = vec![at(1), at(2), at(3), at(4)];
    assert_eq!(
        create_contracts_and_positions(&ctx, &params, &unchanged),
        Err(IthacaError::Ledger(LedgerError::AccountOrderViolated))
    );
    let other_program = CreateOrUpdatePositions { ledger: at(30), program_id: at(41) };
    assert_eq!(
        create_contracts_and_positions(&other_program, &params, &accounts),
        Err(IthacaError::Ledger(LedgerError::AccountOrderViolated))
    );
}

#[test]
fn a_batch_without_positions_is_rejected() {
    assert_eq!(
        create_contracts_and_positions(&context(), &Vec::new(), &Vec::new()),
        Err(IthacaError::Ledger(LedgerError::EmptyPositionsArray))
    );
    assert_eq!(
        create_contracts_and_positions(&context(), &Vec::new(), &vec![at(1), at(2)]),
        Err(IthacaError::Ledger(LedgerError::EmptyPositionsArray))
    );
}

#[test]
fn a_batch_needs_two_accounts_for_each_position() {
    let ctx = context();
    let params = vec![param(7, 1, 250), param(9, 2, 10)];
    let accounts = accounts_of(&ctx, &params);
    for count in [0usize, 1, 2, 3] {
        assert_eq!(
            create_contracts_and_positions(&ctx, &params, &accounts[..count].to_vec()),
            Err(IthacaError::Fundlock(FundlockError::InvalidAccountsAmount))
        );
    }
    let mut extra = accounts.clone();
    extra.push(at(1));
    assert_eq!(
        create_contracts_and_positions(&ctx, &params, &extra),
        Err(IthacaError::Fundlock(FundlockError::InvalidAccountsAmount))
    );
    extra.push(at(2));
    assert_eq!(
        create_contracts_and_positions(&ctx, &params, &extra),
        Err(IthacaError::Fundlock(FundlockError::InvalidAccountsAmount))
    );
}

fn expected(seeds: &[&[u8]], program: &Pubkey) -> Option<(Pubkey, u8)> {
    anchor_lang::prelude::Pubkey::try_find_program_address(seeds, &outside(program))
        .map(|(address, bump)| (Pubkey::new_from_array(address.to_bytes()), bump))
}

#[test]
fn every_kind_of_record_has_its_tag() {
    let kinds: [(RecordKind, &[u8]); 12] = [
        (RecordKind::AccessController, b"access_controller"),
        (RecordKind::Role, b"role"),
        (RecordKind::Member, b"member"),
        (RecordKind::TokenValidator, b"token_validator"),
        (RecordKind::WhitelistedToken, b"whitelisted_token"),
        (RecordKind::Fundlock, b"fundlock"),
        (RecordKind::FundlockTokenVault, b"fundlock_token_vault"),
        (RecordKind::ClientBalance, b"client_balance"),
        (RecordKind::Withdrawals, b"withdrawals"),
        (RecordKind::Ledger, b"ledger"),
        (RecordKind::Contract, b"contract"),
        (RecordKind::Position, b"position"),
    ];
    for (kind, tag) in kinds {
        assert_eq!(kind.tag(), tag.to_vec());
    }
}

#[test]
fn a_record_is_located_by_its_kind_and_its_parents() {
    let program = at(40);
    let admin = at(1);
    assert_eq!(
        locate(RecordKind::AccessController, &vec![admin.to_vec()], &program),
        expected(&[b"access_controller", &admin.to_bytes()], &program)
    );
    let directory = at(2);
    assert_eq!(
        locate(
            RecordKind::Role,
            &vec![directory.to_vec(), b"DEFAULT_ADMIN_ROLE".to_vec()],
            &program
        ),
        expected(&[b"role", &directory.to_bytes(), b"DEFAULT_ADMIN_ROLE"], &program)
    );
    let (whitelist, underlying, strike) = (at(3), at(4), at(5));
    assert_eq!(
        locate(
            RecordKind::Ledger,
            &vec![directory.to_vec(), whitelist.to_vec(), underlying.to_vec(), strike.to_vec()],
            &program
        ),
        expected(
            &[
                b"ledger",
                &directory.to_bytes(),
                &whitelist.to_bytes(),
                &underlying.to_bytes(),
                &strike.to_bytes()
            ],
            &program
        )
    );
    assert_eq!(
        locate(RecordKind::Fundlock, &Vec::new(), &program),
        expected(&[b"fundlock"], &program)
    );
    assert_ne!(
        locate(RecordKind::Fundlock, &vec![admin.to_vec()], &program),
        locate(RecordKind::Ledger, &vec![admin.to_vec()], &program)
    );
}

#[test]
fn seeds_that_the_derivation_does_not_admit_locate_nothing() {
    let program = at(40);
    assert_eq!(locate(RecordKind::Role, &vec![vec![0u8; 33]], &program), None);
    assert!(locate(RecordKind::Role, &vec![vec![0u8; 32]], &program).is_some());
    let many: Vec<Vec<u8>> = (0..16u8).map(|n| vec![n]).collect();
    assert_eq!(locate(RecordKind::Role, &many, &program), None);
    let most: Vec<Vec<u8>> = (0..14u8).map(|n| vec![n]).collect();
    assert!(locate(RecordKind::Role, &most, &program).is_some());
}

#[test]
fn balances_and_queues_are_located() {
    let (program, vault, token_account, fundlock) = (at(40), at(6), at(7), at(8));
    let balance = client_balance_address(&vault, &token_account, &program);
    assert_eq!(
        balance,
        expected(&[b"client_balance", &vault.to_bytes(), &token_account.to_bytes()], &program)
    );
    let (balance_at, _) = balance.unwrap();
    assert_eq!(
        withdrawals_address(&fundlock, &balance_at, &program),
        expected(&[b"withdrawals", &fundlock.to_bytes(), &balance_at.to_bytes()], &program)
    );
    assert_ne!(withdrawals_address(&fundlock, &balance_at, &program), balance);
}
