//! The creation and update of derivative contracts and of the positions held
//! in them.

use vstd::prelude::*;
use crate::address::{
    contract_address, contract_seeds, position_address, position_seeds, program_address,
};
use crate::error::{FundlockError, IthacaError, LedgerError};
use crate::pubkey::{lemma_pubkey_view_injective, Pubkey};
use crate::state::ledger_state::{Contract, Position, PositionsParam};

verus! {

/// The creation or update of positions in the contracts of one ledger, by the
/// program `program_id`.
#[derive(Clone, Copy, Debug, PartialEq, Eq)]
pub struct CreateOrUpdatePositions {
    pub ledger: Pubkey,
    pub program_id: Pubkey,
}

/// The records to store for a position, given the addresses derived for its
/// contract and for the position itself: the accounts supplied must stand at
/// exactly those addresses, and the records carry the bumps of the
/// derivation. There are none where an address could not be derived or an
/// account stands elsewhere.
pub open spec fn position_records(
    position: PositionsParam,
    contract_account: Pubkey,
    position_account: Pubkey,
    derived_contract: Option<(Seq<u8>, u8)>,
    derived_position: Option<(Seq<u8>, u8)>,
) -> Option<(Contract, Position)> {
    match (derived_contract, derived_position) {
        (Some((contract_at, contract_bump)), Some((position_at, position_bump))) => {
            if contract_at == contract_account@ && position_at == position_account@ {
                Some(
                    (
                        Contract { contract_id: position.contract_id, bump: contract_bump },
                        Position {
                            contract_id: position.contract_id,
                            client: position.client,
                            size: position.size,
                            bump: position_bump,
                        },
                    ),
                )
            } else {
                None
            }
        },
        _ => None,
    }
}

/// The records to store for position `i` of a batch, whose contract account
/// is account `2 * i` and whose position account is account `2 * i + 1`.
pub open spec fn batch_position_records(
    ledger: Pubkey,
    program_id: Pubkey,
    positions: Seq<PositionsParam>,
    accounts: Seq<Pubkey>,
    i: int,
) -> Option<(Contract, Position)> {
    position_records(
        positions[i],
        accounts[2 * i],
        accounts[2 * i + 1],
        program_address(contract_seeds(ledger, positions[i].contract_id), program_id@),
        program_address(position_seeds(accounts[2 * i], positions[i].client), program_id@),
    )
}

/// Why a batch of positions is rejected, if it is: for being empty, for the
/// number of its accounts, or for an account that does not stand at the
/// address derived for it.
pub open spec fn positions_rejection(
    ledger: Pubkey,
    program_id: Pubkey,
    positions: Seq<PositionsParam>,
    accounts: Seq<Pubkey>,
) -> Option<IthacaError> {
    if positions.len() == 0 {
        Some(IthacaError::Ledger(LedgerError::EmptyPositionsArray))
    } else if accounts.len() != 2 * positions.len() {
        Some(IthacaError::Fundlock(FundlockError::InvalidAccountsAmount))
    } else if exists|i: int|
        0 <= i < positions.len() && (#[trigger] batch_position_records(
            ledger,
            program_id,
            positions,
            accounts,
            i,
        )) is None {
        Some(IthacaError::Ledger(LedgerError::AccountOrderViolated))
    } else {
        None
    }
}

/// Checks the accounts supplied for a position against the addresses derived
/// for them, and returns the records to store.
pub fn check_position_accounts(
    position: &PositionsParam,
    contract_account: &Pubkey,
    position_account: &Pubkey,
    derived_contract: Option<(Pubkey, u8)>,
    derived_position: Option<(Pubkey, u8)>,
) -> (checked: Result<(Contract, Position), LedgerError>)
    ensures
        checked == match position_records(
            *position,
            *contract_account,
            *position_account,
            match derived_contract {
                Some((address, bump)) => Some((address@, bump)),
                None => None,
            },
            match derived_position {
                Some((address, bump)) => Some((address@, bump)),
                None => None,
            },
        ) {
            Some(records) => Ok::<(Contract, Position), LedgerError>(records),
            None => Err(LedgerError::AccountOrderViolated),
        },
{
    let (contract_at, contract_bump) = match derived_contract {
        Some(found) => found,
        None => {
            return Err(LedgerError::AccountOrderViolated);
        },
    };
    let (position_at, position_bump) = match derived_position {
        Some(found) => found,
        None => {
            return Err(LedgerError::AccountOrderViolated);
        },
    };
    proof {
        lemma_pubkey_view_injective(contract_at, *contract_account);
        lemma_pubkey_view_injective(position_at, *position_account);
    }
    if !(*contract_account == contract_at) {
        return Err(LedgerError::AccountOrderViolated);
    }
    if !(*position_account == position_at) {
        return Err(LedgerError::AccountOrderViolated);
    }
    Ok(
        (
            Contract { contract_id: position.contract_id, bump: contract_bump },
            Position {
                contract_id: position.contract_id,
                client: position.client,
                size: position.size,
                bump: position_bump,
            },
        ),
    )
}

/// Checks a batch of positions against the accounts supplied for them, two
/// for each position: that of its contract, then that of the position. Returns
/// the records to store in the accounts, in the order of the positions.
pub fn create_contracts_and_positions(
    ctx: &CreateOrUpdatePositions,
    position_params: &Vec<PositionsParam>,
    remaining_accounts: &Vec<Pubkey>,
) -> (created: Result<Vec<(Contract, Position)>, IthacaError>)
    ensures
        match positions_rejection(
            ctx.ledger,
            ctx.program_id,
            position_params@,
            remaining_accounts@,
        ) {
            Some(e) => created == Err::<Vec<(Contract, Position)>, IthacaError>(e),
            None => created matches Ok(records) && records@.len() == position_params@.len()
                && forall|i: int|
                0 <= i < position_params@.len() ==> Some(#[trigger] records@[i])
                    == batch_position_records(
                    ctx.ledger,
                    ctx.program_id,
                    position_params@,
                    remaining_accounts@,
                    i,
                ),
        },
{
    let count = position_params.len();
    if count == 0 {
        return Err(IthacaError::Ledger(LedgerError::EmptyPositionsArray));
    }
    if remaining_accounts.len() % 2 != 0 || remaining_accounts.len() / 2 != count {
        return Err(IthacaError::Fundlock(FundlockError::InvalidAccountsAmount));
    }
    let mut records: Vec<(Contract, Position)> = Vec::new();
    let mut index: usize = 0;
    while index < count
        invariant
            index <= count,
            count == position_params@.len(),
            remaining_accounts@.len() == 2 * count,
            2 * count <= usize::MAX,
            records@.len() == index,
            forall|i: int|
                0 <= i < index ==> Some(#[trigger] records@[i]) == batch_position_records(
                    ctx.ledger,
                    ctx.program_id,
                    position_params@,
                    remaining_accounts@,
                    i,
                ),
        decreases count - index,
    {
        let position = position_params[index];
        let contract_account = remaining_accounts[index * 2];
        let position_account = remaining_accounts[index * 2 + 1];
        let derived_contract = contract_address(&ctx.ledger, position.contract_id, &ctx.program_id);
        let derived_position = position_address(
            &contract_account,
            &position.client,
            &ctx.program_id,
        );
        match check_position_accounts(
            &position,
            &contract_account,
            &position_account,
            derived_contract,
            derived_position,
        ) {
            Err(_) => {
                assert(batch_position_records(
                    ctx.ledger,
                    ctx.program_id,
                    position_params@,
                    remaining_accounts@,
                    index as int,
                ) is None);
                return Err(IthacaError::Ledger(LedgerError::AccountOrderViolated));
            },
            Ok(pair) => {
                records.push(pair);
            },
        }
        index += 1;
    }
    assert forall|i: int| 0 <= i < position_params@.len() implies (#[trigger] batch_position_records(
        ctx.ledger,
        ctx.program_id,
        position_params@,
        remaining_accounts@,
        i,
    )) is Some by {
        assert(Some(records@[i]) == batch_position_records(
            ctx.ledger,
            ctx.program_id,
            position_params@,
            remaining_accounts@,
            i,
        ));
    }
    Ok(records)
}

} // verus!
