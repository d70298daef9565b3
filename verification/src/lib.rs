//! Custody and accounting for client collateral: per-client balances, a bounded
//! queue of pending withdrawals, and batch settlement of fund movements.

pub mod accounting;
pub mod address;
pub mod constants;
pub mod error;
pub mod fixed_point;
pub mod instructions;
pub mod pubkey;
pub mod state;

pub use address::RecordKind;
pub use constants::{Roles, ALLOWED_WITHDRAWAL_LIMIT};
pub use error::{AccessControlError, FundlockError, IthacaError, LedgerError, TokenValidatorError};
pub use instructions::access_control::check_role::CheckRole;
pub use instructions::access_control::grant_role::{GrantRole, GrantRoleBumps};
pub use instructions::access_control::init_access_controller::{
    InitAccessController, InitAccessControllerBumps,
};
pub use instructions::access_control::renounce_role::RenounceRole;
pub use instructions::fundlock::balance_sheet_fundlock::BalanceSheetFundlock;
pub use instructions::fundlock::deposit_fundlock::{DepositFundlock, DepositFundlockBumps};
pub use instructions::fundlock::fund_from_withdrawal::FundFromWithdrawal;
pub use instructions::fundlock::init_fundlock::{InitFundlock, InitFundlockBumps};
pub use instructions::fundlock::release_fundlock::ReleaseFundlock;
pub use instructions::fundlock::update_balances_fundlock::{
    check_leg, settle_leg, UpdateBalancesFundlock,
};
pub use instructions::fundlock::withdraw_fundlock::WithdrawFundlock;
pub use instructions::ledger::create_contracts_and_positions::{
    check_position_accounts, create_contracts_and_positions, CreateOrUpdatePositions,
};
pub use instructions::ledger::init_ledger::{InitLedger, InitLedgerBumps};
pub use instructions::ledger::update_fund_movements::{scaled_amount, UpdateFundMovements};
pub use instructions::token_validator::add_token_to_whitelist::{
    AddTokenToWhitelist, AddTokenToWhitelistBumps,
};
pub use instructions::token_validator::init_token_validator::{
    InitTokenValidator, InitTokenValidatorBumps,
};
pub use pubkey::Pubkey;
pub use state::access_controller_state::{AccessController, Member, Role};
pub use state::fundlock_state::{ClientBalance, Fundlock, WithdrawalState, Withdrawals};
pub use state::ledger_state::{
    Contract, FundMovementParam, FundMovementParamOptimized, Ledger, Position, PositionsParam,
};
pub use state::token_validator_state::{check_fungible, TokenValidator, WhitelistedToken};
