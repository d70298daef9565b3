pub mod balance_sheet_fundlock;
pub mod deposit_fundlock;
pub mod fund_from_withdrawal;
pub mod init_fundlock;
pub mod release_fundlock;
pub mod update_balances_fundlock;
pub mod withdraw_fundlock;
