pub mod create_contracts_and_positions;
pub mod init_ledger;
pub mod update_fund_movements;
