pub mod access_controller_state;
pub mod fundlock_state;
pub mod ledger_state;
pub mod token_validator_state;
