pub mod access_control;
pub mod fundlock;
pub mod ledger;
pub mod token_validator;
