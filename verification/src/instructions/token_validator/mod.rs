pub mod add_token_to_whitelist;
pub mod init_token_validator;
