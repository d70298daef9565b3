pub mod check_role;
pub mod grant_role;
pub mod init_access_controller;
pub mod renounce_role;
