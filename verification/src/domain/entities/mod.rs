pub mod account;
pub mod base;
pub mod category;
pub mod email_code;
pub mod operation;
pub mod sync_operation;
pub mod user;
