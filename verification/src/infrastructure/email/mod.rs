pub mod sender;
pub mod templates;
