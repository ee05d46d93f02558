pub mod dto;
pub mod errors;
pub mod handlers;
pub mod middlewares;
