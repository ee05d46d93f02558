//! Decision logic of the Cache Flow backend: entities, configuration
//! helpers, request validation, error replies and the authentication
//! flows (registration, e-mail verification, login) written as state
//! machines that a thin asynchronous runner drives against the database.

pub mod api;
pub mod config;
pub mod domain;
pub mod infrastructure;
pub mod services;
pub mod text;
pub mod time;
