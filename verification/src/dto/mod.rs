//! The bodies the web API reads and writes, and the parameters the services take.
pub mod account;
pub mod admin;
pub mod auth;
pub mod character;
pub mod checks;
