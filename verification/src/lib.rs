//! Core of a credential/session authentication service: password hashing,
//! signed expiring identity tokens, a credential store with uniqueness
//! constraints, the signup/login service on top of them, and the bearer-token
//! request authenticator.

pub mod config;
pub mod dto;
pub mod error;
pub mod extractors;
pub mod password;
pub mod service;
pub mod store;
pub mod token;
pub mod validate;
