//! A key-guarded scripture query service.
//!
//! The library holds the verified core of the service: an immutable
//! in-memory Bible store with hierarchical lookup and case-insensitive
//! substring search, a credential service that issues and checks
//! password hashes and API keys, and the authorization decisions made
//! for every protected request. Transport, persistence and process
//! bootstrap live outside the library and call into it with plain values.

pub mod auth;
pub mod bible;
pub mod hasher;
pub mod text;
pub mod user;
