//! Bearer-token verification and cache-aside lookups for an HTTP API service.
//!
//! The library decides; the service around it performs the cache reads, cache
//! writes and HTTP requests that the library asks for.

pub mod auth;
pub mod config;
pub mod dto;
pub mod errors;
pub mod exchange;
pub mod key_cache;
pub mod keys;
pub mod profile_cache;
pub mod redis;
pub mod response;
pub mod routes;
pub mod token;
pub mod token_verifier;

pub use errors::AppError;
