//! A client library for the REST API of a self-hosted Git forge.
//!
//! The library composes requests (base URL, endpoint paths, query
//! parameters, the authentication header), maps HTTP statuses to results,
//! and checks webhook signatures. Sending requests and decoding JSON bodies
//! is left to the transport layer that drives it.
pub use error::{Error, Result};

pub mod auth;
pub mod builder;
pub mod client;
pub mod config;
pub mod datetime;
pub mod decimal;
pub mod error;
pub mod hook;
pub mod oauth;
pub mod pagination;
pub mod repo;
pub mod urls;
pub mod user;
