//! Signed requests to an OpenSearch endpoint: credential and region
//! resolution, SigV4 / SigV4a header signing, and request assembly.
pub mod client;
pub mod config;
pub mod credentials;
pub mod error;
pub mod headers;
pub mod sigv4;

pub use client::Client;
pub use error::Error;
